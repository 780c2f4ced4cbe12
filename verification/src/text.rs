//! Character-level text helpers: whitespace trimming, decimal rendering and
//! parsing of priorities, and the comma-separated tag list format.
//!
//! All executable text manipulation in this crate works over `Vec<char>`, so
//! that cursor positions and edits are always character-based and multi-byte
//! characters can never be split.

use vstd::prelude::*;
use vstd::string::StrSliceExecFns;

verus! {

/// The Unicode white-space characters, the set `char::is_whitespace` accepts.
pub open spec fn is_space_char(c: char) -> bool {
    ||| c as u32 == 0x20
    ||| (0x09 <= c as u32 && c as u32 <= 0x0D)
    ||| c as u32 == 0x85
    ||| c as u32 == 0xA0
    ||| c as u32 == 0x1680
    ||| (0x2000 <= c as u32 && c as u32 <= 0x200A)
    ||| c as u32 == 0x2028
    ||| c as u32 == 0x2029
    ||| c as u32 == 0x202F
    ||| c as u32 == 0x205F
    ||| c as u32 == 0x3000
}

pub fn is_space(c: char) -> (r: bool)
    ensures
        r == is_space_char(c),
{
    let u = c as u32;
    u == 0x20 || (0x09 <= u && u <= 0x0D) || u == 0x85 || u == 0xA0 || u == 0x1680 || (0x2000 <= u
        && u <= 0x200A) || u == 0x2028 || u == 0x2029 || u == 0x202F || u == 0x205F || u == 0x3000
}

/// Collects the characters of a string slice, in order.
pub fn string_to_chars(s: &str) -> (r: Vec<char>)
    ensures
        r@ == s@,
{
    let n = s.unicode_len();
    let mut r: Vec<char> = Vec::new();
    let mut i: usize = 0;
    while i < n
        invariant
            i <= n,
            n == s@.len(),
            r@ == s@.take(i as int),
        decreases n - i,
    {
        r.push(s.get_char(i));
        i += 1;
        proof {
            assert(r@ =~= s@.take(i as int));
        }
    }
    proof {
        assert(r@ =~= s@);
    }
    r
}

/// Relies on `String`'s `FromIterator<char>` implementation: collecting an
/// iterator of characters yields the string of exactly those characters, in
/// order.
#[verifier::external_body]
pub fn chars_to_string(v: &Vec<char>) -> (r: String)
    ensures
        r@ == v@,
{
    v.iter().collect()
}

/// Leading white space removed.
pub open spec fn ltrim(s: Seq<char>) -> Seq<char>
    decreases s.len(),
{
    if s.len() > 0 && is_space_char(s[0]) {
        ltrim(s.drop_first())
    } else {
        s
    }
}

/// Trailing white space removed.
pub open spec fn rtrim(s: Seq<char>) -> Seq<char>
    decreases s.len(),
{
    if s.len() > 0 && is_space_char(s.last()) {
        rtrim(s.drop_last())
    } else {
        s
    }
}

/// What `str::trim` returns: white space stripped from both ends.
pub open spec fn trimmed(s: Seq<char>) -> Seq<char> {
    rtrim(ltrim(s))
}

proof fn lemma_ltrim_skip(s: Seq<char>, k: int)
    requires
        0 <= k <= s.len(),
        forall|i: int| 0 <= i < k ==> is_space_char(s[i]),
        k == s.len() || !is_space_char(s[k]),
    ensures
        ltrim(s) == s.skip(k),
    decreases k,
{
    if k == 0 {
        assert(s.skip(0) =~= s);
    } else {
        lemma_ltrim_skip(s.drop_first(), k - 1);
        assert(s.drop_first().skip(k - 1) =~= s.skip(k));
    }
}

proof fn lemma_rtrim_take(s: Seq<char>, k: int)
    requires
        0 <= k <= s.len(),
        forall|i: int| k <= i < s.len() ==> is_space_char(s[i]),
        k == 0 || !is_space_char(s[k - 1]),
    ensures
        rtrim(s) == s.take(k),
    decreases s.len() - k,
{
    if k == s.len() {
        assert(s.take(k) =~= s);
    } else {
        lemma_rtrim_take(s.drop_last(), k);
        assert(s.drop_last().take(k) =~= s.take(k));
    }
}

/// The characters of `v` with white space stripped from both ends, as
/// `str::trim` strips it.
pub fn trim_chars(v: &Vec<char>) -> (r: Vec<char>)
    ensures
        r@ == trimmed(v@),
{
    let n = v.len();
    let mut a: usize = 0;
    while a < n && is_space(v[a])
        invariant
            a <= n,
            n == v@.len(),
            forall|i: int| 0 <= i < a ==> is_space_char(v@[i]),
        decreases n - a,
    {
        a += 1;
    }
    let mut b: usize = n;
    while b > a && is_space(v[b - 1])
        invariant
            a <= b <= n,
            n == v@.len(),
            forall|i: int| b <= i < n ==> is_space_char(v@[i]),
        decreases b,
    {
        b -= 1;
    }
    let mut r: Vec<char> = Vec::new();
    let mut i: usize = a;
    while i < b
        invariant
            a <= i <= b <= n,
            n == v@.len(),
            r@ == v@.subrange(a as int, i as int),
        decreases b - i,
    {
        r.push(v[i]);
        proof {
            assert(r@ =~= v@.subrange(a as int, i + 1 as int));
        }
        i += 1;
    }
    proof {
        lemma_ltrim_skip(v@, a as int);
        assert(forall|j: int|
            (b - a) <= j < v@.skip(a as int).len() ==> is_space_char(v@.skip(a as int)[j]));
        lemma_rtrim_take(v@.skip(a as int), b - a);
        assert(r@ =~= trimmed(v@));
    }
    r
}

pub proof fn lemma_trim_noop(s: Seq<char>)
    requires
        s.len() == 0 || (!is_space_char(s[0]) && !is_space_char(s.last())),
    ensures
        trimmed(s) == s,
{
}

/// The decimal digits.
pub open spec fn is_digit_char(c: char) -> bool {
    0x30 <= c as u32 && c as u32 <= 0x39
}

pub open spec fn digit_val(c: char) -> int {
    c as u32 - 0x30
}

pub open spec fn char_of_digit(d: int) -> char {
    if d == 0 {
        '0'
    } else if d == 1 {
        '1'
    } else if d == 2 {
        '2'
    } else if d == 3 {
        '3'
    } else if d == 4 {
        '4'
    } else if d == 5 {
        '5'
    } else if d == 6 {
        '6'
    } else if d == 7 {
        '7'
    } else if d == 8 {
        '8'
    } else {
        '9'
    }
}

/// The decimal rendering of a non-negative integer, most significant digit
/// first, without leading zeros.
pub open spec fn dec_digits(n: int) -> Seq<char>
    decreases n,
{
    if n < 10 {
        seq![char_of_digit(n)]
    } else {
        dec_digits(n / 10).push(char_of_digit(n % 10))
    }
}

pub open spec fn all_digits(s: Seq<char>) -> bool {
    forall|i: int| 0 <= i < s.len() ==> is_digit_char(s[i])
}

/// The numeric value of a digit sequence, most significant digit first.
pub open spec fn dec_value(s: Seq<char>) -> int
    decreases s.len(),
{
    if s.len() == 0 {
        0
    } else {
        dec_value(s.drop_last()) * 10 + digit_val(s.last())
    }
}

/// What `str::parse::<u8>` returns: an optional leading `+`, then at least
/// one decimal digit, and a value that fits in a `u8`; anything else fails.
pub open spec fn parse_u8(s: Seq<char>) -> Option<u8> {
    let d = if s.len() > 0 && s[0] == '+' {
        s.drop_first()
    } else {
        s
    };
    if d.len() > 0 && all_digits(d) && dec_value(d) <= 255 {
        Some(dec_value(d) as u8)
    } else {
        None
    }
}

fn digit_to_char(d: u8) -> (c: char)
    requires
        d < 10,
    ensures
        c == char_of_digit(d as int),
{
    if d == 0 {
        '0'
    } else if d == 1 {
        '1'
    } else if d == 2 {
        '2'
    } else if d == 3 {
        '3'
    } else if d == 4 {
        '4'
    } else if d == 5 {
        '5'
    } else if d == 6 {
        '6'
    } else if d == 7 {
        '7'
    } else if d == 8 {
        '8'
    } else {
        '9'
    }
}

/// The decimal rendering of `p`, as `u8::to_string` renders it.
pub fn u8_to_chars(p: u8) -> (r: Vec<char>)
    ensures
        r@ == dec_digits(p as int),
{
    let mut r: Vec<char> = Vec::new();
    if p >= 100 {
        r.push(digit_to_char(p / 100));
    }
    if p >= 10 {
        r.push(digit_to_char((p / 10) % 10));
    }
    r.push(digit_to_char(p % 10));
    proof {
        let n = p as int;
        if n >= 100 {
            assert(dec_digits(n) == dec_digits(n / 10).push(char_of_digit(n % 10)));
            assert(dec_digits(n / 10) == dec_digits(n / 10 / 10).push(char_of_digit(n / 10 % 10)));
            assert(n / 10 / 10 == n / 100) by {
                vstd::arithmetic::div_mod::lemma_div_denominator(n, 10, 10);
            }
            assert(n / 100 < 10);
            assert(r@ =~= dec_digits(n));
        } else if n >= 10 {
            assert(dec_digits(n) == dec_digits(n / 10).push(char_of_digit(n % 10)));
            assert(n / 10 < 10);
            assert(r@ =~= dec_digits(n));
        } else {
            assert(r@ =~= dec_digits(n));
        }
    }
    r
}

/// Digit sequences render and parse consistently: the rendering of `n` is a
/// non-empty digit sequence whose value is `n` again.
pub proof fn lemma_dec_digits_value(n: int)
    requires
        0 <= n,
    ensures
        dec_digits(n).len() >= 1,
        all_digits(dec_digits(n)),
        dec_value(dec_digits(n)) == n,
    decreases n,
{
    if n < 10 {
        let d = dec_digits(n);
        assert(d == seq![char_of_digit(n)]);
        assert(d.drop_last() =~= Seq::<char>::empty());
        assert(dec_value(Seq::<char>::empty()) == 0);
        assert(d.last() == char_of_digit(n));
        assert(digit_val(char_of_digit(n)) == n);
        assert(dec_value(d) == 0 * 10 + n);
    } else {
        lemma_dec_digits_value(n / 10);
        let d = dec_digits(n);
        assert(d.drop_last() == dec_digits(n / 10));
        assert(d.last() == char_of_digit(n % 10));
        assert(dec_value(d) == (n / 10) * 10 + n % 10);
        assert((n / 10) * 10 + n % 10 == n) by {
            vstd::arithmetic::div_mod::lemma_fundamental_div_mod(n, 10);
        }
    }
}

/// A digit sequence has no white space and no sign, so trimming and the
/// sign test leave it alone; parsing the rendering of `p` gives `p` back.
pub proof fn lemma_parse_dec_digits(p: u8)
    ensures
        trimmed(dec_digits(p as int)) == dec_digits(p as int),
        parse_u8(dec_digits(p as int)) == Some(p),
{
    lemma_dec_digits_value(p as int);
    let d = dec_digits(p as int);
    assert(!is_space_char(d[0]));
    assert(!is_space_char(d.last()));
    lemma_trim_noop(d);
    assert(d[0] != '+');
}

/// The empty text trims to itself and fails to parse.
pub proof fn lemma_empty_text()
    ensures
        trimmed(Seq::<char>::empty()) == Seq::<char>::empty(),
        parse_u8(Seq::<char>::empty()) is None,
{
}

/// What `str::parse::<u8>` returns on the characters of `v`.
pub fn parse_u8_chars(v: &Vec<char>) -> (r: Option<u8>)
    ensures
        r == parse_u8(v@),
{
    let n = v.len();
    let mut i: usize = 0;
    if n > 0 && v[0] == '+' {
        i = 1;
    }
    let ghost d = if v@.len() > 0 && v@[0] == '+' {
        v@.drop_first()
    } else {
        v@
    };
    let ghost start = i as int;
    proof {
        assert(d =~= v@.skip(start));
    }
    if i >= n {
        return None;
    }
    let mut acc: u32 = 0;
    while i < n
        invariant
            0 <= start <= i <= n,
            n == v@.len(),
            d == v@.skip(start),
            d == (if v@.len() > 0 && v@[0] == '+' {
                v@.drop_first()
            } else {
                v@
            }),
            d.len() == n - start,
            all_digits(d.take(i - start)),
            dec_value(d.take(i - start)) <= 255 ==> acc == dec_value(d.take(i - start)),
            dec_value(d.take(i - start)) > 255 ==> acc == 256,
            acc <= 256,
        decreases n - i,
    {
        let c = v[i];
        let u = c as u32;
        if u < 0x30 || u > 0x39 {
            proof {
                assert(v@.skip(start)[i - start] == v@[i as int]);
                assert(d[i - start] == c);
                assert(!all_digits(d));
            }
            return None;
        }
        let ghost p = d.take(i - start);
        acc = acc * 10 + (u - 0x30);
        if acc > 255 {
            acc = 256;
        }
        i += 1;
        proof {
            assert(v@.skip(start)[i - 1 - start] == v@[i - 1]);
            let q = d.take(i - start);
            assert(q.drop_last() =~= p);
            assert(q.last() == c);
            assert(dec_value(q) == dec_value(p) * 10 + digit_val(c));
        }
    }
    proof {
        assert(d.take(n - start) =~= d);
    }
    if acc > 255 {
        None
    } else {
        Some(acc as u8)
    }
}

/// The tag list rendered for editing: tags joined with a comma and a space.
pub open spec fn join_tags(ts: Seq<Seq<char>>) -> Seq<char>
    decreases ts.len(),
{
    if ts.len() == 0 {
        Seq::empty()
    } else if ts.len() == 1 {
        ts[0]
    } else {
        ts[0] + seq![',', ' '] + join_tags(ts.drop_first())
    }
}

/// What `str::split(',')` yields: the (possibly empty) pieces between commas.
pub open spec fn split_commas(s: Seq<char>) -> Seq<Seq<char>>
    decreases s.len(),
{
    if s.len() == 0 {
        seq![Seq::<char>::empty()]
    } else if s[0] == ',' {
        seq![Seq::<char>::empty()] + split_commas(s.drop_first())
    } else {
        let rest = split_commas(s.drop_first());
        seq![seq![s[0]] + rest[0]] + rest.skip(1)
    }
}

pub open spec fn no_comma(s: Seq<char>) -> bool {
    forall|i: int| 0 <= i < s.len() ==> s[i] != ','
}

/// Each piece trimmed, empty pieces dropped.
pub open spec fn clean_tags(pieces: Seq<Seq<char>>) -> Seq<Seq<char>>
    decreases pieces.len(),
{
    if pieces.len() == 0 {
        Seq::empty()
    } else {
        let t = trimmed(pieces[0]);
        let rest = clean_tags(pieces.drop_first());
        if t.len() == 0 {
            rest
        } else {
            seq![t] + rest
        }
    }
}

/// The tags committed for a tag-field text: split on commas, each piece
/// trimmed, empty pieces dropped.
pub open spec fn tag_list(s: Seq<char>) -> Seq<Seq<char>> {
    clean_tags(split_commas(s))
}

proof fn lemma_split_commas_len(s: Seq<char>)
    ensures
        split_commas(s).len() >= 1,
    decreases s.len(),
{
    if s.len() > 0 {
        lemma_split_commas_len(s.drop_first());
    }
}

proof fn lemma_split_no_comma(s: Seq<char>)
    requires
        no_comma(s),
    ensures
        split_commas(s) == seq![s],
    decreases s.len(),
{
    if s.len() == 0 {
        assert(s =~= Seq::<char>::empty());
        assert(split_commas(s) =~~= seq![s]);
    } else {
        assert(s[0] != ',');
        lemma_split_no_comma(s.drop_first());
        let rest = split_commas(s.drop_first());
        assert(split_commas(s) == seq![seq![s[0]] + rest[0]] + rest.skip(1));
        assert(rest == seq![s.drop_first()]);
        assert(seq![s[0]] + rest[0] =~= s);
        assert(rest.skip(1) =~= Seq::<Seq<char>>::empty());
        assert(split_commas(s) =~~= seq![s]);
    }
}

proof fn lemma_clean_singleton(p: Seq<char>)
    ensures
        trimmed(p).len() == 0 ==> clean_tags(seq![p]) == Seq::<Seq<char>>::empty(),
        trimmed(p).len() != 0 ==> clean_tags(seq![p]) == seq![trimmed(p)],
{
    assert(seq![p].drop_first() =~= Seq::<Seq<char>>::empty());
    assert(clean_tags(Seq::<Seq<char>>::empty()) == Seq::<Seq<char>>::empty());
    assert(seq![p][0] == p);
    if trimmed(p).len() == 0 {
        assert(clean_tags(seq![p]) =~= Seq::<Seq<char>>::empty());
    } else {
        assert(clean_tags(seq![p]) =~= seq![trimmed(p)]);
    }
}

proof fn lemma_split_comma_prefix(a: Seq<char>, b: Seq<char>)
    requires
        no_comma(a),
    ensures
        split_commas(a + seq![','] + b) == seq![a] + split_commas(b),
    decreases a.len(),
{
    let s = a + seq![','] + b;
    if a.len() == 0 {
        assert(s[0] == ',');
        assert(s.drop_first() =~= b);
        assert(split_commas(s) =~~= seq![a] + split_commas(b));
    } else {
        assert(s[0] == a[0]);
        assert(s[0] != ',');
        assert(s.drop_first() =~= a.drop_first() + seq![','] + b);
        lemma_split_comma_prefix(a.drop_first(), b);
        let rest = split_commas(s.drop_first());
        assert(split_commas(s) == seq![seq![s[0]] + rest[0]] + rest.skip(1));
        assert(rest == seq![a.drop_first()] + split_commas(b));
        lemma_split_commas_len(b);
        assert(rest[0] == a.drop_first());
        assert(seq![s[0]] + rest[0] =~= a);
        assert(rest.skip(1) =~= split_commas(b));
        assert(split_commas(s) =~~= seq![a] + split_commas(b));
    }
}

proof fn lemma_clean_concat(a: Seq<Seq<char>>, b: Seq<Seq<char>>)
    ensures
        clean_tags(a + b) == clean_tags(a) + clean_tags(b),
    decreases a.len(),
{
    if a.len() == 0 {
        assert(a + b =~= b);
        assert(clean_tags(a) + clean_tags(b) =~= clean_tags(b));
    } else {
        assert((a + b).drop_first() =~= a.drop_first() + b);
        lemma_clean_concat(a.drop_first(), b);
        assert((a + b)[0] == a[0]);
        if trimmed(a[0]).len() == 0 {
            assert(clean_tags(a + b) =~= clean_tags(a) + clean_tags(b));
        } else {
            assert(clean_tags(a + b) =~= clean_tags(a) + clean_tags(b));
        }
    }
}

proof fn lemma_join_push(ts: Seq<Seq<char>>, x: Seq<char>)
    ensures
        ts.len() == 0 ==> join_tags(ts.push(x)) == x,
        ts.len() > 0 ==> join_tags(ts.push(x)) == join_tags(ts) + seq![',', ' '] + x,
    decreases ts.len(),
{
    let p = ts.push(x);
    if ts.len() == 0 {
        assert(p.len() == 1);
        assert(p[0] == x);
    } else if ts.len() == 1 {
        assert(p.len() == 2);
        assert(p[0] == ts[0]);
        assert(p.drop_first() =~= ts.drop_first().push(x));
        lemma_join_push(ts.drop_first(), x);
        assert(join_tags(p) == ts[0] + seq![',', ' '] + x);
        assert(join_tags(ts) == ts[0]);
    } else {
        assert(p[0] == ts[0]);
        assert(p.drop_first() =~= ts.drop_first().push(x));
        lemma_join_push(ts.drop_first(), x);
        assert(join_tags(p) == ts[0] + seq![',', ' '] + (join_tags(ts.drop_first()) + seq![
            ',',
            ' ',
        ] + x));
        assert(ts[0] + seq![',', ' '] + (join_tags(ts.drop_first()) + seq![',', ' '] + x) =~= (ts[0]
            + seq![',', ' '] + join_tags(ts.drop_first())) + seq![',', ' '] + x);
    }
}

/// The characters of `tags` joined with `", "`, the rendering used for the
/// tag field of an edit session.
pub fn join_tags_chars(tags: &Vec<String>) -> (r: Vec<char>)
    ensures
        r@ == join_tags(tags.deep_view()),
{
    let mut r: Vec<char> = Vec::new();
    let n = tags.len();
    let mut i: usize = 0;
    while i < n
        invariant
            i <= n,
            n == tags@.len(),
            tags.deep_view().len() == n,
            forall|j: int| 0 <= j < n ==> tags.deep_view()[j] == tags@[j]@,
            r@ == join_tags(tags.deep_view().take(i as int)),
        decreases n - i,
    {
        if i > 0 {
            r.push(',');
            r.push(' ');
        }
        let mut cs = string_to_chars(tags[i].as_str());
        r.append(&mut cs);
        proof {
            let dv = tags.deep_view();
            assert(dv.take(i + 1 as int) =~= dv.take(i as int).push(dv[i as int]));
            lemma_join_push(dv.take(i as int), dv[i as int]);
            if i == 0 {
                assert(r@ =~= join_tags(dv.take(i + 1 as int)));
            } else {
                assert(r@ =~= join_tags(dv.take(i as int)) + seq![',', ' '] + dv[i as int]);
            }
        }
        i += 1;
    }
    proof {
        assert(tags.deep_view().take(n as int) =~= tags.deep_view());
    }
    r
}

/// Splits the characters of `v` on commas, trims each piece, drops empty
/// pieces, and returns the remaining pieces as strings: the committed tag
/// list for a tag-field text.
pub fn split_clean_tags(v: &Vec<char>) -> (r: Vec<String>)
    ensures
        r.deep_view() == tag_list(v@),
{
    let mut r: Vec<String> = Vec::new();
    let mut cur: Vec<char> = Vec::new();
    let n = v.len();
    let mut i: usize = 0;
    proof {
        assert(cur@ + v@.skip(0) =~= v@);
        assert(r.deep_view() =~= Seq::<Seq<char>>::empty());
        assert(r.deep_view() + clean_tags(split_commas(v@)) =~= tag_list(v@));
    }
    while i < n
        invariant
            i <= n,
            n == v@.len(),
            no_comma(cur@),
            tag_list(v@) == r.deep_view() + clean_tags(split_commas(cur@ + v@.skip(i as int))),
        decreases n - i,
    {
        let c = v[i];
        if c == ',' {
            proof {
                assert(cur@ + v@.skip(i as int) =~= cur@ + seq![','] + v@.skip(i as int + 1));
                lemma_split_comma_prefix(cur@, v@.skip(i as int + 1));
                lemma_clean_concat(seq![cur@], split_commas(v@.skip(i as int + 1)));
                lemma_clean_singleton(cur@);
            }
            let t = trim_chars(&cur);
            if t.len() > 0 {
                let ghost oldr = r.deep_view();
                let s = chars_to_string(&t);
                r.push(s);
                proof {
                    assert(r.deep_view() =~= oldr.push(t@));
                    assert(oldr.push(t@) =~= oldr + seq![trimmed(cur@)]);
                    assert(tag_list(v@) =~= r.deep_view() + clean_tags(
                        split_commas(v@.skip(i as int + 1)),
                    ));
                }
            } else {
                proof {
                    assert(tag_list(v@) =~= r.deep_view() + clean_tags(
                        split_commas(v@.skip(i as int + 1)),
                    ));
                }
            }
            cur = Vec::new();
            proof {
                assert(cur@ + v@.skip(i as int + 1) =~= v@.skip(i as int + 1));
            }
        } else {
            let ghost oldc = cur@;
            cur.push(c);
            proof {
                assert(oldc + v@.skip(i as int) =~= cur@ + v@.skip(i as int + 1));
            }
        }
        i += 1;
    }
    proof {
        assert(cur@ + v@.skip(n as int) =~= cur@);
        lemma_split_no_comma(cur@);
        lemma_clean_singleton(cur@);
    }
    let t = trim_chars(&cur);
    if t.len() > 0 {
        let ghost oldr = r.deep_view();
        let s = chars_to_string(&t);
        r.push(s);
        proof {
            assert(r.deep_view() =~= oldr.push(t@));
            assert(oldr.push(t@) =~= oldr + seq![trimmed(cur@)]);
        }
    }
    proof {
        assert(r.deep_view() =~= tag_list(v@));
    }
    r
}

proof fn lemma_tag_list_leading_space(s: Seq<char>)
    ensures
        tag_list(seq![' '] + s) == tag_list(s),
{
    let t = seq![' '] + s;
    assert(t[0] == ' ');
    assert(t.drop_first() =~= s);
    let ps = split_commas(s);
    lemma_split_commas_len(s);
    let rest = split_commas(t.drop_first());
    assert(split_commas(t) == seq![seq![t[0]] + rest[0]] + rest.skip(1));
    let m = split_commas(t);
    assert(m[0] == seq![' '] + ps[0]);
    assert(m.drop_first() =~= ps.drop_first());
    assert((seq![' '] + ps[0]).drop_first() =~= ps[0]);
    assert(is_space_char(' '));
    assert(ltrim(seq![' '] + ps[0]) == ltrim(ps[0]));
    assert(trimmed(m[0]) == trimmed(ps[0]));
    assert(clean_tags(m) == clean_tags(ps));
}

/// The round trip through the tag field: a list of non-empty, comma-free,
/// already-trimmed tags joined with `", "` splits and cleans back to the
/// same list.
pub proof fn lemma_tags_round_trip(ts: Seq<Seq<char>>)
    requires
        forall|i: int|
            #![trigger ts[i]]
            0 <= i < ts.len() ==> ts[i].len() > 0 && trimmed(ts[i]) == ts[i] && no_comma(ts[i]),
    ensures
        tag_list(join_tags(ts)) == ts,
    decreases ts.len(),
{
    if ts.len() == 0 {
        assert(trimmed(Seq::<char>::empty()) == Seq::<char>::empty());
        lemma_clean_singleton(Seq::<char>::empty());
        assert(split_commas(Seq::<char>::empty()) == seq![Seq::<char>::empty()]);
        assert(tag_list(join_tags(ts)) =~~= ts);
    } else if ts.len() == 1 {
        assert(join_tags(ts) == ts[0]);
        lemma_split_no_comma(ts[0]);
        lemma_clean_singleton(ts[0]);
        assert(tag_list(ts[0]) =~~= ts);
    } else {
        let rest = ts.drop_first();
        assert(forall|i: int|
            #![trigger rest[i]]
            0 <= i < rest.len() ==> rest[i].len() > 0 && trimmed(rest[i]) == rest[i] && no_comma(
                rest[i],
            ));
        lemma_tags_round_trip(rest);
        let j = join_tags(ts);
        assert(j == ts[0] + seq![',', ' '] + join_tags(rest));
        assert(j =~= ts[0] + seq![','] + (seq![' '] + join_tags(rest)));
        lemma_split_comma_prefix(ts[0], seq![' '] + join_tags(rest));
        lemma_clean_concat(seq![ts[0]], split_commas(seq![' '] + join_tags(rest)));
        lemma_clean_singleton(ts[0]);
        lemma_tag_list_leading_space(join_tags(rest));
        assert(trimmed(ts[0]).len() > 0);
        assert(tag_list(j) =~~= ts);
    }
}

/// The empty text yields the empty tag list.
pub proof fn lemma_tag_list_empty()
    ensures
        tag_list(Seq::<char>::empty()) == Seq::<Seq<char>>::empty(),
{
    assert(trimmed(Seq::<char>::empty()) == Seq::<char>::empty());
    lemma_clean_singleton(Seq::<char>::empty());
    assert(split_commas(Seq::<char>::empty()) == seq![Seq::<char>::empty()]);
}

} // verus!
