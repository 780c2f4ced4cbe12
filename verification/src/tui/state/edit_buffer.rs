//! The edit session over one task: five field buffers (description,
//! priority, due, tags, notes), a selected field, and the commit rules that
//! write the fields back onto the task.

use crate::storage::TaskModel;
use crate::storage::TodoItem;
use crate::text::chars_to_string;
use crate::text::dec_digits;
use crate::text::join_tags;
use crate::text::lemma_empty_text;
use crate::text::lemma_parse_dec_digits;
use crate::text::lemma_tag_list_empty;
use crate::text::lemma_tags_round_trip;
use crate::text::no_comma;
use crate::text::parse_u8;
use crate::text::parse_u8_chars;
use crate::text::join_tags_chars;
use crate::text::split_clean_tags;
use crate::text::tag_list;
use crate::text::trim_chars;
use crate::text::trimmed;
use crate::text::u8_to_chars;
use crate::tui::state::field_buffer::FieldBuffer;
use vstd::prelude::*;

verus! {

/// One task's in-progress edit: the five editable attributes as text
/// buffers, and which of them is selected.
pub struct EditBuffer {
    /// Field 0 is the description, 1 the priority, 2 the due date, 3 the
    /// tags, 4 the notes.
    pub fields: Vec<FieldBuffer>,
    pub selected_field: usize,
    pub done: bool,
}

/// The text a priority renders to: its decimal digits, or empty for `None`.
pub open spec fn priority_text(p: Option<u8>) -> Seq<char> {
    match p {
        Some(v) => dec_digits(v as int),
        None => Seq::empty(),
    }
}

/// The text an optional text attribute renders to: itself, or empty.
pub open spec fn opt_text(o: Option<Seq<char>>) -> Seq<char> {
    match o {
        Some(s) => s,
        None => Seq::empty(),
    }
}

/// The text the tag list renders to: the tags joined with `", "`, or empty.
pub open spec fn tags_text(o: Option<Seq<Seq<char>>>) -> Seq<char> {
    match o {
        Some(ts) => join_tags(ts),
        None => Seq::empty(),
    }
}

/// A field buffer holding exactly the text `s`, cursor at the end.
pub open spec fn field_at_end(f: FieldBuffer, s: Seq<char>) -> bool {
    f.value@ == s && f.cursor == s.len()
}

/// `eb` is a fresh edit session over task `t`: all five fields rendered from
/// the task's attributes, cursors at the end, the description selected.
pub open spec fn renders(eb: EditBuffer, t: TaskModel) -> bool {
    &&& eb.fields@.len() == 5
    &&& eb.selected_field == 0
    &&& eb.done == t.done
    &&& field_at_end(eb.fields@[0], t.description)
    &&& field_at_end(eb.fields@[1], priority_text(t.priority))
    &&& field_at_end(eb.fields@[2], opt_text(t.due))
    &&& field_at_end(eb.fields@[3], tags_text(t.tags))
    &&& field_at_end(eb.fields@[4], opt_text(t.notes))
}

/// An optional text attribute as a commit writes it: trimmed, with the empty
/// text committed as `None`.
pub open spec fn committed_opt(s: Seq<char>) -> Option<Seq<char>> {
    if trimmed(s).len() == 0 {
        None
    } else {
        Some(trimmed(s))
    }
}

/// The tag list as a commit writes it: the text split on commas, each piece
/// trimmed, empty pieces dropped — and an empty list normalized to `None`
/// (so text of only commas and white space commits as `None`).
pub open spec fn committed_tags(s: Seq<char>) -> Option<Seq<Seq<char>>> {
    if tag_list(s).len() == 0 {
        None
    } else {
        Some(tag_list(s))
    }
}

/// The priority as a commit writes it: the trimmed text parsed as a number
/// in the priority range 0 to 98; anything else — unparseable text, or a
/// value past 98 — is silently discarded to `None`.
pub open spec fn committed_priority(s: Seq<char>) -> Option<u8> {
    match parse_u8(trimmed(s)) {
        Some(p) => if p <= 98 {
            Some(p)
        } else {
            None
        },
        None => None,
    }
}

/// The task a commit of the session produces over the task `t` it replaces:
/// the description taken verbatim, the priority parsed with out-of-range or
/// unparseable text discarded to `None`, due/notes trimmed with empty as
/// `None`, the tags split and cleaned with an empty list as `None`, and
/// `done` kept.
pub open spec fn commit_model(eb: EditBuffer, t: TaskModel) -> TaskModel {
    TaskModel {
        description: eb.fields@[0].value@,
        priority: committed_priority(eb.fields@[1].value@),
        due: committed_opt(eb.fields@[2].value@),
        tags: committed_tags(eb.fields@[3].value@),
        done: t.done,
        notes: committed_opt(eb.fields@[4].value@),
    }
}

impl EditBuffer {
    /// Five fields, a selected field among them, cursors in bounds.
    pub open spec fn wf(self) -> bool {
        &&& self.fields@.len() == 5
        &&& self.selected_field < 5
        &&& forall|i: int| 0 <= i < 5 ==> (#[trigger] self.fields@[i]).wf()
    }

    /// A fresh session over `todo`: each attribute rendered to text per the
    /// rules of `renders`, cursors at the end, the description selected.
    pub fn new(todo: &TodoItem) -> (r: EditBuffer)
        ensures
            renders(r, todo@),
            r.wf(),
    {
        let f0 = FieldBuffer::new(todo.description.clone());
        let f1 = match todo.priority {
            Some(p) => FieldBuffer::from_chars(u8_to_chars(p)),
            None => FieldBuffer::from_chars(Vec::new()),
        };
        let f2 = match &todo.due {
            Some(d) => FieldBuffer::new(d.clone()),
            None => FieldBuffer::from_chars(Vec::new()),
        };
        let f3 = match &todo.tags {
            Some(ts) => FieldBuffer::from_chars(join_tags_chars(ts)),
            None => FieldBuffer::from_chars(Vec::new()),
        };
        let f4 = match &todo.notes {
            Some(n) => FieldBuffer::new(n.clone()),
            None => FieldBuffer::from_chars(Vec::new()),
        };
        let mut fields: Vec<FieldBuffer> = Vec::new();
        fields.push(f0);
        fields.push(f1);
        fields.push(f2);
        fields.push(f3);
        fields.push(f4);
        EditBuffer { fields, selected_field: 0, done: todo.done }
    }

    /// Writes the five fields back onto `todo`, as `commit_model` says.
    pub fn update_todo(&self, todo: &mut TodoItem)
        requires
            self.wf(),
        ensures
            final(todo)@ == commit_model(*self, old(todo)@),
    {
        todo.description = chars_to_string(&self.fields[0].value);

        let tp = trim_chars(&self.fields[1].value);
        todo.priority = match parse_u8_chars(&tp) {
            Some(v) => if v <= 98 {
                Some(v)
            } else {
                None
            },
            None => None,
        };

        let td = trim_chars(&self.fields[2].value);
        todo.due = if td.len() == 0 {
            None
        } else {
            Some(chars_to_string(&td))
        };

        let tags = split_clean_tags(&self.fields[3].value);
        proof {
            assert(tags@.len() == tags.deep_view().len());
        }
        todo.tags = if tags.len() == 0 {
            None
        } else {
            Some(tags)
        };

        let tn = trim_chars(&self.fields[4].value);
        todo.notes = if tn.len() == 0 {
            None
        } else {
            Some(chars_to_string(&tn))
        };

        proof {
            assert(todo@ =~~= commit_model(*self, old(todo)@));
        }
    }

    /// The currently selected field, for editing in place.
    pub fn current_field_mut(&mut self) -> (r: &mut FieldBuffer)
        requires
            old(self).wf(),
        ensures
            *r == old(self).fields@[old(self).selected_field as int],
            final(self).fields@ == old(self).fields@.update(
                old(self).selected_field as int,
                *final(r),
            ),
            final(self).selected_field == old(self).selected_field,
            final(self).done == old(self).done,
    {
        let i = self.selected_field;
        &mut self.fields[i]
    }
}

/// The round-trip law: committing a fresh, unmodified edit session over a
/// task reproduces the task — description, priority, due, tags and notes —
/// provided its attributes are in committed form (priority in 0..=98,
/// due/notes trimmed and non-empty, tags trimmed, non-empty and free of
/// commas); the one normalization is that an empty tag list commits as
/// `None`.
pub proof fn lemma_session_round_trip(eb: EditBuffer, t: TaskModel)
    requires
        renders(eb, t),
        t.priority matches Some(p) ==> p <= 98,
        t.due matches Some(d) ==> trimmed(d) == d && d.len() > 0,
        t.notes matches Some(nt) ==> trimmed(nt) == nt && nt.len() > 0,
        t.tags matches Some(ts) ==> forall|i: int|
            #![trigger ts[i]]
            0 <= i < ts.len() ==> ts[i].len() > 0 && trimmed(ts[i]) == ts[i] && no_comma(ts[i]),
    ensures
        commit_model(eb, t) == (TaskModel {
            tags: if t.tags matches Some(ts) && ts.len() > 0 {
                t.tags
            } else {
                None
            },
            ..t
        }),
{
    lemma_empty_text();
    lemma_tag_list_empty();
    match t.priority {
        Some(p) => {
            lemma_parse_dec_digits(p);
        },
        None => {},
    }
    match t.tags {
        Some(ts) => {
            if ts.len() > 0 {
                lemma_tags_round_trip(ts);
            } else {
                assert(join_tags(ts) == Seq::<char>::empty());
            }
        },
        None => {},
    }
    assert(commit_model(eb, t) =~~= (TaskModel {
        tags: if t.tags matches Some(ts) && ts.len() > 0 {
            t.tags
        } else {
            None
        },
        ..t
    }));
}

} // verus!
