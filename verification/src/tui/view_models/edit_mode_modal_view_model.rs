//! The render-ready model of the edit modal: the five labelled inputs of
//! the active edit session, each with its live text and cursor, the active
//! field, and the task's done flag.

use crate::tui::app::App;
use vstd::pervasive::unreached;
use vstd::prelude::*;
use vstd::string::StrSliceExecFns;
use vstd::string::StringExecFns;

verus! {

/// One labelled input of the modal: its title, its text, the cursor's
/// character index, and whether it is the active field.
pub struct Input {
    pub title: String,
    pub value: String,
    pub character_index: usize,
    pub selected: bool,
}

impl Input {
    /// An input over `value`, its cursor at the end of the text.
    pub fn new(title: &String, value: &String, selected: bool) -> (r: Input)
        ensures
            r.title@ == title@,
            r.value@ == value@,
            r.character_index == value@.len(),
            r.selected == selected,
    {
        let character_index = value.as_str().unicode_len();
        Input { title: title.clone(), value: value.clone(), character_index, selected }
    }
}

/// The modal's inputs, in field order: description, priority, due date,
/// tags, notes.
pub struct EditModeModalViewModel {
    pub fields: Vec<Input>,
    pub done: bool,
    pub selected_index: usize,
}

impl EditModeModalViewModel {
    /// Builds the modal model from the active edit session: each input
    /// shows its field buffer's current text and cursor (so in-progress
    /// keystrokes display), the session's selected field is marked, and
    /// `done` is the edited task's flag. A task without a priority shows an
    /// empty priority field.
    pub fn from_app(app: &App) -> (r: EditModeModalViewModel)
        requires
            app.wf(),
            app.mode is Editing,
        ensures
            ({
                let eb = app.edit_buffer->0;
                &&& r.fields@.len() == 5
                &&& r.done == eb.done
                &&& r.selected_index == eb.selected_field
                &&& r.fields@[0].title@ == "Description"@
                &&& r.fields@[1].title@ == "Priority"@
                &&& r.fields@[2].title@ == "Due Date"@
                &&& r.fields@[3].title@ == "Tags"@
                &&& r.fields@[4].title@ == "Notes"@
                &&& forall|i: int|
                    0 <= i < 5 ==> (#[trigger] r.fields@[i]).value@ == eb.fields@[i].value@
                &&& forall|i: int|
                    0 <= i < 5 ==> (#[trigger] r.fields@[i]).character_index == eb.fields@[i].cursor
                &&& forall|i: int|
                    0 <= i < 5 ==> (#[trigger] r.fields@[i]).selected == (i == eb.selected_field)
            }),
    {
        let buf = match &app.edit_buffer {
            Some(b) => b,
            None => unreached(),
        };
        let sf = buf.selected_field;

        let mut inputs: Vec<Input> = Vec::new();
        inputs.push(
            Input {
                title: String::from_str("Description"),
                value: buf.fields[0].text(),
                character_index: buf.fields[0].cursor,
                selected: sf == 0,
            },
        );
        inputs.push(
            Input {
                title: String::from_str("Priority"),
                value: buf.fields[1].text(),
                character_index: buf.fields[1].cursor,
                selected: sf == 1,
            },
        );
        inputs.push(
            Input {
                title: String::from_str("Due Date"),
                value: buf.fields[2].text(),
                character_index: buf.fields[2].cursor,
                selected: sf == 2,
            },
        );
        inputs.push(
            Input {
                title: String::from_str("Tags"),
                value: buf.fields[3].text(),
                character_index: buf.fields[3].cursor,
                selected: sf == 3,
            },
        );
        inputs.push(
            Input {
                title: String::from_str("Notes"),
                value: buf.fields[4].text(),
                character_index: buf.fields[4].cursor,
                selected: sf == 4,
            },
        );

        EditModeModalViewModel { fields: inputs, done: buf.done, selected_index: sf }
    }
}

} // verus!
