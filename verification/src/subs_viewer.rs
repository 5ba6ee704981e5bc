//! The subtitle viewer's data model: the editable values of each subtitle
//! line, the focused range of table rows, and how the viewer's messages
//! change them. The pane layout and the widgets that display the model
//! belong to the GUI and stay outside the library.

pub mod cell;
pub mod subs_controls;

use vstd::prelude::*;

use crate::subs_viewer::subs_controls::{ActorList, StyleList};

verus! {

/// The editable values of one subtitle line.
#[derive(Debug)]
pub struct SubsControlsValues {
    pub style_list: StyleList,
    pub actor_list: ActorList,
    pub layer: usize,
    pub margin_left: usize,
    pub margin_vertical: usize,
    pub margin_right: usize,
    pub start_time: String,
    pub end_time: String,
    pub duration: String,
    pub is_comment: bool,
    pub text: String,
    pub notes: String,
}

/// The values of a freshly created subtitle line: zero timestamps, default
/// style and actor, and everything else empty.
pub open spec fn is_initial_line(v: SubsControlsValues) -> bool {
    &&& v.style_list == StyleList::Default
    &&& v.actor_list == ActorList::Undefined
    &&& v.layer == 0
    &&& v.margin_left == 0
    &&& v.margin_vertical == 0
    &&& v.margin_right == 0
    &&& v.start_time@ == "00:00:00:00"@
    &&& v.end_time@ == "00:00:00:00"@
    &&& v.duration@ == "00:00:00:00"@
    &&& !v.is_comment
    &&& v.text@ == ""@
    &&& v.notes@ == ""@
}

impl SubsControlsValues {
    /// A freshly created subtitle line.
    pub fn new() -> (r: Self)
        ensures
            is_initial_line(r),
    {
        Self {
            style_list: StyleList::Default,
            actor_list: ActorList::Undefined,
            layer: 0,
            margin_left: 0,
            margin_vertical: 0,
            margin_right: 0,
            start_time: "00:00:00:00".to_owned(),
            end_time: "00:00:00:00".to_owned(),
            duration: "00:00:00:00".to_owned(),
            is_comment: false,
            text: "".to_owned(),
            notes: "".to_owned(),
        }
    }
}

/// One event of the subtitle viewer.
#[derive(Debug, Clone)]
pub enum Message {
    /// An edit emitted by the control strip, for the focused line.
    SubsControls(subs_controls::Message),
    /// A click on a table row, moving the focus there.
    TableViewerClicked(usize),
}

/// The viewer's state: the values of every subtitle line and the focused
/// range of table rows.
pub struct SubsViewer {
    controls_values: Vec<SubsControlsValues>,
    focused_start: usize,
    focused_end: usize,
}

impl SubsViewer {
    /// The values of every subtitle line, in table order.
    pub closed spec fn spec_values(self) -> Seq<SubsControlsValues> {
        self.controls_values@
    }

    /// The first row of the focused range.
    pub closed spec fn spec_focused_start(self) -> usize {
        self.focused_start
    }

    /// The last row of the focused range.
    pub closed spec fn spec_focused_end(self) -> usize {
        self.focused_end
    }

    /// The row that control edits apply to: the start of the focused range
    /// where it is a single row, its end otherwise.
    pub open spec fn spec_focus(self) -> int {
        if self.spec_focused_start() == self.spec_focused_end() {
            self.spec_focused_start() as int
        } else {
            self.spec_focused_end() as int
        }
    }

    /// The focused rows lie within the table.
    pub open spec fn wf(self) -> bool {
        &&& (self.spec_focused_start() as int) < self.spec_values().len()
        &&& (self.spec_focused_end() as int) < self.spec_values().len()
    }

    /// A viewer over three freshly created subtitle lines, focused on the
    /// first row.
    pub fn new() -> (r: Self)
        ensures
            r.wf(),
            r.spec_values().len() == 3,
            forall|i: int| 0 <= i < 3 ==> is_initial_line(#[trigger] r.spec_values()[i]),
            r.spec_focused_start() == 0,
            r.spec_focused_end() == 0,
    {
        let mut controls_values: Vec<SubsControlsValues> = Vec::new();
        controls_values.push(SubsControlsValues::new());
        controls_values.push(SubsControlsValues::new());
        controls_values.push(SubsControlsValues::new());
        Self { controls_values, focused_start: 0, focused_end: 0 }
    }

    /// Applies one viewer event: a control edit changes the focused line
    /// and nothing else; a row click moves the focus and changes no line.
    pub fn update(&mut self, message: Message)
        requires
            old(self).wf(),
            message matches Message::TableViewerClicked(row) ==> (row as int) < old(self).spec_values().len(),
        ensures
            final(self).wf(),
            message matches Message::SubsControls(m) ==> final(self).spec_values() == old(self).spec_values().update(
                old(self).spec_focus(),
                subs_controls::applied(old(self).spec_values()[old(self).spec_focus()], m),
            ),
            message matches Message::SubsControls(m) ==> final(self).spec_focused_start() == old(self).spec_focused_start()
                && final(self).spec_focused_end() == old(self).spec_focused_end(),
            message matches Message::TableViewerClicked(row) ==> final(self).spec_values() == old(self).spec_values()
                && final(self).spec_focused_start() == row
                && final(self).spec_focused_end() == row,
    {
        match message {
            Message::SubsControls(message) => {
                let focus_sub = if self.focused_start == self.focused_end {
                    self.focused_start
                } else {
                    self.focused_end
                };
                subs_controls::update(message, &mut self.controls_values[focus_sub]);
            },
            Message::TableViewerClicked(row) => {
                self.focused_start = row;
                self.focused_end = row;
            },
        }
    }

    /// The values of every subtitle line, for display.
    pub fn values(&self) -> (r: &Vec<SubsControlsValues>)
        ensures
            r@ == self.spec_values(),
    {
        &self.controls_values
    }

    /// The first row of the focused range.
    pub fn focused_start(&self) -> (r: usize)
        ensures
            r == self.spec_focused_start(),
    {
        self.focused_start
    }

    /// The last row of the focused range.
    pub fn focused_end(&self) -> (r: usize)
        ensures
            r == self.spec_focused_end(),
    {
        self.focused_end
    }
}

} // verus!
