//! The control strip under the subtitle table: the choices its pick lists
//! offer, the messages its inputs emit, and how a message edits the values
//! of the focused subtitle line. The widgets themselves belong to the GUI
//! and stay outside the library.

use vstd::prelude::*;

use crate::subs_viewer::SubsControlsValues;

verus! {

/// The styles a subtitle line can be set to.
#[derive(Debug, Clone, Copy, PartialEq, Eq, Structural)]
pub enum StyleList {
    Default,
}

impl StyleList {
    /// The style's display name.
    pub fn as_str(self) -> (r: &'static str)
        ensures
            r@ == "Default"@,
    {
        "Default"
    }
}

impl Default for StyleList {
    /// The style a fresh line starts with.
    fn default() -> (r: Self)
        ensures
            r == StyleList::Default,
    {
        StyleList::Default
    }
}

/// The actors a subtitle line can be assigned to.
#[derive(Debug, Clone, Copy, PartialEq, Eq, Structural)]
pub enum ActorList {
    Undefined,
}

impl ActorList {
    /// The actor's display name.
    pub fn as_str(self) -> (r: &'static str)
        ensures
            r@ == ""@,
    {
        ""
    }
}

impl Default for ActorList {
    /// The actor a fresh line starts with.
    fn default() -> (r: Self)
        ensures
            r == ActorList::Undefined,
    {
        ActorList::Undefined
    }
}

/// One edit of the focused subtitle line, as the control strip emits it.
#[derive(Debug, Clone)]
pub enum Message {
    CommentToggled(bool),
    StyleListPicked(StyleList),
    ActorListPicked(ActorList),
    LayerPicked(usize),
    StartTimeChanged(String),
    EndTimeChanged(String),
    DurationChanged(String),
    MarginLeftPicked(usize),
    MarginVerticalPicked(usize),
    MarginRightPicked(usize),
    TextChanged(String),
    NotesChanged(String),
}

/// The values of a subtitle line after one message has edited it: the one
/// field the message names replaced, every other field untouched.
pub open spec fn applied(v: SubsControlsValues, m: Message) -> SubsControlsValues {
    match m {
        Message::CommentToggled(is_comment) => SubsControlsValues { is_comment, ..v },
        Message::StyleListPicked(style_list) => SubsControlsValues { style_list, ..v },
        Message::ActorListPicked(actor_list) => SubsControlsValues { actor_list, ..v },
        Message::LayerPicked(layer) => SubsControlsValues { layer, ..v },
        Message::StartTimeChanged(start_time) => SubsControlsValues { start_time, ..v },
        Message::EndTimeChanged(end_time) => SubsControlsValues { end_time, ..v },
        Message::DurationChanged(duration) => SubsControlsValues { duration, ..v },
        Message::MarginLeftPicked(margin_left) => SubsControlsValues { margin_left, ..v },
        Message::MarginVerticalPicked(margin_vertical) => SubsControlsValues {
            margin_vertical,
            ..v
        },
        Message::MarginRightPicked(margin_right) => SubsControlsValues { margin_right, ..v },
        Message::TextChanged(text) => SubsControlsValues { text, ..v },
        Message::NotesChanged(notes) => SubsControlsValues { notes, ..v },
    }
}

/// Applies one control message to the values of the focused subtitle line.
pub fn update(message: Message, values: &mut SubsControlsValues)
    ensures
        *final(values) == applied(*old(values), message),
{
    match message {
        Message::CommentToggled(is_comment) => values.is_comment = is_comment,
        Message::StyleListPicked(style_list) => values.style_list = style_list,
        Message::ActorListPicked(actor_list) => values.actor_list = actor_list,
        Message::LayerPicked(layer) => values.layer = layer,
        Message::StartTimeChanged(start_time) => values.start_time = start_time,
        Message::EndTimeChanged(end_time) => values.end_time = end_time,
        Message::DurationChanged(duration) => values.duration = duration,
        Message::MarginLeftPicked(margin_left) => values.margin_left = margin_left,
        Message::MarginVerticalPicked(margin_vertical) => values.margin_vertical = margin_vertical,
        Message::MarginRightPicked(margin_right) => values.margin_right = margin_right,
        Message::TextChanged(text) => values.text = text,
        Message::NotesChanged(notes) => values.notes = notes,
    }
}

} // verus!
