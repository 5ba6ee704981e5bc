//! Tests of the viewer data model: cell separators, the control values of a
//! subtitle line, the control and viewer messages, and the setup step
//! machine.

use subtitle_compositor::steps::{Step, StepMessage, Steps};
use subtitle_compositor::subs_viewer::subs_controls::{self, ActorList, StyleList};
use subtitle_compositor::subs_viewer::cell::Directions;
use subtitle_compositor::subs_viewer::{Message, SubsControlsValues, SubsViewer};

#[test]
fn directions_start_with_no_separators() {
    let d = Directions::new();
    assert!(!d.is_right());
    assert!(!d.is_bottom());
}

#[test]
fn directions_build_up_separately() {
    let r = Directions::new().right();
    assert!(r.is_right());
    assert!(!r.is_bottom());

    let b = Directions::new().bottom();
    assert!(!b.is_right());
    assert!(b.is_bottom());

    let both = Directions::new().right().bottom();
    assert!(both.is_right());
    assert!(both.is_bottom());
}

#[test]
fn fresh_line_has_zero_times_and_empty_text() {
    let v = SubsControlsValues::new();
    assert_eq!(v.style_list, StyleList::Default);
    assert_eq!(v.actor_list, ActorList::Undefined);
    assert_eq!(v.layer, 0);
    assert_eq!(v.margin_left, 0);
    assert_eq!(v.margin_vertical, 0);
    assert_eq!(v.margin_right, 0);
    assert_eq!(v.start_time, "00:00:00:00");
    assert_eq!(v.end_time, "00:00:00:00");
    assert_eq!(v.duration, "00:00:00:00");
    assert!(!v.is_comment);
    assert_eq!(v.text, "");
    assert_eq!(v.notes, "");
}

#[test]
fn list_defaults_and_names() {
    assert_eq!(StyleList::default(), StyleList::Default);
    assert_eq!(StyleList::Default.as_str(), "Default");
    assert_eq!(ActorList::default(), ActorList::Undefined);
    assert_eq!(ActorList::Undefined.as_str(), "");
}

#[test]
fn control_message_edits_only_its_field() {
    let mut v = SubsControlsValues::new();
    subs_controls::update(subs_controls::Message::TextChanged("hello".to_owned()), &mut v);
    assert_eq!(v.text, "hello");
    assert_eq!(v.notes, "");
    assert_eq!(v.start_time, "00:00:00:00");

    subs_controls::update(subs_controls::Message::CommentToggled(true), &mut v);
    assert!(v.is_comment);
    assert_eq!(v.text, "hello");

    subs_controls::update(subs_controls::Message::LayerPicked(7), &mut v);
    assert_eq!(v.layer, 7);

    subs_controls::update(subs_controls::Message::MarginLeftPicked(3), &mut v);
    subs_controls::update(subs_controls::Message::MarginVerticalPicked(4), &mut v);
    subs_controls::update(subs_controls::Message::MarginRightPicked(5), &mut v);
    assert_eq!(v.margin_left, 3);
    assert_eq!(v.margin_vertical, 4);
    assert_eq!(v.margin_right, 5);

    subs_controls::update(
        subs_controls::Message::StartTimeChanged("00:00:01:00".to_owned()),
        &mut v,
    );
    subs_controls::update(
        subs_controls::Message::EndTimeChanged("00:00:02:00".to_owned()),
        &mut v,
    );
    subs_controls::update(
        subs_controls::Message::DurationChanged("00:00:01:00".to_owned()),
        &mut v,
    );
    assert_eq!(v.start_time, "00:00:01:00");
    assert_eq!(v.end_time, "00:00:02:00");
    assert_eq!(v.duration, "00:00:01:00");

    subs_controls::update(subs_controls::Message::NotesChanged("n".to_owned()), &mut v);
    assert_eq!(v.notes, "n");
    assert_eq!(v.text, "hello");

    subs_controls::update(
        subs_controls::Message::StyleListPicked(StyleList::Default),
        &mut v,
    );
    subs_controls::update(
        subs_controls::Message::ActorListPicked(ActorList::Undefined),
        &mut v,
    );
    assert_eq!(v.style_list, StyleList::Default);
    assert_eq!(v.actor_list, ActorList::Undefined);
}

#[test]
fn viewer_starts_on_first_row_with_three_lines() {
    let viewer = SubsViewer::new();
    assert_eq!(viewer.values().len(), 3);
    assert_eq!(viewer.focused_start(), 0);
    assert_eq!(viewer.focused_end(), 0);
}

#[test]
fn click_moves_focus_and_edit_hits_focused_row() {
    let mut viewer = SubsViewer::new();
    viewer.update(Message::TableViewerClicked(2));
    assert_eq!(viewer.focused_start(), 2);
    assert_eq!(viewer.focused_end(), 2);

    viewer.update(Message::SubsControls(subs_controls::Message::TextChanged(
        "line three".to_owned(),
    )));
    assert_eq!(viewer.values()[2].text, "line three");
    assert_eq!(viewer.values()[0].text, "");
    assert_eq!(viewer.values()[1].text, "");
}

#[test]
fn steps_start_on_empty_paths_input() {
    let steps = Steps::new();
    assert_eq!(steps.current(), 0);
    assert!(!steps.has_previous());
    assert_eq!(steps.title(), "Input Paths");
    match steps.current_step() {
        Step::PathsInput {
            ass_path,
            is_ass_path_ok,
            audio_path,
            is_audio_path_ok,
        } => {
            assert_eq!(ass_path, "");
            assert!(!is_ass_path_ok);
            assert_eq!(audio_path, "");
            assert!(!is_audio_path_ok);
        }
        Step::Viewer => panic!("the flow must start on the paths-input page"),
    }
}

#[test]
fn path_edits_land_in_the_current_page() {
    let mut steps = Steps::new();
    steps.update(StepMessage::AssPathChanged("subs.ass".to_owned()));
    steps.update(StepMessage::AudioPathChanged("audio.wav".to_owned()));
    match steps.current_step() {
        Step::PathsInput {
            ass_path,
            audio_path,
            ..
        } => {
            assert_eq!(ass_path, "subs.ass");
            assert_eq!(audio_path, "audio.wav");
        }
        Step::Viewer => panic!("editing paths must not change the page"),
    }
}

#[test]
fn advance_needs_both_paths_accepted() {
    let mut steps = Steps::new();
    steps.advance(true, false);
    assert_eq!(steps.current(), 0);
    steps.advance(false, true);
    assert_eq!(steps.current(), 0);
    steps.advance(true, true);
    assert_eq!(steps.current(), 1);
    assert_eq!(steps.title(), "Viewer");
    assert!(steps.has_previous());
}

#[test]
fn advance_records_the_verdicts_even_when_it_stays() {
    let mut steps = Steps::new();
    steps.advance(true, false);
    match steps.current_step() {
        Step::PathsInput {
            is_ass_path_ok,
            is_audio_path_ok,
            ..
        } => {
            assert!(is_ass_path_ok);
            assert!(!is_audio_path_ok);
        }
        Step::Viewer => panic!("a rejected path must keep the paths-input page"),
    }
}

#[test]
fn viewer_page_is_the_last() {
    let mut steps = Steps::new();
    steps.advance(true, true);
    assert_eq!(steps.current(), 1);
    assert!(!steps.can_continue(true, true));
    steps.advance(true, true);
    assert_eq!(steps.current(), 1);
}

#[test]
fn go_back_returns_to_paths_input() {
    let mut steps = Steps::new();
    steps.advance(true, true);
    steps.go_back();
    assert_eq!(steps.current(), 0);
    assert_eq!(steps.title(), "Input Paths");
    steps.go_back();
    assert_eq!(steps.current(), 0);
}
