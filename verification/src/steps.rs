//! The step machine of the application's setup screens: a paths-input page
//! that collects a subtitle path and an audio path, followed by the viewer
//! page. The machine decides which page stands, how path edits change it,
//! and when the user may move on; drawing the pages and checking the file
//! system are the GUI's work and stay outside the library. Whether each
//! typed path names a real file of the right kind therefore enters as a
//! pair of verdicts.

use vstd::prelude::*;

verus! {

/// One top-level event of the application.
#[derive(Debug, Clone)]
pub enum Message {
    BackPressed,
    NextPressed,
    StepMessage(StepMessage),
}

/// One edit of the paths-input page.
#[derive(Debug, Clone)]
pub enum StepMessage {
    AssPathChanged(String),
    AudioPathChanged(String),
}

/// The visual role of a navigation button: the advancing one, or the
/// secondary one leading back.
#[derive(Debug, Clone, Copy, PartialEq, Eq, Structural)]
pub enum Button {
    Primary,
    Secondary,
}

/// One page of the setup flow.
#[derive(Debug)]
pub enum Step {
    /// The page that collects the two input paths, with the last verdict
    /// on each.
    PathsInput {
        ass_path: String,
        is_ass_path_ok: bool,
        audio_path: String,
        is_audio_path_ok: bool,
    },
    /// The viewer page.
    Viewer,
}

/// A page after one path edit: the named path replaced on the paths-input
/// page, and the viewer page untouched.
pub open spec fn step_applied(s: Step, m: StepMessage) -> Step {
    match s {
        Step::PathsInput { ass_path, is_ass_path_ok, audio_path, is_audio_path_ok } => match m {
            StepMessage::AssPathChanged(p) => Step::PathsInput {
                ass_path: p,
                is_ass_path_ok,
                audio_path,
                is_audio_path_ok,
            },
            StepMessage::AudioPathChanged(p) => Step::PathsInput {
                ass_path,
                is_ass_path_ok,
                audio_path: p,
                is_audio_path_ok,
            },
        },
        Step::Viewer => Step::Viewer,
    }
}

/// A page after the path verdicts are recorded: the flags replaced on the
/// paths-input page, and the viewer page untouched.
pub open spec fn step_checked(s: Step, ass_ok: bool, audio_ok: bool) -> Step {
    match s {
        Step::PathsInput { ass_path, is_ass_path_ok, audio_path, is_audio_path_ok } => Step::PathsInput {
            ass_path,
            is_ass_path_ok: ass_ok,
            audio_path,
            is_audio_path_ok: audio_ok,
        },
        Step::Viewer => Step::Viewer,
    }
}

/// Whether a page lets the user move on, given the path verdicts: only the
/// paths-input page does, and only when both paths passed.
pub open spec fn step_can_continue(s: Step, ass_ok: bool, audio_ok: bool) -> bool {
    s is PathsInput && ass_ok && audio_ok
}

/// A paths-input page as the flow starts: both paths empty, neither
/// accepted yet.
pub open spec fn is_initial_paths_input(s: Step) -> bool {
    match s {
        Step::PathsInput { ass_path, is_ass_path_ok, audio_path, is_audio_path_ok } => {
            &&& ass_path@ == ""@
            &&& !is_ass_path_ok
            &&& audio_path@ == ""@
            &&& !is_audio_path_ok
        },
        Step::Viewer => false,
    }
}

impl Step {
    /// Applies one path edit to this page.
    pub fn update(&mut self, msg: StepMessage)
        ensures
            *final(self) == step_applied(*old(self), msg),
    {
        match msg {
            StepMessage::AssPathChanged(new_ass_path) => {
                if let Step::PathsInput { ass_path, .. } = self {
                    *ass_path = new_ass_path;
                }
            },
            StepMessage::AudioPathChanged(new_audio_path) => {
                if let Step::PathsInput { audio_path, .. } = self {
                    *audio_path = new_audio_path;
                }
            },
        }
    }

    /// The page's title.
    pub fn title(&self) -> (r: &'static str)
        ensures
            self is PathsInput ==> r@ == "Input Paths"@,
            self is Viewer ==> r@ == "Viewer"@,
    {
        match self {
            Step::PathsInput { .. } => "Input Paths",
            Step::Viewer => "Viewer",
        }
    }

    /// Records the verdicts on the two typed paths and says whether the
    /// user may move on from this page.
    pub fn can_continue(&mut self, ass_ok: bool, audio_ok: bool) -> (r: bool)
        ensures
            *final(self) == step_checked(*old(self), ass_ok, audio_ok),
            r == step_can_continue(*old(self), ass_ok, audio_ok),
    {
        match self {
            Step::PathsInput { is_ass_path_ok, is_audio_path_ok, .. } => {
                *is_ass_path_ok = ass_ok;
                *is_audio_path_ok = audio_ok;
                ass_ok && audio_ok
            },
            Step::Viewer => false,
        }
    }
}

/// The whole setup flow: its pages in order and the one the user stands on.
pub struct Steps {
    steps: Vec<Step>,
    current: usize,
}

impl Steps {
    /// The pages of the flow, in order.
    pub closed spec fn spec_steps(self) -> Seq<Step> {
        self.steps@
    }

    /// The index of the page the user stands on.
    pub closed spec fn spec_current(self) -> usize {
        self.current
    }

    /// The user always stands on one of the pages.
    pub open spec fn wf(self) -> bool {
        (self.spec_current() as int) < self.spec_steps().len()
    }

    /// A fresh flow: the paths-input page with everything empty, then the
    /// viewer page, starting on the first.
    pub fn new() -> (r: Self)
        ensures
            r.wf(),
            r.spec_steps().len() == 2,
            is_initial_paths_input(r.spec_steps()[0]),
            r.spec_steps()[1] is Viewer,
            r.spec_current() == 0,
    {
        let mut steps: Vec<Step> = Vec::new();
        steps.push(
            Step::PathsInput {
                ass_path: "".to_owned(),
                is_ass_path_ok: false,
                audio_path: "".to_owned(),
                is_audio_path_ok: false,
            },
        );
        steps.push(Step::Viewer);
        Steps { steps, current: 0 }
    }

    /// Applies one path edit to the page the user stands on.
    pub fn update(&mut self, msg: StepMessage)
        requires
            old(self).wf(),
        ensures
            final(self).wf(),
            final(self).spec_current() == old(self).spec_current(),
            final(self).spec_steps() == old(self).spec_steps().update(
                old(self).spec_current() as int,
                step_applied(old(self).spec_steps()[old(self).spec_current() as int], msg),
            ),
    {
        let current = self.current;
        self.steps[current].update(msg);
    }

    /// Records the path verdicts on the current page and says whether the
    /// user may move on: never from the last page, and otherwise only as
    /// the page itself allows.
    pub fn can_continue(&mut self, ass_ok: bool, audio_ok: bool) -> (r: bool)
        requires
            old(self).wf(),
        ensures
            final(self).wf(),
            final(self).spec_current() == old(self).spec_current(),
            old(self).spec_current() + 1 < old(self).spec_steps().len() ==> final(self).spec_steps() == old(self).spec_steps().update(
                old(self).spec_current() as int,
                step_checked(
                    old(self).spec_steps()[old(self).spec_current() as int],
                    ass_ok,
                    audio_ok,
                ),
            ) && r == step_can_continue(
                old(self).spec_steps()[old(self).spec_current() as int],
                ass_ok,
                audio_ok,
            ),
            old(self).spec_current() + 1 >= old(self).spec_steps().len() ==> *final(self) == *old(self) && r == false,
    {
        let len = self.steps.len();
        if self.current + 1 < len {
            let current = self.current;
            self.steps[current].can_continue(ass_ok, audio_ok)
        } else {
            false
        }
    }

    /// Moves on to the next page when the current one allows it, recording
    /// the path verdicts either way.
    pub fn advance(&mut self, ass_ok: bool, audio_ok: bool)
        requires
            old(self).wf(),
        ensures
            final(self).wf(),
            old(self).spec_current() + 1 < old(self).spec_steps().len() ==> final(self).spec_steps() == old(self).spec_steps().update(
                old(self).spec_current() as int,
                step_checked(
                    old(self).spec_steps()[old(self).spec_current() as int],
                    ass_ok,
                    audio_ok,
                ),
            ) && final(self).spec_current() == (if step_can_continue(
                old(self).spec_steps()[old(self).spec_current() as int],
                ass_ok,
                audio_ok,
            ) {
                old(self).spec_current() + 1
            } else {
                old(self).spec_current() as int
            }),
            old(self).spec_current() + 1 >= old(self).spec_steps().len() ==> *final(self) == *old(self),
    {
        let can = self.can_continue(ass_ok, audio_ok);
        if can {
            // The page count as a machine word: the increment cannot
            // overflow a usize.
            let len = self.steps.len();
            self.current = self.current + 1;
        }
    }

    /// Steps back to the previous page where there is one.
    pub fn go_back(&mut self)
        requires
            old(self).wf(),
        ensures
            final(self).wf(),
            final(self).spec_steps() == old(self).spec_steps(),
            old(self).spec_current() > 0 ==> final(self).spec_current() == old(self).spec_current()
                - 1,
            old(self).spec_current() == 0 ==> final(self).spec_current() == 0,
    {
        if self.has_previous() {
            self.current = self.current - 1;
        }
    }

    /// The index of the page the user stands on.
    pub fn current(&self) -> (r: usize)
        ensures
            r == self.spec_current(),
    {
        self.current
    }

    /// The page the user stands on, for display.
    pub fn current_step(&self) -> (r: &Step)
        requires
            self.wf(),
        ensures
            *r == self.spec_steps()[self.spec_current() as int],
    {
        &self.steps[self.current]
    }

    /// Whether a previous page exists to step back to.
    pub fn has_previous(&self) -> (r: bool)
        ensures
            r == (self.spec_current() > 0),
    {
        self.current > 0
    }

    /// The title of the page the user stands on.
    pub fn title(&self) -> (r: &'static str)
        requires
            self.wf(),
        ensures
            self.spec_steps()[self.spec_current() as int] is PathsInput ==> r@ == "Input Paths"@,
            self.spec_steps()[self.spec_current() as int] is Viewer ==> r@ == "Viewer"@,
    {
        self.steps[self.current].title()
    }
}

} // verus!
