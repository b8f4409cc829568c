//! The vocabulary between an interactive stage and the terminal that runs
//! it: the stage decides, the terminal performs what it is told (print,
//! run, ask) and reports what came of it.

use vstd::prelude::*;
use crate::context::{ContextView, InstallContext};
use crate::error::{ErrorView, InstallError};
use crate::text::str_views;
use crate::ui::Level;
use crate::util::command::Cmd;

verus! {

/// A message line to print.
#[derive(Debug)]
pub struct Note {
    pub level: Level,
    pub text: String,
}

impl View for Note {
    type V = (Level, Seq<char>);

    open spec fn view(&self) -> (Level, Seq<char>) {
        (self.level, self.text@)
    }
}

pub fn note(level: Level, text: String) -> (r: Note)
    ensures
        r@ == (level, text@),
{
    Note { level, text }
}

pub open spec fn note_views(v: Seq<Note>) -> Seq<(Level, Seq<char>)> {
    v.map_values(|n: Note| n@)
}

pub open spec fn opt_note_view(n: Option<Note>) -> Option<(Level, Seq<char>)> {
    match n {
        Some(x) => Some(x@),
        None => None,
    }
}

pub open spec fn opt_string_view(s: Option<String>) -> Option<Seq<char>> {
    match s {
        Some(x) => Some(x@),
        None => None,
    }
}

pub type CmdView = (Seq<char>, Seq<Seq<char>>);

pub type CmdStepView = (Option<(Level, Seq<char>)>, CmdView, Option<Seq<char>>);

/// A command to run, with the line printed before it and the context
/// added to its failure.
#[derive(Debug)]
pub struct CmdStep {
    pub note: Option<Note>,
    pub cmd: Cmd,
    pub failure_context: Option<String>,
}

impl View for CmdStep {
    type V = CmdStepView;

    open spec fn view(&self) -> CmdStepView {
        (opt_note_view(self.note), self.cmd@, opt_string_view(self.failure_context))
    }
}

pub open spec fn cmd_step_views(v: Seq<CmdStep>) -> Seq<CmdStepView> {
    v.map_values(|c: CmdStep| c@)
}

/// A question for the user.
#[derive(Debug)]
pub enum Ask {
    /// Yes or no, with a default; answered by `Event::Answer`.
    Confirm { prompt: String, default: bool },
    /// A red warning, then yes or no defaulting to no; answered by `Event::Answer`.
    Destructive { warning: String, prompt: String },
    /// The path of an existing block device, asked until one is given;
    /// answered by `Event::Text`.
    BlockDevice { prompt: String },
    /// One of the options; answered by `Event::Text`.
    Select { prompt: String, options: Vec<&'static str> },
}

pub enum AskView {
    Confirm(Seq<char>, bool),
    Destructive(Seq<char>, Seq<char>),
    BlockDevice(Seq<char>),
    Select(Seq<char>, Seq<Seq<char>>),
}

impl View for Ask {
    type V = AskView;

    open spec fn view(&self) -> AskView {
        match self {
            Ask::Confirm { prompt, default } => AskView::Confirm(prompt@, *default),
            Ask::Destructive { warning, prompt } => AskView::Destructive(warning@, prompt@),
            Ask::BlockDevice { prompt } => AskView::BlockDevice(prompt@),
            Ask::Select { prompt, options } => AskView::Select(prompt@, str_views(options@)),
        }
    }
}

/// What the terminal must do next.
#[derive(Debug)]
pub enum Action {
    /// Run the commands in order, stopping at the first failure; answered
    /// by `Event::Done` or `Event::Failed`.
    Run(Vec<CmdStep>),
    Ask(Ask),
    /// Create `dir`, run `setup`, then the steps; `cleanup` runs after the
    /// steps whether they succeed or not (not when `setup` fails). Answered
    /// by `Event::Done` or `Event::Failed`.
    Guarded { dir: String, setup: CmdStep, steps: Vec<CmdStep>, cleanup: Cmd },
    /// The stage is over with this context.
    Finish(InstallContext),
    /// The stage is over with this error.
    Fail(InstallError),
}

pub enum ActionView {
    Run(Seq<CmdStepView>),
    Ask(AskView),
    Guarded(Seq<char>, CmdStepView, Seq<CmdStepView>, CmdView),
    Finish(ContextView),
    Fail(ErrorView),
}

impl View for Action {
    type V = ActionView;

    open spec fn view(&self) -> ActionView {
        match self {
            Action::Run(v) => ActionView::Run(cmd_step_views(v@)),
            Action::Ask(a) => ActionView::Ask(a@),
            Action::Guarded { dir, setup, steps, cleanup } => ActionView::Guarded(
                dir@,
                setup@,
                cmd_step_views(steps@),
                cleanup@,
            ),
            Action::Finish(c) => ActionView::Finish(c@),
            Action::Fail(e) => ActionView::Fail(e.view()),
        }
    }
}

/// Lines to print, then an action.
#[derive(Debug)]
pub struct Step {
    pub notes: Vec<Note>,
    pub action: Action,
}

impl View for Step {
    type V = (Seq<(Level, Seq<char>)>, ActionView);

    open spec fn view(&self) -> (Seq<(Level, Seq<char>)>, ActionView) {
        (note_views(self.notes@), self.action@)
    }
}

/// What came of the last action.
#[derive(Debug)]
pub enum Event {
    /// The stage begins.
    Start,
    /// The commands ran.
    Done,
    /// A command failed, with its message.
    Failed(String),
    /// The user's yes or no.
    Answer(bool),
    /// The user's text or selection.
    Text(String),
}

pub enum EventView {
    Start,
    Done,
    Failed(Seq<char>),
    Answer(bool),
    Text(Seq<char>),
}

impl View for Event {
    type V = EventView;

    open spec fn view(&self) -> EventView {
        match self {
            Event::Start => EventView::Start,
            Event::Done => EventView::Done,
            Event::Failed(m) => EventView::Failed(m@),
            Event::Answer(b) => EventView::Answer(*b),
            Event::Text(t) => EventView::Text(t@),
        }
    }
}

// ── Builders ────────────────────────────────────────────────────

pub fn step_of(notes: Vec<Note>, action: Action) -> (r: Step)
    ensures
        r@ == (note_views(notes@), action@),
{
    Step { notes, action }
}

pub fn quiet(action: Action) -> (r: Step)
    ensures
        r@ == (Seq::<(Level, Seq<char>)>::empty(), action@),
{
    let notes: Vec<Note> = Vec::new();
    assert(note_views(notes@) =~= Seq::<(Level, Seq<char>)>::empty());
    Step { notes, action }
}

pub fn one_note(n: Note) -> (r: Vec<Note>)
    ensures
        note_views(r@) == seq![n@],
{
    let mut v: Vec<Note> = Vec::new();
    v.push(n);
    assert(note_views(v@) =~= seq![n@]);
    v
}

pub fn cmd_step(note: Option<Note>, cmd: Cmd) -> (r: CmdStep)
    ensures
        r@ == (opt_note_view(note), cmd@, None::<Seq<char>>),
{
    CmdStep { note, cmd, failure_context: None }
}

pub fn status(text: String) -> (r: Option<Note>)
    ensures
        r == Some(Note { level: Level::Status, text }),
        opt_note_view(r) == Some((Level::Status, text@)),
{
    Some(Note { level: Level::Status, text })
}

pub fn ask_confirm(prompt: &str, default: bool) -> (r: Action)
    ensures
        r@ == ActionView::Ask(AskView::Confirm(prompt@, default)),
{
    Action::Ask(Ask::Confirm { prompt: String::from_str(prompt), default })
}

pub fn ask_destructive(warning: String, prompt: String) -> (r: Action)
    ensures
        r@ == ActionView::Ask(AskView::Destructive(warning@, prompt@)),
{
    Action::Ask(Ask::Destructive { warning, prompt })
}

pub fn ask_device(prompt: &str) -> (r: Action)
    ensures
        r@ == ActionView::Ask(AskView::BlockDevice(prompt@)),
{
    Action::Ask(Ask::BlockDevice { prompt: String::from_str(prompt) })
}

pub fn ask_select(prompt: &str, options: Vec<&'static str>) -> (r: Action)
    ensures
        r@ == ActionView::Ask(AskView::Select(prompt@, str_views(options@))),
{
    Action::Ask(Ask::Select { prompt: String::from_str(prompt), options })
}

pub fn fail(e: InstallError) -> (r: Step)
    ensures
        r@ == (Seq::<(Level, Seq<char>)>::empty(), ActionView::Fail(e.view())),
{
    quiet(Action::Fail(e))
}

} // verus!
