//! The way from a post's source to the body of its page, as a state machine.
//!
//! Reading files and running compilers is the caller's work. After each piece
//! of it the caller hands the result to `step`, which says what to do next:
//!
//! 1. The modification times decide whether the sidecar is still good. A good
//!    one is read; a stale or missing one is compiled first.
//! 2. Where that compilation fails, a sidecar left by an earlier run is used
//!    if there is one.
//! 3. Where no sidecar can be had, or the sidecar holds no document, the
//!    post is compiled to HTML. Only that compilation can end the run.

use vstd::prelude::*;
use crate::compiler::{
    compile_blog_body, html_outcome, output_view, CompileError, CompileErrorView, CompilerOutput,
    CompilerOutputView,
};
use crate::fragment::{native_html, tinymist_native_html};
use crate::sidecar::{
    after_check, is_fresh, is_newer, lemma_second_check_is_fresh, needs_regeneration, FileTimes,
};

verus! {

/// What the pipeline is waiting for.
#[derive(Clone, Copy, PartialEq, Eq, Debug)]
pub enum Stage {
    /// The modification times of sidecar, source and components file.
    Probing,
    /// The end of the compilation that writes the sidecar.
    CompilingSvg,
    /// Whether a sidecar lies on disk.
    CheckingSidecar,
    /// The text of the sidecar.
    ReadingSidecar,
    /// The end of the compilation to HTML.
    CompilingHtml,
    /// Nothing: the body has been given out, or the run has ended.
    Finished,
}

/// What the caller found out.
#[derive(Clone, Debug, PartialEq, Eq)]
pub enum Event {
    /// The modification times.
    Times { times: FileTimes },
    /// The sidecar compiler has run; `success` is false where it could not be
    /// started or did not end well.
    SvgCompiled { success: bool },
    /// Whether the sidecar lies on disk.
    SidecarChecked { on_disk: bool },
    /// The text of the sidecar, `None` where it could not be read.
    SidecarRead { text: Option<String> },
    /// The HTML compiler has run; `None` where it could not be started.
    HtmlCompiled { output: Option<CompilerOutput> },
}

/// An `Event` as texts.
pub enum EventView {
    Times { times: FileTimes },
    SvgCompiled { success: bool },
    SidecarChecked { on_disk: bool },
    SidecarRead { text: Option<Seq<char>> },
    HtmlCompiled { output: Option<CompilerOutputView> },
}

impl View for Event {
    type V = EventView;

    open spec fn view(&self) -> EventView {
        match self {
            Event::Times { times } => EventView::Times { times: *times },
            Event::SvgCompiled { success } => EventView::SvgCompiled { success: *success },
            Event::SidecarChecked { on_disk } => EventView::SidecarChecked { on_disk: *on_disk },
            Event::SidecarRead { text } => EventView::SidecarRead { text: text.deep_view() },
            Event::HtmlCompiled { output } => EventView::HtmlCompiled {
                output: output_view(*output),
            },
        }
    }
}

/// What the caller is to do next.
#[derive(Clone, Debug, PartialEq, Eq)]
pub enum Action {
    /// Read the three modification times.
    ReadTimes,
    /// Run the sidecar compiler.
    CompileSvg,
    /// Look whether the sidecar lies on disk.
    CheckSidecar,
    /// Read the sidecar.
    ReadSidecar,
    /// Run the HTML compiler.
    CompileHtml,
    /// Put this body into the page.
    Emit { body: String },
    /// End the run with this error.
    Abort { error: CompileError },
    /// Nothing: the event was not the one waited for.
    Wait,
}

/// An `Action` as texts.
pub enum ActionView {
    ReadTimes,
    CompileSvg,
    CheckSidecar,
    ReadSidecar,
    CompileHtml,
    Emit { body: Seq<char> },
    Abort { error: CompileErrorView },
    Wait,
}

impl View for Action {
    type V = ActionView;

    open spec fn view(&self) -> ActionView {
        match self {
            Action::ReadTimes => ActionView::ReadTimes,
            Action::CompileSvg => ActionView::CompileSvg,
            Action::CheckSidecar => ActionView::CheckSidecar,
            Action::ReadSidecar => ActionView::ReadSidecar,
            Action::CompileHtml => ActionView::CompileHtml,
            Action::Emit { body } => ActionView::Emit { body: body@ },
            Action::Abort { error } => ActionView::Abort { error: error@ },
            Action::Wait => ActionView::Wait,
        }
    }
}

/// The action runs a compiler.
pub open spec fn calls_compiler(action: ActionView) -> bool {
    action is CompileSvg || action is CompileHtml
}

/// The event is the one that the stage waits for.
pub open spec fn answers(stage: Stage, event: EventView) -> bool {
    match stage {
        Stage::Probing => event is Times,
        Stage::CompilingSvg => event is SvgCompiled,
        Stage::CheckingSidecar => event is SidecarChecked,
        Stage::ReadingSidecar => event is SidecarRead,
        Stage::CompilingHtml => event is HtmlCompiled,
        Stage::Finished => false,
    }
}

/// How many more answers a stage may need at most.
pub open spec fn steps_left(stage: Stage) -> nat {
    match stage {
        Stage::Probing => 5,
        Stage::CompilingSvg => 4,
        Stage::CheckingSidecar => 3,
        Stage::ReadingSidecar => 2,
        Stage::CompilingHtml => 1,
        Stage::Finished => 0,
    }
}

/// What the sidecar gives to embed, where it could be read.
pub open spec fn embed_of(text: Option<Seq<char>>, stem: Seq<char>) -> Option<Seq<char>> {
    match text {
        Some(raw) => native_html(raw, stem),
        None => None,
    }
}

/// The stage and the action that follow an event, for the post `stem` whose
/// source lies at `source_path`. An event that the stage does not wait for
/// changes nothing.
pub open spec fn next(stem: Seq<char>, source_path: Seq<char>, stage: Stage, event: EventView) -> (
    Stage,
    ActionView,
) {
    match (stage, event) {
        (Stage::Probing, EventView::Times { times }) => if is_fresh(times) {
            (Stage::ReadingSidecar, ActionView::ReadSidecar)
        } else {
            (Stage::CompilingSvg, ActionView::CompileSvg)
        },
        (Stage::CompilingSvg, EventView::SvgCompiled { success }) => if success {
            (Stage::ReadingSidecar, ActionView::ReadSidecar)
        } else {
            (Stage::CheckingSidecar, ActionView::CheckSidecar)
        },
        (Stage::CheckingSidecar, EventView::SidecarChecked { on_disk }) => if on_disk {
            (Stage::ReadingSidecar, ActionView::ReadSidecar)
        } else {
            (Stage::CompilingHtml, ActionView::CompileHtml)
        },
        (Stage::ReadingSidecar, EventView::SidecarRead { text }) => match embed_of(text, stem) {
            Some(body) => (Stage::Finished, ActionView::Emit { body }),
            None => (Stage::CompilingHtml, ActionView::CompileHtml),
        },
        (Stage::CompilingHtml, EventView::HtmlCompiled { output }) => match html_outcome(
            source_path,
            output,
        ) {
            Ok(body) => (Stage::Finished, ActionView::Emit { body }),
            Err(error) => (Stage::Finished, ActionView::Abort { error }),
        },
        _ => (stage, ActionView::Wait),
    }
}

/// A fresh sidecar is read as it is: no compiler is called for.
pub proof fn lemma_fresh_sidecar_is_reused(stem: Seq<char>, source_path: Seq<char>, times: FileTimes)
    requires
        is_fresh(times),
    ensures
        next(stem, source_path, Stage::Probing, EventView::Times { times }) == (
            Stage::ReadingSidecar,
            ActionView::ReadSidecar,
        ),
        !calls_compiler(next(stem, source_path, Stage::Probing, EventView::Times { times }).1),
{
}

/// A stale or missing sidecar is compiled.
pub proof fn lemma_stale_sidecar_is_compiled(
    stem: Seq<char>,
    source_path: Seq<char>,
    times: FileTimes,
)
    requires
        !is_fresh(times),
    ensures
        next(stem, source_path, Stage::Probing, EventView::Times { times }) == (
            Stage::CompilingSvg,
            ActionView::CompileSvg,
        ),
{
}

/// A second look at the sidecar calls for no compiler: after a first check,
/// which compiled the sidecar if it had to, at a time no earlier than the
/// source and the components file were last changed, and with no file
/// changed since, the sidecar is read as it is. And so at every later look.
pub proof fn lemma_second_check_calls_no_compiler(
    stem: Seq<char>,
    source_path: Seq<char>,
    times: FileTimes,
    written: i128,
)
    requires
        !is_newer(times.source, written),
        !is_newer(times.components, written),
    ensures
        !calls_compiler(
            next(
                stem,
                source_path,
                Stage::Probing,
                EventView::Times { times: after_check(times, written) },
            ).1,
        ),
{
    lemma_second_check_is_fresh(times, written);
}

/// Only the compilation to HTML can end the run: an error comes out of no
/// other stage, and there only where the compiler could not be started or did
/// not end well.
pub proof fn lemma_only_html_aborts(
    stem: Seq<char>,
    source_path: Seq<char>,
    stage: Stage,
    event: EventView,
)
    requires
        next(stem, source_path, stage, event).1 is Abort,
    ensures
        stage == Stage::CompilingHtml,
        event matches EventView::HtmlCompiled { output } && match output {
            None => true,
            Some(o) => !o.success,
        },
{
}

/// Every answer brings the end nearer, so a post is done after five answers
/// at most; and once finished, the machine stays finished.
pub proof fn lemma_step_makes_progress(
    stem: Seq<char>,
    source_path: Seq<char>,
    stage: Stage,
    event: EventView,
)
    ensures
        answers(stage, event) ==> steps_left(next(stem, source_path, stage, event).0) < steps_left(
            stage,
        ),
        !answers(stage, event) ==> next(stem, source_path, stage, event) == (
            stage,
            ActionView::Wait,
        ),
        next(stem, source_path, stage, event).0 == Stage::Finished && stage != Stage::Finished
            ==> next(stem, source_path, stage, event).1 is Emit || next(
            stem,
            source_path,
            stage,
            event,
        ).1 is Abort,
{
}

/// Where a post starts: waiting for the modification times.
pub fn begin() -> (r: (Stage, Action))
    ensures
        r.0 == Stage::Probing,
        r.1@ == ActionView::ReadTimes,
{
    (Stage::Probing, Action::ReadTimes)
}

/// The stage and the action that follow an event, for the post `stem` whose
/// source lies at `source_path`.
pub fn step(stem: &str, source_path: &str, stage: Stage, event: Event) -> (r: (Stage, Action))
    ensures
        r.0 == next(stem@, source_path@, stage, event@).0,
        r.1@ == next(stem@, source_path@, stage, event@).1,
{
    match (stage, event) {
        (Stage::Probing, Event::Times { times }) => {
            if needs_regeneration(&times) {
                (Stage::CompilingSvg, Action::CompileSvg)
            } else {
                (Stage::ReadingSidecar, Action::ReadSidecar)
            }
        },
        (Stage::CompilingSvg, Event::SvgCompiled { success }) => {
            if success {
                (Stage::ReadingSidecar, Action::ReadSidecar)
            } else {
                (Stage::CheckingSidecar, Action::CheckSidecar)
            }
        },
        (Stage::CheckingSidecar, Event::SidecarChecked { on_disk }) => {
            if on_disk {
                (Stage::ReadingSidecar, Action::ReadSidecar)
            } else {
                (Stage::CompilingHtml, Action::CompileHtml)
            }
        },
        (Stage::ReadingSidecar, Event::SidecarRead { text }) => {
            let embed = match text {
                Some(raw) => tinymist_native_html(raw.as_str(), stem),
                None => None,
            };
            match embed {
                Some(body) => (Stage::Finished, Action::Emit { body }),
                None => (Stage::CompilingHtml, Action::CompileHtml),
            }
        },
        (Stage::CompilingHtml, Event::HtmlCompiled { output }) => {
            match compile_blog_body(source_path, output) {
                Ok(body) => (Stage::Finished, Action::Emit { body }),
                Err(error) => (Stage::Finished, Action::Abort { error }),
            }
        },
        (stage, _) => (stage, Action::Wait),
    }
}

} // verus!
