//! The order of a run and what becomes of each outcome.
//!
//! The engine works outside this library. A run is therefore a [`Pipeline`]
//! that names the next [`Action`] for the engine, and [`Pipeline::advance`]
//! takes the [`Event`] that tells how the action went. The caller performs
//! each action and hands back its event until the run is finished.

use crate::document::representable;
use crate::error::{ErrorKind, ErrorView, ProcessError};
use crate::literal::{escaped, read_literal};
use crate::marshal::{decode, decoding_of, encode, encoding_of, json_decoding, json_encoding};
use crate::synth::{
    driver_module, driver_module_text, lemma_user_module_literal, literal_start, user_module,
    user_module_text, DRIVER_MODULE, RESULT_SLOT, USER_MODULE,
};
use serde_yaml::Mapping;
use vstd::prelude::*;

verus! {

/// How far a run has come.
#[derive(Clone, Copy, Debug, PartialEq, Eq, Structural)]
pub enum Stage {
    /// Nothing has been done yet.
    Init,
    /// The session exists; the user module is not declared yet.
    UserDeclaredPending,
    /// The user module is declared.
    UserDeclared,
    /// The driver module is being evaluated.
    DriverEvaluating,
    /// The driver module has run to its end.
    Awaited,
    /// The result slot has been read.
    GlobalRead,
    /// The text from the slot has been decoded.
    Decoded,
    /// The run has returned its document.
    Done,
    /// The run has failed; nothing follows.
    Failed(ErrorKind),
}

/// A failure as the engine reports it.
#[derive(Debug)]
pub struct EngineFault {
    /// The class of the exception, such as `SyntaxError`; empty where the
    /// failure is no exception of the script language.
    pub class: String,
    /// The engine's own account of the failure.
    pub diagnostic: String,
}

/// How an action went.
#[derive(Debug)]
pub enum Event {
    /// The action succeeded and produced nothing.
    Succeeded,
    /// The action succeeded and produced a text. Only the text of the
    /// result slot is looked at; with any other action this is plain success.
    Produced(String),
    /// The action failed.
    Failed(EngineFault),
}

/// What the engine is to do next.
#[derive(Debug)]
pub enum Action {
    /// Make a runtime and a context whose module resolver knows the
    /// identifiers in `resolvable` and refuses every other.
    CreateSession { resolvable: Vec<String> },
    /// Register `body` under `identifier` without running it.
    DeclareModule { identifier: String, body: String },
    /// Register `body` under `identifier` and start running it.
    EvaluateModule { identifier: String, body: String },
    /// Drive the engine until the evaluated module has run to its end.
    AwaitCompletion,
    /// Read the text in the global slot `name`.
    ReadGlobal { name: String },
}

/// The mathematical value of an [`EngineFault`].
pub struct FaultView {
    pub class: Seq<char>,
    pub diagnostic: Seq<char>,
}

/// The mathematical value of an [`Event`].
pub enum EventView {
    Succeeded,
    Produced(Seq<char>),
    Failed(FaultView),
}

/// The mathematical value of an [`Action`].
pub enum ActionView {
    CreateSession { resolvable: Seq<Seq<char>> },
    DeclareModule { identifier: Seq<char>, body: Seq<char> },
    EvaluateModule { identifier: Seq<char>, body: Seq<char> },
    AwaitCompletion,
    ReadGlobal { name: Seq<char> },
}

impl View for EngineFault {
    type V = FaultView;

    open spec fn view(&self) -> FaultView {
        FaultView { class: self.class@, diagnostic: self.diagnostic@ }
    }
}

impl View for Event {
    type V = EventView;

    open spec fn view(&self) -> EventView {
        match self {
            Event::Succeeded => EventView::Succeeded,
            Event::Produced(text) => EventView::Produced(text@),
            Event::Failed(fault) => EventView::Failed(fault@),
        }
    }
}

impl View for Action {
    type V = ActionView;

    open spec fn view(&self) -> ActionView {
        match self {
            Action::CreateSession { resolvable } => ActionView::CreateSession {
                resolvable: resolvable@.map_values(|s: String| s@),
            },
            Action::DeclareModule { identifier, body } => ActionView::DeclareModule {
                identifier: identifier@,
                body: body@,
            },
            Action::EvaluateModule { identifier, body } => ActionView::EvaluateModule {
                identifier: identifier@,
                body: body@,
            },
            Action::AwaitCompletion => ActionView::AwaitCompletion,
            Action::ReadGlobal { name } => ActionView::ReadGlobal { name: name@ },
        }
    }
}

/// The mathematical value of a [`Pipeline`].
pub struct PipelineView {
    pub stage: Stage,
    pub script: Seq<char>,
    pub input: Mapping,
}

/// The mathematical value of a [`Step`].
pub enum StepView {
    Continue(PipelineView, ActionView),
    Finished(Result<Mapping, ErrorView>),
}

/// The place of a stage in the order of a run.
pub open spec fn rank(stage: Stage) -> nat {
    match stage {
        Stage::Init => 0,
        Stage::UserDeclaredPending => 1,
        Stage::UserDeclared => 2,
        Stage::DriverEvaluating => 3,
        Stage::Awaited => 4,
        Stage::GlobalRead => 5,
        Stage::Decoded => 6,
        Stage::Done => 7,
        Stage::Failed(_) => 8,
    }
}

/// Whether nothing follows a stage.
pub open spec fn is_terminal(stage: Stage) -> bool {
    stage is Done || stage is Failed
}

/// Whether a run at this stage waits for the engine. At every other stage
/// the work is the library's own, or the run is over.
pub open spec fn awaits_engine(stage: Stage) -> bool {
    rank(stage) <= 4
}

/// The stage that follows when the work of a stage succeeds.
pub open spec fn successor(stage: Stage) -> Stage {
    match stage {
        Stage::Init => Stage::UserDeclaredPending,
        Stage::UserDeclaredPending => Stage::UserDeclared,
        Stage::UserDeclared => Stage::DriverEvaluating,
        Stage::DriverEvaluating => Stage::Awaited,
        Stage::Awaited => Stage::GlobalRead,
        Stage::GlobalRead => Stage::Decoded,
        Stage::Decoded => Stage::Done,
        Stage::Done => Stage::Done,
        Stage::Failed(kind) => Stage::Failed(kind),
    }
}

/// The class that the engine gives to an exception for invalid syntax.
pub open spec fn syntax_error_class() -> Seq<char> {
    "SyntaxError"@
}

/// The kind of error that a run reports when the engine fails at the stage
/// at which the run waits for it.
///
/// While the driver module is set up, a syntax error is a compile error and
/// any other failure is an import that was not resolved. At the last stage
/// at which a run waits, the engine is reading the result slot.
pub open spec fn failure_kind(stage: Stage, class: Seq<char>) -> ErrorKind
    recommends
        awaits_engine(stage),
{
    match stage {
        Stage::Init => ErrorKind::SessionInit,
        Stage::UserDeclaredPending => ErrorKind::Compile,
        Stage::UserDeclared => if class == syntax_error_class() {
            ErrorKind::Compile
        } else {
            ErrorKind::Link
        },
        Stage::DriverEvaluating => ErrorKind::ScriptRuntime,
        _ => ErrorKind::GlobalRead,
    }
}

/// Whether the work of a stage can fail with an error of the given kind.
///
/// Once the session exists the input is encoded for the user module, so the
/// stage that waits for the declaration also fails where the input has no
/// interchange text.
pub open spec fn may_fail_with(stage: Stage, kind: ErrorKind) -> bool {
    match stage {
        Stage::Init => kind == ErrorKind::SessionInit,
        Stage::UserDeclaredPending => kind == ErrorKind::Compile || kind == ErrorKind::Encode,
        Stage::UserDeclared => kind == ErrorKind::Compile || kind == ErrorKind::Link,
        Stage::DriverEvaluating => kind == ErrorKind::ScriptRuntime,
        Stage::Awaited => kind == ErrorKind::GlobalRead,
        Stage::GlobalRead => kind == ErrorKind::Decode,
        Stage::Decoded | Stage::Done | Stage::Failed(_) => false,
    }
}

/// The diagnostic of a run whose read of the result slot gave no text.
pub open spec fn missing_result() -> Seq<char> {
    "the result slot holds no text"@
}

/// The identifiers that a session resolves.
pub open spec fn resolvable_modules() -> Seq<Seq<char>> {
    seq![USER_MODULE@, DRIVER_MODULE@]
}

/// The action that starts every run.
pub open spec fn first_action() -> ActionView {
    ActionView::CreateSession { resolvable: resolvable_modules() }
}

/// The stage that a step leaves the run in.
pub open spec fn stage_after(step: StepView) -> Stage {
    match step {
        StepView::Continue(pipeline, _) => pipeline.stage,
        StepView::Finished(Ok(_)) => Stage::Done,
        StepView::Finished(Err(e)) => Stage::Failed(e.kind),
    }
}

/// What follows when a run that waits for the engine at `p.stage` is told
/// that the action succeeded; `produced` is the text that came with the
/// news, if any.
pub open spec fn on_success(p: PipelineView, produced: Option<Seq<char>>) -> StepView {
    let onward = PipelineView { stage: successor(p.stage), script: p.script, input: p.input };
    match p.stage {
        Stage::Init => match encoding_of(p.input) {
            Ok(text) => StepView::Continue(
                onward,
                ActionView::DeclareModule {
                    identifier: USER_MODULE@,
                    body: user_module_text(p.script, text),
                },
            ),
            Err(e) => StepView::Finished(Err(e)),
        },
        Stage::UserDeclaredPending => StepView::Continue(
            onward,
            ActionView::EvaluateModule { identifier: DRIVER_MODULE@, body: driver_module_text() },
        ),
        Stage::UserDeclared => StepView::Continue(onward, ActionView::AwaitCompletion),
        Stage::DriverEvaluating => StepView::Continue(
            onward,
            ActionView::ReadGlobal { name: RESULT_SLOT@ },
        ),
        // The last stage at which a run waits: the result slot was read.
        _ => match produced {
            Some(text) => StepView::Finished(decoding_of(text)),
            None => StepView::Finished(
                Err(ErrorView { kind: ErrorKind::GlobalRead, diagnostic: missing_result() }),
            ),
        },
    }
}

/// The stages that a step enters, one after the other; the last of them is
/// the stage that the step leaves the run in.
///
/// A step enters more than one stage where the work of a stage is the
/// library's own: the input is encoded once the session exists, and the
/// text of the result slot is decoded as soon as it has been read.
pub open spec fn stages_entered(p: PipelineView, event: EventView) -> Seq<Stage>
    recommends
        awaits_engine(p.stage),
{
    match event {
        EventView::Failed(fault) => seq![Stage::Failed(failure_kind(p.stage, fault.class))],
        _ => match p.stage {
            Stage::Init => match encoding_of(p.input) {
                Ok(_) => seq![Stage::UserDeclaredPending],
                Err(e) => seq![Stage::UserDeclaredPending, Stage::Failed(e.kind)],
            },
            Stage::UserDeclaredPending => seq![Stage::UserDeclared],
            Stage::UserDeclared => seq![Stage::DriverEvaluating],
            Stage::DriverEvaluating => seq![Stage::Awaited],
            _ => match event {
                EventView::Produced(text) => match decoding_of(text) {
                    Ok(_) => seq![Stage::GlobalRead, Stage::Decoded, Stage::Done],
                    Err(e) => seq![Stage::GlobalRead, Stage::Failed(e.kind)],
                },
                _ => seq![Stage::Failed(ErrorKind::GlobalRead)],
            },
        },
    }
}

/// The stage in which a run stands just before it enters the stage at index
/// `i` of a step.
pub open spec fn stage_before(p: PipelineView, event: EventView, i: int) -> Stage {
    if i == 0 {
        p.stage
    } else {
        stages_entered(p, event)[i - 1]
    }
}

/// The result of a run that is told `events` one after the other, or `None`
/// where the run is not over when the events are used up. Events behind the
/// one that ends the run are not looked at.
pub open spec fn outcome(p: PipelineView, events: Seq<EventView>) -> Option<
    Result<Mapping, ErrorView>,
>
    decreases events.len(),
{
    if events.len() == 0 {
        None
    } else {
        match next(p, events[0]) {
            StepView::Finished(result) => Some(result),
            StepView::Continue(q, _) => outcome(q, events.drop_first()),
        }
    }
}

/// What follows when a run that waits for the engine at `p.stage` is told
/// that the action failed: the run is over, and its error carries the
/// engine's diagnostic unchanged.
pub open spec fn on_failure(p: PipelineView, fault: FaultView) -> StepView {
    StepView::Finished(
        Err(
            ErrorView {
                kind: failure_kind(p.stage, fault.class),
                diagnostic: fault.diagnostic,
            },
        ),
    )
}

/// The step that an event causes in a run that waits for the engine.
pub open spec fn next(p: PipelineView, event: EventView) -> StepView
    recommends
        awaits_engine(p.stage),
{
    match event {
        EventView::Succeeded => on_success(p, None),
        EventView::Produced(text) => on_success(p, Some(text)),
        EventView::Failed(fault) => on_failure(p, fault),
    }
}

/// A run that waits for the engine to perform an action.
pub struct Pipeline {
    stage: Stage,
    script: String,
    input: Mapping,
}

/// What a run has come to after an event: it goes on with another action, or
/// it is over and this is its result.
pub enum Step {
    Continue(Pipeline, Action),
    Finished(Result<Mapping, ProcessError>),
}

impl View for Pipeline {
    type V = PipelineView;

    closed spec fn view(&self) -> PipelineView {
        PipelineView { stage: self.stage, script: self.script@, input: self.input }
    }
}

impl View for Step {
    type V = StepView;

    open spec fn view(&self) -> StepView {
        match self {
            Step::Continue(pipeline, action) => StepView::Continue(pipeline@, action@),
            Step::Finished(Ok(document)) => StepView::Finished(Ok(*document)),
            Step::Finished(Err(e)) => StepView::Finished(Err(e@)),
        }
    }
}

impl Pipeline {
    #[verifier::type_invariant]
    spec fn waits(&self) -> bool {
        awaits_engine(self.stage)
    }

    /// Begins a run of `script` on `input`. The first action is always to
    /// create a session: no run uses the session of another.
    pub fn start(script: &str, input: Mapping) -> (r: (Pipeline, Action))
        ensures
            r.0@ == (PipelineView { stage: Stage::Init, script: script@, input }),
            r.1@ == first_action(),
    {
        let mut resolvable: Vec<String> = Vec::new();
        resolvable.push(String::from_str(USER_MODULE));
        resolvable.push(String::from_str(DRIVER_MODULE));
        let action = Action::CreateSession { resolvable };
        assert(action@ == first_action()) by {
            assert(resolvable@.map_values(|s: String| s@) =~= resolvable_modules());
        }
        (Pipeline { stage: Stage::Init, script: String::from_str(script), input }, action)
    }

    /// The stage at which this run waits.
    pub fn stage(&self) -> (stage: Stage)
        ensures
            stage == self@.stage,
            awaits_engine(stage),
    {
        proof {
            use_type_invariant(self);
        }
        self.stage
    }

    /// Takes the outcome of the action that this run waits for and says what
    /// follows.
    pub fn advance(self, event: Event) -> (step: Step)
        ensures
            step@ == next(self@, event@),
    {
        proof {
            use_type_invariant(&self);
        }
        match event {
            Event::Failed(fault) => Step::Finished(Err(self.fail(fault))),
            Event::Succeeded => self.proceed(None),
            Event::Produced(text) => self.proceed(Some(text)),
        }
    }

    /// The error of a run whose engine failed at the stage of `self`.
    fn fail(self, fault: EngineFault) -> (e: ProcessError)
        ensures
            e@ == (ErrorView {
                kind: failure_kind(self@.stage, fault@.class),
                diagnostic: fault@.diagnostic,
            }),
    {
        let kind = match self.stage {
            Stage::Init => ErrorKind::SessionInit,
            Stage::UserDeclaredPending => ErrorKind::Compile,
            Stage::UserDeclared => {
                let syntax = String::from_str("SyntaxError");
                if fault.class == syntax {
                    ErrorKind::Compile
                } else {
                    ErrorKind::Link
                }
            },
            Stage::DriverEvaluating => ErrorKind::ScriptRuntime,
            _ => ErrorKind::GlobalRead,
        };
        ProcessError::new(kind, fault.diagnostic)
    }

    /// The step after an action that succeeded.
    fn proceed(self, produced: Option<String>) -> (step: Step)
        ensures
            step@ == on_success(
                self@,
                match produced {
                    Some(text) => Some(text@),
                    None => None,
                },
            ),
    {
        proof {
            use_type_invariant(&self);
        }
        match self.stage {
            Stage::Init => match encode(&self.input) {
                Ok(text) => {
                    let body = user_module(self.script.as_str(), text.as_str());
                    let action = Action::DeclareModule {
                        identifier: String::from_str(USER_MODULE),
                        body,
                    };
                    Step::Continue(
                        Pipeline {
                            stage: Stage::UserDeclaredPending,
                            script: self.script,
                            input: self.input,
                        },
                        action,
                    )
                },
                Err(e) => Step::Finished(Err(e)),
            },
            Stage::UserDeclaredPending => Step::Continue(
                Pipeline { stage: Stage::UserDeclared, script: self.script, input: self.input },
                Action::EvaluateModule {
                    identifier: String::from_str(DRIVER_MODULE),
                    body: driver_module(),
                },
            ),
            Stage::UserDeclared => Step::Continue(
                Pipeline { stage: Stage::DriverEvaluating, script: self.script, input: self.input },
                Action::AwaitCompletion,
            ),
            Stage::DriverEvaluating => Step::Continue(
                Pipeline { stage: Stage::Awaited, script: self.script, input: self.input },
                Action::ReadGlobal { name: String::from_str(RESULT_SLOT) },
            ),
            // The last stage at which a run waits: the result slot was read.
            _ => match produced {
                Some(text) => Step::Finished(decode(text.as_str())),
                None => Step::Finished(
                    Err(
                        ProcessError::new(
                            ErrorKind::GlobalRead,
                            String::from_str("the result slot holds no text"),
                        ),
                    ),
                ),
            },
        }
    }
}

/// A run never goes back: after any event it has failed, or it stands at a
/// later stage than before. Where it goes on, it stands at the very next
/// stage, waits for the engine again, and works on the same script and input.
pub proof fn lemma_runs_in_order(p: PipelineView, event: EventView)
    requires
        awaits_engine(p.stage),
    ensures
        stage_after(next(p, event)) is Failed || rank(stage_after(next(p, event))) > rank(
            p.stage,
        ),
        next(p, event) matches StepView::Continue(q, _) ==> {
            &&& q.stage == successor(p.stage)
            &&& rank(q.stage) == rank(p.stage) + 1
            &&& awaits_engine(q.stage)
            &&& q.script == p.script
            &&& q.input == p.input
        },
{
}

/// Every stage that a step enters is the one that follows the stage before
/// it, or it is a failure that the work of the stage before it can end in.
/// No stage is entered behind a stage that is terminal, and the last stage
/// entered is the one that the step leaves the run in.
pub proof fn lemma_stages_follow_the_order(p: PipelineView, event: EventView, i: int)
    requires
        awaits_engine(p.stage),
        0 <= i < stages_entered(p, event).len(),
    ensures
        !is_terminal(stage_before(p, event, i)),
        stages_entered(p, event)[i] == successor(stage_before(p, event, i)) || (stages_entered(
            p,
            event,
        )[i] matches Stage::Failed(kind) && may_fail_with(stage_before(p, event, i), kind)),
        stages_entered(p, event).last() == stage_after(next(p, event)),
{
}

/// Any failure of the engine ends the run at once: the result is an error,
/// its kind is that of the stage, and its diagnostic is the engine's own,
/// unchanged.
pub proof fn lemma_failure_ends_run(p: PipelineView, fault: FaultView)
    requires
        awaits_engine(p.stage),
    ensures
        next(p, EventView::Failed(fault)) == StepView::Finished(
            Err(
                ErrorView {
                    kind: failure_kind(p.stage, fault.class),
                    diagnostic: fault.diagnostic,
                },
            ),
        ),
        stage_after(next(p, EventView::Failed(fault))) is Failed,
{
}

/// A run returns a document only as the last step of the order: the engine
/// has handed over the text of the result slot, and the document is what
/// that text decodes to. No other event at any stage ends a run in a
/// document, so a failed run returns no part of one.
pub proof fn lemma_document_only_from_slot(p: PipelineView, event: EventView, document: Mapping)
    requires
        awaits_engine(p.stage),
        next(p, event) == StepView::Finished(Ok(document)),
    ensures
        p.stage == Stage::Awaited,
        event matches EventView::Produced(text) && json_decoding(text) == Ok::<
            Mapping,
            Seq<char>,
        >(document),
{
}

/// A run is over where it has returned or failed, and only there does a step
/// leave no pipeline behind.
pub proof fn lemma_finished_is_terminal(p: PipelineView, event: EventView)
    requires
        awaits_engine(p.stage),
    ensures
        is_terminal(stage_after(next(p, event))) <==> next(p, event) is Finished,
{
}

/// Every identifier that a run asks the engine to declare or to evaluate is
/// one of the two that the session resolves.
pub proof fn lemma_modules_are_resolvable(p: PipelineView, event: EventView)
    requires
        awaits_engine(p.stage),
    ensures
        match next(p, event) {
            StepView::Continue(_, ActionView::DeclareModule { identifier, .. }) => identifier
                == resolvable_modules()[0],
            StepView::Continue(_, ActionView::EvaluateModule { identifier, .. }) => identifier
                == resolvable_modules()[1],
            _ => true,
        },
        resolvable_modules().len() == 2,
{
}

/// Whatever the input holds, the user module that a run declares is the
/// script, a fixed prelude, one string literal and a fixed epilogue, and an
/// engine reads the literal as exactly the interchange text of the input.
pub proof fn lemma_declared_module_carries_input(p: PipelineView, text: Seq<char>)
    requires
        p.stage == Stage::Init,
        representable(p.input),
        json_encoding(p.input) == Ok::<Seq<char>, Seq<char>>(text),
    ensures
        next(p, EventView::Succeeded) matches StepView::Continue(
            _,
            ActionView::DeclareModule { identifier, body },
        ) && {
            &&& identifier == USER_MODULE@
            &&& body == user_module_text(p.script, text)
            &&& read_literal(body, literal_start(p.script)) == Some(
                (text, literal_start(p.script) + escaped(text).len()),
            )
        },
{
    lemma_user_module_literal(p.script, text);
}

/// A run is over after five events at the most, counted from its start: no
/// sequence of outcomes keeps it going.
pub proof fn lemma_run_ends(p: PipelineView, events: Seq<EventView>)
    requires
        awaits_engine(p.stage),
        events.len() + rank(p.stage) >= 5,
    ensures
        outcome(p, events) is Some,
    decreases events.len(),
{
    lemma_runs_in_order(p, events[0]);
    match next(p, events[0]) {
        StepView::Finished(_) => {},
        StepView::Continue(q, _) => {
            lemma_run_ends(q, events.drop_first());
        },
    }
}

} // verus!
