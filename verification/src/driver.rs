//! The pipeline driver: what a build does next, given what a stage returned.
//!
//! The driver runs no stage itself. It hands out one [`Action`] at a time; the
//! caller carries the action out and reports what the stage returned as a
//! [`StageEvent`], for which the driver hands out the next action. The build
//! is over with the action [`Action::Finish`].
//!
//! Every decision is a function of the driver's state, the event and the
//! source text set: [`step_model`] is that function, and [`Driver::step`]
//! computes it.

use crate::errors::{
    add_error_sources, batch_view, batch_with_sources, ArtifactGenerationError,
    ArtifactGenerationErrorView, ArtifactWriteError, ArtifactWriteErrorView, BuildProjectError,
    BuildProjectErrorView, SchemaBuildError, SchemaBuildErrorView, ValidationError,
    ValidationErrorView,
};
use crate::source::{SourceUnitView, Sources};
use crate::stage::{span_label, span_label_of, Stage};
use crate::summary::{summary_line, summary_of, DocumentCounts};
use std::marker::PhantomData;
use vstd::prelude::*;

verus! {

/// Where a build stands.
#[derive(Clone, Copy, Debug, PartialEq, Eq, Hash, Structural)]
pub enum Phase {
    /// The stage has been handed out and its result is awaited.
    Running(Stage),
    /// The outcome has been handed out. Nothing follows.
    Finished,
}

/// What a stage returned. There is one event for each stage.
#[derive(Debug, PartialEq, Eq)]
pub enum StageEvent<A> {
    /// The schema builder returned: with a schema, or with its error.
    SchemaBuilt(Result<(), SchemaBuildError>),
    /// The IR builder returned: with the typed definitions, or with every
    /// error that it found in the documents.
    IrBuilt(Result<(), Vec<ValidationError>>),
    /// The program has been constructed. This stage cannot fail.
    ProgramBuilt,
    /// The validator returned, with every rule that it found broken; with
    /// none for a program that breaks no rule.
    Validated(Vec<ValidationError>),
    /// The transforms returned the target programs, which hold this many
    /// definitions. This stage cannot fail.
    TransformsApplied(DocumentCounts),
    /// The generator returned: with the artifacts of the whole project, or
    /// with its error.
    ArtifactsGenerated(Result<Vec<A>, ArtifactGenerationError>),
    /// The writer returned: with every artifact persisted, or with its error.
    ArtifactsWritten(Result<(), ArtifactWriteError>),
}

/// The mathematical value of a [`StageEvent`].
pub enum StageEventView<A> {
    SchemaBuilt(Result<(), SchemaBuildErrorView>),
    IrBuilt(Result<(), Seq<ValidationErrorView>>),
    ProgramBuilt,
    Validated(Seq<ValidationErrorView>),
    TransformsApplied(DocumentCounts),
    ArtifactsGenerated(Result<Seq<A>, ArtifactGenerationErrorView>),
    ArtifactsWritten(Result<(), ArtifactWriteErrorView>),
}

impl<A> View for StageEvent<A> {
    type V = StageEventView<A>;

    open spec fn view(&self) -> StageEventView<A> {
        match self {
            StageEvent::SchemaBuilt(Ok(_)) => StageEventView::SchemaBuilt(Ok(())),
            StageEvent::SchemaBuilt(Err(error)) => StageEventView::SchemaBuilt(Err(error@)),
            StageEvent::IrBuilt(Ok(_)) => StageEventView::IrBuilt(Ok(())),
            StageEvent::IrBuilt(Err(errors)) => StageEventView::IrBuilt(Err(batch_view(errors@))),
            StageEvent::ProgramBuilt => StageEventView::ProgramBuilt,
            StageEvent::Validated(violations) => StageEventView::Validated(
                batch_view(violations@),
            ),
            StageEvent::TransformsApplied(counts) => StageEventView::TransformsApplied(*counts),
            StageEvent::ArtifactsGenerated(Ok(artifacts)) => StageEventView::ArtifactsGenerated(
                Ok(artifacts@),
            ),
            StageEvent::ArtifactsGenerated(Err(error)) => StageEventView::ArtifactsGenerated(
                Err(error@),
            ),
            StageEvent::ArtifactsWritten(Ok(_)) => StageEventView::ArtifactsWritten(Ok(())),
            StageEvent::ArtifactsWritten(Err(error)) => StageEventView::ArtifactsWritten(
                Err(error@),
            ),
        }
    }
}

impl<A> StageEvent<A> {
    /// The validation errors that the event brings, in order: the errors of
    /// the IR builder or the violations of the validator, and none otherwise.
    pub open spec fn batch(self) -> Seq<ValidationError> {
        match self {
            StageEvent::IrBuilt(Err(errors)) => errors@,
            StageEvent::Validated(violations) => violations@,
            _ => Seq::empty(),
        }
    }

    /// The stage whose result the event is.
    pub fn stage(&self) -> (stage: Stage)
        ensures
            stage == self@.stage(),
    {
        match self {
            StageEvent::SchemaBuilt(_) => Stage::BuildSchema,
            StageEvent::IrBuilt(_) => Stage::BuildIr,
            StageEvent::ProgramBuilt => Stage::BuildProgram,
            StageEvent::Validated(_) => Stage::Validate,
            StageEvent::TransformsApplied(_) => Stage::ApplyTransforms,
            StageEvent::ArtifactsGenerated(_) => Stage::GenerateArtifacts,
            StageEvent::ArtifactsWritten(_) => Stage::WriteArtifacts,
        }
    }
}

impl<A> StageEventView<A> {
    /// The stage whose result the event is.
    pub open spec fn stage(self) -> Stage {
        match self {
            StageEventView::SchemaBuilt(_) => Stage::BuildSchema,
            StageEventView::IrBuilt(_) => Stage::BuildIr,
            StageEventView::ProgramBuilt => Stage::BuildProgram,
            StageEventView::Validated(_) => Stage::Validate,
            StageEventView::TransformsApplied(_) => Stage::ApplyTransforms,
            StageEventView::ArtifactsGenerated(_) => Stage::GenerateArtifacts,
            StageEventView::ArtifactsWritten(_) => Stage::WriteArtifacts,
        }
    }

    /// The error with which the build fails on this event; `None` for an
    /// event that lets the build go on. A batch of validation errors comes
    /// with its sources attached. What the validator returned is a failure
    /// unless it is empty.
    pub open spec fn failure(self, sources: Map<u64, SourceUnitView>) -> Option<BuildProjectErrorView> {
        match self {
            StageEventView::SchemaBuilt(Err(error)) => Some(
                BuildProjectErrorView::SchemaBuild(error),
            ),
            StageEventView::IrBuilt(Err(errors)) => Some(
                BuildProjectErrorView::ValidationErrors {
                    errors: batch_with_sources(errors, sources),
                },
            ),
            StageEventView::Validated(violations) => if violations.len() == 0 {
                None
            } else {
                Some(
                    BuildProjectErrorView::ValidationErrors {
                        errors: batch_with_sources(violations, sources),
                    },
                )
            },
            StageEventView::ArtifactsGenerated(Err(error)) => Some(
                BuildProjectErrorView::ArtifactGeneration(error),
            ),
            StageEventView::ArtifactsWritten(Err(error)) => Some(
                BuildProjectErrorView::ArtifactWrite(error),
            ),
            _ => None,
        }
    }

    /// The artifacts that the event brings: those that the generator
    /// returned, and none otherwise.
    pub open spec fn artifacts(self) -> Seq<A> {
        match self {
            StageEventView::ArtifactsGenerated(Ok(artifacts)) => artifacts,
            _ => Seq::empty(),
        }
    }

    /// The sizes of the target programs after the event: those that the
    /// transforms returned, and `known` otherwise.
    pub open spec fn counts_after(self, known: DocumentCounts) -> DocumentCounts {
        match self {
            StageEventView::TransformsApplied(counts) => counts,
            _ => known,
        }
    }
}

/// How a build ended.
#[derive(Clone, Debug, PartialEq, Eq)]
pub enum Outcome {
    /// Every stage succeeded. `summary` is the line that reports it.
    Succeeded { summary: String },
    /// The stage `stage` failed with `error`. No later stage has run.
    Failed { stage: Stage, error: BuildProjectError },
}

/// The mathematical value of an [`Outcome`].
pub enum OutcomeView {
    Succeeded { summary: Seq<char> },
    Failed { stage: Stage, error: BuildProjectErrorView },
}

impl View for Outcome {
    type V = OutcomeView;

    open spec fn view(&self) -> OutcomeView {
        match self {
            Outcome::Succeeded { summary } => OutcomeView::Succeeded { summary: summary@ },
            Outcome::Failed { stage, error } => OutcomeView::Failed { stage: *stage, error: error@ },
        }
    }
}

/// What the caller is to do next.
#[derive(Clone, Debug, PartialEq, Eq)]
pub enum Action<A> {
    /// Run `stage`, which is any stage but the writer, inside a timing span
    /// labelled `span`, and report what it returned.
    Run { stage: Stage, span: String },
    /// Run the writer on `artifacts`, inside a timing span labelled `span`,
    /// and report what it returned.
    Write { span: String, artifacts: Vec<A> },
    /// Stop: the build has ended with `outcome`.
    Finish { outcome: Outcome },
}

/// The mathematical value of an [`Action`].
pub enum ActionView<A> {
    Run { stage: Stage, span: Seq<char> },
    Write { span: Seq<char>, artifacts: Seq<A> },
    Finish { outcome: OutcomeView },
}

impl<A> View for Action<A> {
    type V = ActionView<A>;

    open spec fn view(&self) -> ActionView<A> {
        match self {
            Action::Run { stage, span } => ActionView::Run { stage: *stage, span: span@ },
            Action::Write { span, artifacts } => ActionView::Write {
                span: span@,
                artifacts: artifacts@,
            },
            Action::Finish { outcome } => ActionView::Finish { outcome: outcome@ },
        }
    }
}

impl<A> ActionView<A> {
    /// The stage that the action asks for; `None` for the end of the build.
    pub open spec fn stage(self) -> Option<Stage> {
        match self {
            ActionView::Run { stage, .. } => Some(stage),
            ActionView::Write { .. } => Some(Stage::WriteArtifacts),
            ActionView::Finish { .. } => None,
        }
    }
}

/// The mathematical value of an optional action.
pub open spec fn action_view<A>(action: Option<Action<A>>) -> Option<ActionView<A>> {
    match action {
        Some(a) => Some(a@),
        None => None,
    }
}

/// The state of one project's build. `A` is the type of the project's
/// artifacts, which the driver hands from the generator to the writer.
pub struct Driver<A> {
    project_name: String,
    phase: Phase,
    counts: DocumentCounts,
    artifacts: PhantomData<A>,
}

/// The mathematical value of a [`Driver`].
pub struct DriverView {
    /// The project that is being built.
    pub project_name: Seq<char>,
    /// Where the build stands.
    pub phase: Phase,
    /// The sizes of the target programs; all zero until the transforms have
    /// returned.
    pub counts: DocumentCounts,
}

impl<A> View for Driver<A> {
    type V = DriverView;

    closed spec fn view(&self) -> DriverView {
        DriverView { project_name: self.project_name@, phase: self.phase, counts: self.counts }
    }
}

/// The action that asks for `stage`. The writer is handed the artifacts that
/// `event` has brought; every other stage is handed nothing.
pub open spec fn request_for<A>(
    stage: Stage,
    project_name: Seq<char>,
    event: StageEventView<A>,
) -> ActionView<A> {
    if stage == Stage::WriteArtifacts {
        ActionView::Write { span: span_label_of(stage, project_name), artifacts: event.artifacts() }
    } else {
        ActionView::Run { stage, span: span_label_of(stage, project_name) }
    }
}

/// The state in which a build of `project_name` begins, and its first action:
/// to run the first stage.
pub open spec fn start_model<A>(project_name: Seq<char>) -> (DriverView, ActionView<A>) {
    (
        DriverView {
            project_name,
            phase: Phase::Running(Stage::BuildSchema),
            counts: DocumentCounts { reader: 0, normalization: 0, operation_text: 0 },
        },
        ActionView::Run {
            stage: Stage::BuildSchema,
            span: span_label_of(Stage::BuildSchema, project_name),
        },
    )
}

/// The state after `event`, and the action that answers it.
///
/// An event that is not the result of the stage that is running changes
/// nothing and is answered by no action; so is any event once the build has
/// finished. Otherwise a failure ends the build with that failure; a success of
/// the last stage ends it with the summary; a success of any other stage is
/// answered by the request for the stage that follows.
pub open spec fn step_model<A>(
    state: DriverView,
    event: StageEventView<A>,
    sources: Map<u64, SourceUnitView>,
) -> (DriverView, Option<ActionView<A>>) {
    if state.phase != Phase::Running(event.stage()) {
        (state, None)
    } else if let Some(error) = event.failure(sources) {
        (
            DriverView { phase: Phase::Finished, ..state },
            Some(
                ActionView::Finish {
                    outcome: OutcomeView::Failed { stage: event.stage(), error },
                },
            ),
        )
    } else if let Some(following) = event.stage().successor() {
        (
            DriverView {
                phase: Phase::Running(following),
                counts: event.counts_after(state.counts),
                ..state
            },
            Some(request_for(following, state.project_name, event)),
        )
    } else {
        (
            DriverView { phase: Phase::Finished, ..state },
            Some(
                ActionView::Finish {
                    outcome: OutcomeView::Succeeded {
                        summary: summary_of(state.project_name, state.counts),
                    },
                },
            ),
        )
    }
}

impl<A> Driver<A> {
    /// Begins the build of the project `project_name`.
    pub fn start(project_name: String) -> (begun: (Driver<A>, Action<A>))
        ensures
            (begun.0@, begun.1@) == start_model::<A>(project_name@),
    {
        let stage = Stage::first();
        let span = span_label(stage, project_name.as_str());
        let driver = Driver {
            project_name,
            phase: Phase::Running(stage),
            counts: DocumentCounts { reader: 0, normalization: 0, operation_text: 0 },
            artifacts: PhantomData,
        };
        (driver, Action::Run { stage, span })
    }

    /// The project that is being built.
    pub fn project_name(&self) -> (name: &str)
        ensures
            name@ == self@.project_name,
    {
        self.project_name.as_str()
    }

    /// Where the build stands.
    pub fn phase(&self) -> (phase: Phase)
        ensures
            phase == self@.phase,
    {
        self.phase
    }

    /// Takes in what a stage returned and says what to do next; `None` for an
    /// event that the build was not waiting for.
    ///
    /// Where the build fails with validation errors, they are those of the
    /// event, all of them and in order, each with its sources attached.
    pub fn step(&mut self, event: StageEvent<A>, sources: &Sources) -> (action: Option<Action<A>>)
        ensures
            (final(self)@, action_view(action)) == step_model(old(self)@, event@, sources@),
            action matches Some(
                Action::Finish {
                    outcome: Outcome::Failed {
                        error: BuildProjectError::ValidationErrors { errors },
                        ..
                    },
                },
            ) ==> {
                &&& errors@.len() == event.batch().len()
                &&& forall|i: int|
                    0 <= i < errors@.len() ==> (#[trigger] errors@[i])@
                        == event.batch()[i]@.with_sources(sources@)
            },
    {
        let stage = event.stage();
        if self.phase != Phase::Running(stage) {
            return None;
        }
        let action = match event {
            StageEvent::SchemaBuilt(Ok(_)) => self.request(Stage::BuildIr),
            StageEvent::SchemaBuilt(Err(error)) => self.fail(
                stage,
                BuildProjectError::SchemaBuild(error),
            ),
            StageEvent::IrBuilt(result) => match add_error_sources(result, sources) {
                Ok(_) => self.request(Stage::BuildProgram),
                Err(error) => self.fail(stage, error),
            },
            StageEvent::ProgramBuilt => self.request(Stage::Validate),
            StageEvent::Validated(violations) => {
                let result = if violations.len() == 0 {
                    Ok(())
                } else {
                    Err(violations)
                };
                match add_error_sources(result, sources) {
                    Ok(_) => self.request(Stage::ApplyTransforms),
                    Err(error) => self.fail(stage, error),
                }
            },
            StageEvent::TransformsApplied(counts) => {
                self.counts = counts;
                self.request(Stage::GenerateArtifacts)
            },
            StageEvent::ArtifactsGenerated(Ok(artifacts)) => self.hand_to_writer(artifacts),
            StageEvent::ArtifactsGenerated(Err(error)) => self.fail(
                stage,
                BuildProjectError::ArtifactGeneration(error),
            ),
            StageEvent::ArtifactsWritten(Ok(_)) => self.succeed(),
            StageEvent::ArtifactsWritten(Err(error)) => self.fail(
                stage,
                BuildProjectError::ArtifactWrite(error),
            ),
        };
        Some(action)
    }

    /// Moves on to the writer, with the artifacts it is to persist.
    fn hand_to_writer(&mut self, artifacts: Vec<A>) -> (action: Action<A>)
        ensures
            final(self)@ == (DriverView {
                phase: Phase::Running(Stage::WriteArtifacts),
                ..old(self)@
            }),
            action@ == (ActionView::Write {
                span: span_label_of(Stage::WriteArtifacts, old(self)@.project_name),
                artifacts: artifacts@,
            }),
    {
        self.phase = Phase::Running(Stage::WriteArtifacts);
        Action::Write {
            span: span_label(Stage::WriteArtifacts, self.project_name.as_str()),
            artifacts,
        }
    }

    /// Ends the build with the summary of its target programs.
    fn succeed(&mut self) -> (action: Action<A>)
        ensures
            final(self)@ == (DriverView { phase: Phase::Finished, ..old(self)@ }),
            action@ == (ActionView::<A>::Finish {
                outcome: OutcomeView::Succeeded {
                    summary: summary_of(old(self)@.project_name, old(self)@.counts),
                },
            }),
    {
        self.phase = Phase::Finished;
        Action::Finish {
            outcome: Outcome::Succeeded {
                summary: summary_line(self.project_name.as_str(), self.counts),
            },
        }
    }

    /// Moves on to `stage`, which is not the writer.
    fn request(&mut self, stage: Stage) -> (action: Action<A>)
        requires
            stage != Stage::WriteArtifacts,
        ensures
            final(self)@ == (DriverView { phase: Phase::Running(stage), ..old(self)@ }),
            action@ == (ActionView::<A>::Run {
                stage,
                span: span_label_of(stage, old(self)@.project_name),
            }),
    {
        self.phase = Phase::Running(stage);
        Action::Run { stage, span: span_label(stage, self.project_name.as_str()) }
    }

    /// Ends the build with the failure of `stage`.
    fn fail(&mut self, stage: Stage, error: BuildProjectError) -> (action: Action<A>)
        ensures
            final(self)@ == (DriverView { phase: Phase::Finished, ..old(self)@ }),
            action == (Action::<A>::Finish { outcome: Outcome::Failed { stage, error } }),
    {
        self.phase = Phase::Finished;
        Action::Finish { outcome: Outcome::Failed { stage, error } }
    }
}

} // verus!
