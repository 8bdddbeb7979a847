//! The errors of a project build, and how a batch of validation errors is
//! tied back to the source text before it reaches the caller.

use crate::source::{
    context_view, law_line_start_begins_line, line_start, newlines_before, Location,
    SourceContext, SourceContextView, SourceUnitView, Sources,
};
use crate::stage::Stage;
use vstd::prelude::*;

verus! {

/// A violation that the IR builder or the validator has found. Its locations
/// are still references into the source text set; by convention the first one
/// is the place of the violation itself.
#[derive(Clone, Debug, PartialEq, Eq)]
pub struct ValidationError {
    pub message: String,
    pub locations: Vec<Location>,
}

/// The mathematical value of a [`ValidationError`].
pub struct ValidationErrorView {
    pub message: Seq<char>,
    pub locations: Seq<Location>,
}

impl View for ValidationError {
    type V = ValidationErrorView;

    open spec fn view(&self) -> ValidationErrorView {
        ValidationErrorView { message: self.message@, locations: self.locations@ }
    }
}

/// A [`ValidationError`] together with the context of each of its locations:
/// `sources[i]` belongs to `error.locations[i]`, and is `None` where that
/// location does not lead anywhere in the source text set.
#[derive(Clone, Debug, PartialEq, Eq)]
pub struct ValidationErrorWithSources {
    pub error: ValidationError,
    pub sources: Vec<Option<SourceContext>>,
}

/// The mathematical value of a [`ValidationErrorWithSources`].
pub struct ValidationErrorWithSourcesView {
    pub error: ValidationErrorView,
    pub sources: Seq<Option<SourceContextView>>,
}

impl View for ValidationErrorWithSources {
    type V = ValidationErrorWithSourcesView;

    open spec fn view(&self) -> ValidationErrorWithSourcesView {
        ValidationErrorWithSourcesView {
            error: self.error@,
            sources: self.sources@.map_values(|c: Option<SourceContext>| context_view(c)),
        }
    }
}

impl ValidationErrorView {
    /// Every location of the error leads somewhere in `sources`.
    pub open spec fn resolvable_in(self, sources: Map<u64, SourceUnitView>) -> bool {
        forall|i: int|
            0 <= i < self.locations.len() ==> (#[trigger] self.locations[i]).resolvable_in(sources)
    }

    /// The error with the context of each location, as `sources` gives it.
    pub open spec fn with_sources(self, sources: Map<u64, SourceUnitView>) -> ValidationErrorWithSourcesView {
        ValidationErrorWithSourcesView {
            error: self,
            sources: self.locations.map_values(|l: Location| l.resolution(sources)),
        }
    }
}

impl ValidationErrorWithSourcesView {
    /// No location of the error is left without its context.
    pub open spec fn complete(self) -> bool {
        forall|i: int| 0 <= i < self.sources.len() ==> (#[trigger] self.sources[i]) is Some
    }
}

impl ValidationError {
    /// Attaches to the error the context of each of its locations.
    pub fn with_sources(self, sources: &Sources) -> (resolved: ValidationErrorWithSources)
        ensures
            resolved.error == self,
            resolved.sources@.len() == self.locations@.len(),
            forall|i: int|
                0 <= i < self.locations@.len() ==> context_view(#[trigger] resolved.sources@[i])
                    == self.locations@[i].resolution(sources@),
            resolved@ == self@.with_sources(sources@),
    {
        let mut contexts: Vec<Option<SourceContext>> = Vec::new();
        let count = self.locations.len();
        let mut i: usize = 0;
        while i < count
            invariant
                i <= count == self.locations@.len(),
                contexts@.len() == i,
                forall|j: int|
                    0 <= j < i ==> context_view(#[trigger] contexts@[j])
                        == self.locations@[j].resolution(sources@),
            decreases count - i,
        {
            let context = self.locations[i].resolve(sources);
            contexts.push(context);
            i = i + 1;
        }
        let resolved = ValidationErrorWithSources { error: self, sources: contexts };
        assert(resolved@.sources =~= self@.with_sources(sources@).sources);
        resolved
    }
}

impl ValidationErrorWithSources {
    /// Whether every location of the error has its context.
    pub fn is_complete(&self) -> (complete: bool)
        ensures
            complete == self@.complete(),
    {
        let count = self.sources.len();
        let mut i: usize = 0;
        while i < count
            invariant
                i <= count == self.sources@.len(),
                forall|j: int| 0 <= j < i ==> (#[trigger] self@.sources[j]) is Some,
            decreases count - i,
        {
            if self.sources[i].is_none() {
                assert(self@.sources[i as int] is None);
                return false;
            }
            assert(self@.sources[i as int] is Some);
            i = i + 1;
        }
        true
    }
}

/// The mathematical value of a batch of validation errors.
pub open spec fn batch_view(errors: Seq<ValidationError>) -> Seq<ValidationErrorView> {
    errors.map_values(|e: ValidationError| e@)
}

/// The mathematical value of a batch of validation errors with their sources.
pub open spec fn resolved_batch_view(errors: Seq<ValidationErrorWithSources>) -> Seq<
    ValidationErrorWithSourcesView,
> {
    errors.map_values(|e: ValidationErrorWithSources| e@)
}

/// A batch of validation errors, each with its sources: as many errors as
/// went in, in the same order.
pub open spec fn batch_with_sources(
    errors: Seq<ValidationErrorView>,
    sources: Map<u64, SourceUnitView>,
) -> Seq<ValidationErrorWithSourcesView> {
    errors.map_values(|e: ValidationErrorView| e.with_sources(sources))
}

/// Why the schema could not be built: the project's extensions are malformed
/// or contradict the base declarations.
#[derive(Clone, Debug, PartialEq, Eq)]
pub struct SchemaBuildError {
    pub message: String,
}

/// The mathematical value of a [`SchemaBuildError`].
pub struct SchemaBuildErrorView {
    pub message: Seq<char>,
}

impl View for SchemaBuildError {
    type V = SchemaBuildErrorView;

    open spec fn view(&self) -> SchemaBuildErrorView {
        SchemaBuildErrorView { message: self.message@ }
    }
}

/// Why no artifact could be generated for `definition` of the target
/// program `target`.
#[derive(Clone, Debug, PartialEq, Eq)]
pub struct ArtifactGenerationError {
    pub target: String,
    pub definition: String,
    pub message: String,
}

/// The mathematical value of an [`ArtifactGenerationError`].
pub struct ArtifactGenerationErrorView {
    pub target: Seq<char>,
    pub definition: Seq<char>,
    pub message: Seq<char>,
}

impl View for ArtifactGenerationError {
    type V = ArtifactGenerationErrorView;

    open spec fn view(&self) -> ArtifactGenerationErrorView {
        ArtifactGenerationErrorView {
            target: self.target@,
            definition: self.definition@,
            message: self.message@,
        }
    }
}

/// Why the artifact for `destination` could not be written.
#[derive(Clone, Debug, PartialEq, Eq)]
pub struct ArtifactWriteError {
    pub destination: String,
    pub message: String,
}

/// The mathematical value of an [`ArtifactWriteError`].
pub struct ArtifactWriteErrorView {
    pub destination: Seq<char>,
    pub message: Seq<char>,
}

impl View for ArtifactWriteError {
    type V = ArtifactWriteErrorView;

    open spec fn view(&self) -> ArtifactWriteErrorView {
        ArtifactWriteErrorView { destination: self.destination@, message: self.message@ }
    }
}

/// Why a project build failed.
#[derive(Clone, Debug, PartialEq, Eq)]
pub enum BuildProjectError {
    /// The schema could not be built.
    SchemaBuild(SchemaBuildError),
    /// The documents are ill-typed, or break a rule beyond type checking.
    /// The batch holds every violation that the failing stage has found.
    ValidationErrors { errors: Vec<ValidationErrorWithSources> },
    /// An artifact could not be generated. Nothing has been written.
    ArtifactGeneration(ArtifactGenerationError),
    /// An artifact could not be written. Others may have been.
    ArtifactWrite(ArtifactWriteError),
}

/// The mathematical value of a [`BuildProjectError`].
pub enum BuildProjectErrorView {
    SchemaBuild(SchemaBuildErrorView),
    ValidationErrors { errors: Seq<ValidationErrorWithSourcesView> },
    ArtifactGeneration(ArtifactGenerationErrorView),
    ArtifactWrite(ArtifactWriteErrorView),
}

impl View for BuildProjectError {
    type V = BuildProjectErrorView;

    open spec fn view(&self) -> BuildProjectErrorView {
        match self {
            BuildProjectError::SchemaBuild(error) => BuildProjectErrorView::SchemaBuild(error@),
            BuildProjectError::ValidationErrors { errors } => BuildProjectErrorView::ValidationErrors {
                errors: resolved_batch_view(errors@),
            },
            BuildProjectError::ArtifactGeneration(error) => BuildProjectErrorView::ArtifactGeneration(
                error@,
            ),
            BuildProjectError::ArtifactWrite(error) => BuildProjectErrorView::ArtifactWrite(error@),
        }
    }
}

impl BuildProjectErrorView {
    /// The error is one that `stage` fails with: the schema builder with its
    /// own error, the IR builder and the validator with validation errors,
    /// the generator and the writer each with its own; the other stages with
    /// none.
    pub open spec fn arises_at(self, stage: Stage) -> bool {
        match self {
            BuildProjectErrorView::SchemaBuild(_) => stage == Stage::BuildSchema,
            BuildProjectErrorView::ValidationErrors { .. } => stage == Stage::BuildIr || stage
                == Stage::Validate,
            BuildProjectErrorView::ArtifactGeneration(_) => stage == Stage::GenerateArtifacts,
            BuildProjectErrorView::ArtifactWrite(_) => stage == Stage::WriteArtifacts,
        }
    }
}

/// Attaches its sources to each error of a batch.
pub fn resolve_batch(errors: Vec<ValidationError>, sources: &Sources) -> (resolved: Vec<
    ValidationErrorWithSources,
>)
    ensures
        resolved@.len() == errors@.len(),
        forall|i: int|
            0 <= i < errors@.len() ==> (#[trigger] resolved@[i])@ == errors@[i]@.with_sources(
                sources@,
            ),
        resolved_batch_view(resolved@) == batch_with_sources(batch_view(errors@), sources@),
{
    let mut resolved: Vec<ValidationErrorWithSources> = Vec::new();
    let ghost batch = errors@;
    for error in it: errors
        invariant
            it.seq() == batch,
            resolved@.len() == it.index(),
            forall|j: int|
                0 <= j < it.index() ==> (#[trigger] resolved@[j])@ == batch[j]@.with_sources(
                    sources@,
                ),
    {
        resolved.push(error.with_sources(sources));
    }
    assert(resolved_batch_view(resolved@) =~= batch_with_sources(batch_view(batch), sources@));
    resolved
}

/// Passes a stage's result on, with the sources attached to its errors: a
/// success is returned as it is, a batch of validation errors becomes
/// [`BuildProjectError::ValidationErrors`] with every error of the batch, in
/// order, each with its sources.
pub fn add_error_sources<T>(result: Result<T, Vec<ValidationError>>, sources: &Sources) -> (out:
    Result<T, BuildProjectError>)
    ensures
        match result {
            Ok(value) => out == Ok::<T, BuildProjectError>(value),
            Err(errors) => {
                &&& out matches Err(BuildProjectError::ValidationErrors { errors: resolved })
                &&& resolved@.len() == errors@.len()
                &&& forall|i: int|
                    0 <= i < errors@.len() ==> (#[trigger] resolved@[i])@
                        == errors@[i]@.with_sources(sources@)
                &&& resolved_batch_view(resolved@) == batch_with_sources(
                    batch_view(errors@),
                    sources@,
                )
            },
        },
{
    match result {
        Ok(value) => Ok(value),
        Err(errors) => Err(
            BuildProjectError::ValidationErrors { errors: resolve_batch(errors, sources) },
        ),
    }
}

/// A batch stays whole: with the sources attached it holds as many errors as
/// before, in the same order, each one unchanged and with one entry of
/// sources for each of its locations.
pub proof fn law_batch_stays_whole(errors: Seq<ValidationErrorView>, sources: Map<u64, SourceUnitView>)
    ensures
        batch_with_sources(errors, sources).len() == errors.len(),
        forall|i: int|
            0 <= i < errors.len() ==> {
                &&& #[trigger] batch_with_sources(errors, sources)[i] == errors[i].with_sources(
                    sources,
                )
                &&& batch_with_sources(errors, sources)[i].error == errors[i]
                &&& batch_with_sources(errors, sources)[i].sources.len()
                    == errors[i].locations.len()
            },
{
}

/// A location that leads somewhere is resolved to exactly the text it covers:
/// its context holds the bytes of the range, one for one, and the line and
/// the column at which the range begins.
pub proof fn law_resolved_location_is_exact(
    error: ValidationErrorView,
    sources: Map<u64, SourceUnitView>,
    place: int,
)
    requires
        0 <= place < error.locations.len(),
        error.locations[place].resolvable_in(sources),
    ensures
        ({
            let location = error.locations[place];
            let text = sources[location.source].text;
            &&& error.with_sources(sources).sources[place] matches Some(context)
            &&& context.file == sources[location.source].name
            &&& context.text == text.subrange(location.start as int, location.end as int)
            &&& context.text.len() == location.end - location.start
            &&& forall|k: int|
                0 <= k < context.text.len() ==> #[trigger] context.text[k] == text[location.start
                    + k]
            &&& context.line == newlines_before(text, location.start as int)
            &&& line_start(text, location.start as int) + context.column == location.start
        }),
{
    let location = error.locations[place];
    law_line_start_begins_line(sources[location.source].text, location.start as int);
}

/// An error whose locations all lead somewhere leaves none of them without
/// its context.
pub proof fn law_resolvable_error_is_complete(error: ValidationErrorView, sources: Map<u64, SourceUnitView>)
    requires
        error.resolvable_in(sources),
    ensures
        error.with_sources(sources).complete(),
{
    assert forall|i: int| 0 <= i < error.with_sources(sources).sources.len() implies (
    #[trigger] error.with_sources(sources).sources[i]) is Some by {
        assert(error.locations[i].resolvable_in(sources));
    }
}

} // verus!
