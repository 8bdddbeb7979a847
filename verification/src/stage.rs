//! The stages of a project build and the labels of their timing spans.

use vstd::prelude::*;
use vstd::string::*;

verus! {

/// A stage of the build pipeline, in the order in which the stages run.
#[derive(Clone, Copy, Debug, PartialEq, Eq, Hash, Structural)]
pub enum Stage {
    /// Construct the schema, project extensions included.
    BuildSchema,
    /// Type-check the documents against the schema.
    BuildIr,
    /// Turn the typed definitions into a program.
    BuildProgram,
    /// Run the rules that go beyond type checking.
    Validate,
    /// Derive one program per output target.
    ApplyTransforms,
    /// Produce the artifacts in memory.
    GenerateArtifacts,
    /// Persist the artifacts.
    WriteArtifacts,
}

/// How many stages a build has.
pub const STAGE_COUNT: usize = 7;

impl Stage {
    /// The place of a stage in the pipeline, counted from zero.
    pub open spec fn position(self) -> nat {
        match self {
            Stage::BuildSchema => 0,
            Stage::BuildIr => 1,
            Stage::BuildProgram => 2,
            Stage::Validate => 3,
            Stage::ApplyTransforms => 4,
            Stage::GenerateArtifacts => 5,
            Stage::WriteArtifacts => 6,
        }
    }

    /// The stage that follows this one, if any.
    pub open spec fn successor(self) -> Option<Stage> {
        match self {
            Stage::BuildSchema => Some(Stage::BuildIr),
            Stage::BuildIr => Some(Stage::BuildProgram),
            Stage::BuildProgram => Some(Stage::Validate),
            Stage::Validate => Some(Stage::ApplyTransforms),
            Stage::ApplyTransforms => Some(Stage::GenerateArtifacts),
            Stage::GenerateArtifacts => Some(Stage::WriteArtifacts),
            Stage::WriteArtifacts => None,
        }
    }

    /// The name under which a stage is timed.
    pub open spec fn name(self) -> Seq<char> {
        match self {
            Stage::BuildSchema => "build_schema"@,
            Stage::BuildIr => "build_ir"@,
            Stage::BuildProgram => "build_program"@,
            Stage::Validate => "validate"@,
            Stage::ApplyTransforms => "apply_transforms"@,
            Stage::GenerateArtifacts => "generate_artifacts"@,
            Stage::WriteArtifacts => "write_artifacts"@,
        }
    }

    /// The stage every build starts with.
    pub fn first() -> (stage: Stage)
        ensures
            stage == Stage::BuildSchema,
            stage.position() == 0,
    {
        Stage::BuildSchema
    }

    /// The place of this stage in the pipeline, counted from zero.
    pub fn index(self) -> (i: usize)
        ensures
            i == self.position(),
            i < STAGE_COUNT,
    {
        match self {
            Stage::BuildSchema => 0,
            Stage::BuildIr => 1,
            Stage::BuildProgram => 2,
            Stage::Validate => 3,
            Stage::ApplyTransforms => 4,
            Stage::GenerateArtifacts => 5,
            Stage::WriteArtifacts => 6,
        }
    }

    /// The stage that runs after this one; `None` after the last.
    pub fn next(self) -> (following: Option<Stage>)
        ensures
            following == self.successor(),
    {
        match self {
            Stage::BuildSchema => Some(Stage::BuildIr),
            Stage::BuildIr => Some(Stage::BuildProgram),
            Stage::BuildProgram => Some(Stage::Validate),
            Stage::Validate => Some(Stage::ApplyTransforms),
            Stage::ApplyTransforms => Some(Stage::GenerateArtifacts),
            Stage::GenerateArtifacts => Some(Stage::WriteArtifacts),
            Stage::WriteArtifacts => None,
        }
    }

    /// The name under which this stage is timed.
    pub fn as_str(self) -> (name: &'static str)
        ensures
            name@ == self.name(),
    {
        match self {
            Stage::BuildSchema => "build_schema",
            Stage::BuildIr => "build_ir",
            Stage::BuildProgram => "build_program",
            Stage::Validate => "validate",
            Stage::ApplyTransforms => "apply_transforms",
            Stage::GenerateArtifacts => "generate_artifacts",
            Stage::WriteArtifacts => "write_artifacts",
        }
    }
}

/// The label of a timing span: the stage's name, a space, the project's name.
pub open spec fn span_label_of(stage: Stage, project_name: Seq<char>) -> Seq<char> {
    stage.name() + seq![' '] + project_name
}

/// The label of the timing span that covers `stage` in the build of the
/// project `project_name`.
pub fn span_label(stage: Stage, project_name: &str) -> (label: String)
    ensures
        label@ == span_label_of(stage, project_name@),
{
    proof {
        reveal_strlit(" ");
    }
    assert(" "@ =~= seq![' ']);
    let mut label = String::from_str(stage.as_str());
    label.append(" ");
    label.append(project_name);
    label
}

/// The successor of a stage is the stage one place further on, and only the
/// last stage has none.
pub proof fn law_successor_advances(stage: Stage)
    ensures
        stage.position() < STAGE_COUNT,
        stage.successor() matches Some(following) ==> following.position() == stage.position() + 1,
        stage.successor() is None <==> stage.position() + 1 == STAGE_COUNT,
{
}

/// Stages are told apart by their positions.
pub proof fn law_position_identifies(a: Stage, b: Stage)
    ensures
        a.position() == b.position() <==> a == b,
{
}

} // verus!
