//! What holds of every build: the course that a build can take, stated over
//! the driver's model and proved for every sequence of events.
//!
//! A [`Build`] is the state of a driver together with the actions it has
//! handed out so far. [`replay`] is the build after a sequence of events; the
//! laws below speak of `replay(begin(project_name), events, sources)`, the
//! build of a project after any events whatsoever.

use crate::driver::{
    start_model, step_model, ActionView, DriverView, OutcomeView, Phase, StageEventView,
};
use crate::errors::{
    batch_with_sources, law_resolved_location_is_exact, ArtifactGenerationErrorView,
    BuildProjectErrorView, ValidationErrorView,
};
use crate::source::SourceUnitView;
use crate::stage::{span_label_of, Stage, STAGE_COUNT};
use crate::summary::{summary_of, DocumentCounts};
use vstd::prelude::*;

verus! {

/// A build under way: the driver's state, and every action that the driver
/// has handed out so far, the first one first.
pub struct Build<A> {
    pub state: DriverView,
    pub trace: Seq<ActionView<A>>,
}

/// The build of `project_name` before any event.
pub open spec fn begin<A>(project_name: Seq<char>) -> Build<A> {
    Build {
        state: start_model::<A>(project_name).0,
        trace: seq![start_model::<A>(project_name).1],
    }
}

/// The build after one more event.
pub open spec fn deliver<A>(
    build: Build<A>,
    event: StageEventView<A>,
    sources: Map<u64, SourceUnitView>,
) -> Build<A> {
    let (state, action) = step_model(build.state, event, sources);
    Build {
        state,
        trace: match action {
            Some(a) => build.trace.push(a),
            None => build.trace,
        },
    }
}

/// The build after `events`, delivered in order.
pub open spec fn replay<A>(
    build: Build<A>,
    events: Seq<StageEventView<A>>,
    sources: Map<u64, SourceUnitView>,
) -> Build<A>
    decreases events.len(),
{
    if events.len() == 0 {
        build
    } else {
        deliver(replay(build, events.drop_last(), sources), events.last(), sources)
    }
}

/// `action` asks for the stage in place `place` of the pipeline, under the
/// span label of that stage, and asks the writer by [`ActionView::Write`] and
/// no other stage so.
pub open spec fn requests_place<A>(action: ActionView<A>, place: int, project_name: Seq<char>) -> bool {
    match action {
        ActionView::Run { stage, span } => {
            &&& stage.position() == place
            &&& stage != Stage::WriteArtifacts
            &&& span == span_label_of(stage, project_name)
        },
        ActionView::Write { span, .. } => {
            &&& Stage::WriteArtifacts.position() == place
            &&& span == span_label_of(Stage::WriteArtifacts, project_name)
        },
        ActionView::Finish { .. } => false,
    }
}

/// The course of a build: the stages are asked for one by one in the order of
/// the pipeline, none twice and none skipped; while a stage is running, the
/// request for it is the last action; once the build has finished, the last
/// action is the outcome, which follows the request for the stage that failed
/// or, for a success, the request for the last stage; and a failure names the
/// stage that fails with an error of its kind.
pub open spec fn on_course<A>(build: Build<A>) -> bool {
    let trace = build.trace;
    &&& 1 <= trace.len() <= STAGE_COUNT + 1
    &&& forall|i: int|
        0 <= i < trace.len() - 1 ==> requests_place(#[trigger] trace[i], i, build.state.project_name)
    &&& match build.state.phase {
        Phase::Running(stage) => {
            &&& trace.len() == stage.position() + 1
            &&& requests_place(trace.last(), stage.position() as int, build.state.project_name)
        },
        Phase::Finished => match trace.last() {
            ActionView::Finish { outcome: OutcomeView::Failed { stage, error } } => {
                &&& trace.len() == stage.position() + 2
                &&& error.arises_at(stage)
            },
            ActionView::Finish { outcome: OutcomeView::Succeeded { .. } } => trace.len()
                == STAGE_COUNT + 1,
            _ => false,
        },
    }
}

/// Events delivered in two runs give the build that they give in one.
pub proof fn lemma_replay_in_two_runs<A>(
    build: Build<A>,
    first: Seq<StageEventView<A>>,
    second: Seq<StageEventView<A>>,
    sources: Map<u64, SourceUnitView>,
)
    ensures
        replay(build, first + second, sources) == replay(
            replay(build, first, sources),
            second,
            sources,
        ),
    decreases second.len(),
{
    if second.len() == 0 {
        assert(first + second =~= first);
    } else {
        lemma_replay_in_two_runs(build, first, second.drop_last(), sources);
        assert((first + second).drop_last() =~= first + second.drop_last());
        assert((first + second).last() == second.last());
    }
}

/// One event keeps a build on its course.
pub proof fn lemma_deliver_stays_on_course<A>(
    build: Build<A>,
    event: StageEventView<A>,
    sources: Map<u64, SourceUnitView>,
)
    requires
        on_course(build),
    ensures
        on_course(deliver(build, event, sources)),
        deliver(build, event, sources).state.project_name == build.state.project_name,
{
    let after = deliver(build, event, sources);
    if after.trace != build.trace {
        assert(after.trace.drop_last() =~= build.trace);
        assert forall|i: int| 0 <= i < after.trace.len() - 1 implies requests_place(
            #[trigger] after.trace[i],
            i,
            after.state.project_name,
        ) by {
            assert(after.trace[i] == build.trace[i]);
        }
    }
}

/// The order of the stages is fixed. Whatever the events, the build of a
/// project is on its course: see [`on_course`].
pub proof fn law_build_stays_on_course<A>(
    project_name: Seq<char>,
    events: Seq<StageEventView<A>>,
    sources: Map<u64, SourceUnitView>,
)
    ensures
        on_course(replay(begin::<A>(project_name), events, sources)),
        replay(begin::<A>(project_name), events, sources).state.project_name == project_name,
    decreases events.len(),
{
    if events.len() > 0 {
        law_build_stays_on_course::<A>(project_name, events.drop_last(), sources);
        lemma_deliver_stays_on_course(
            replay(begin::<A>(project_name), events.drop_last(), sources),
            events.last(),
            sources,
        );
    }
}

/// A finished build is over: no event changes it, and none is answered.
pub proof fn law_finished_build_is_final<A>(
    build: Build<A>,
    events: Seq<StageEventView<A>>,
    sources: Map<u64, SourceUnitView>,
)
    requires
        build.state.phase == Phase::Finished,
    ensures
        replay(build, events, sources) == build,
    decreases events.len(),
{
    if events.len() > 0 {
        law_finished_build_is_final(build, events.drop_last(), sources);
    }
}

/// A failure ends the build at the stage that failed. When the stage that is
/// running reports a failure, the build finishes with that failure as its
/// outcome; whatever is reported afterwards, the outcome stands, and no stage
/// behind the one that failed is ever asked for.
pub proof fn law_failure_ends_build<A>(
    project_name: Seq<char>,
    before: Seq<StageEventView<A>>,
    event: StageEventView<A>,
    after: Seq<StageEventView<A>>,
    sources: Map<u64, SourceUnitView>,
)
    requires
        replay(begin::<A>(project_name), before, sources).state.phase == Phase::Running(
            event.stage(),
        ),
        event.failure(sources) is Some,
    ensures
        ({
            let stopped = replay(begin::<A>(project_name), before, sources);
            let ended = replay(begin::<A>(project_name), before.push(event) + after, sources);
            &&& ended.state.phase == Phase::Finished
            &&& ended.trace == stopped.trace.push(
                ActionView::Finish {
                    outcome: OutcomeView::Failed {
                        stage: event.stage(),
                        error: event.failure(sources)->0,
                    },
                },
            )
            &&& forall|i: int|
                0 <= i < ended.trace.len() ==> ((#[trigger] ended.trace[i]).stage() matches Some(
                    stage,
                ) ==> stage.position() <= event.stage().position())
        }),
{
    let stopped = replay(begin::<A>(project_name), before, sources);
    let failed = deliver(stopped, event, sources);
    law_build_stays_on_course::<A>(project_name, before, sources);
    assert(before.push(event).drop_last() =~= before);
    assert(replay(begin::<A>(project_name), before.push(event), sources) == failed);
    lemma_replay_in_two_runs(begin::<A>(project_name), before.push(event), after, sources);
    law_finished_build_is_final(failed, after, sources);
    assert forall|i: int| 0 <= i < failed.trace.len() implies ((#[trigger] failed.trace[i]).stage() matches Some(
        stage,
    ) ==> stage.position() <= event.stage().position()) by {
        if i < stopped.trace.len() {
            assert(failed.trace[i] == stopped.trace[i]);
            if i < stopped.trace.len() - 1 {
                assert(requests_place(stopped.trace[i], i, stopped.state.project_name));
            }
        }
    }
}

/// Ill-typed documents fail the build at the IR stage. When the IR builder
/// reports errors, the build finishes with all of them, each with its sources
/// attached, so that a location that leads somewhere comes with exactly the
/// text it covers; no program is built, nothing is validated, no transform
/// runs and nothing is generated or written.
pub proof fn law_type_errors_fail_at_ir<A>(
    project_name: Seq<char>,
    before: Seq<StageEventView<A>>,
    errors: Seq<ValidationErrorView>,
    after: Seq<StageEventView<A>>,
    sources: Map<u64, SourceUnitView>,
)
    requires
        replay(begin::<A>(project_name), before, sources).state.phase == Phase::Running(
            Stage::BuildIr,
        ),
    ensures
        ({
            let ended = replay(
                begin::<A>(project_name),
                before.push(StageEventView::IrBuilt(Err(errors))) + after,
                sources,
            );
            &&& ended.state.phase == Phase::Finished
            &&& ended.trace.last() == ActionView::<A>::Finish {
                outcome: OutcomeView::Failed {
                    stage: Stage::BuildIr,
                    error: BuildProjectErrorView::ValidationErrors {
                        errors: batch_with_sources(errors, sources),
                    },
                },
            }
            &&& forall|i: int|
                0 <= i < ended.trace.len() ==> ((#[trigger] ended.trace[i]).stage() matches Some(
                    stage,
                ) ==> stage == Stage::BuildSchema || stage == Stage::BuildIr)
            &&& batch_with_sources(errors, sources).len() == errors.len()
            &&& forall|i: int, j: int|
                0 <= i < errors.len() && 0 <= j < errors[i].locations.len()
                    && errors[i].locations[j].resolvable_in(sources) ==> {
                    let location = errors[i].locations[j];
                    &&& #[trigger] batch_with_sources(errors, sources)[i].sources[j] matches Some(
                        context,
                    )
                    &&& context.file == sources[location.source].name
                    &&& context.text == sources[location.source].text.subrange(
                        location.start as int,
                        location.end as int,
                    )
                }
        }),
{
    law_failure_ends_build(
        project_name,
        before,
        StageEventView::<A>::IrBuilt(Err(errors)),
        after,
        sources,
    );
    assert forall|i: int, j: int|
        0 <= i < errors.len() && 0 <= j < errors[i].locations.len()
            && errors[i].locations[j].resolvable_in(sources) implies {
        let location = errors[i].locations[j];
        &&& #[trigger] batch_with_sources(errors, sources)[i].sources[j] matches Some(context)
        &&& context.file == sources[location.source].name
        &&& context.text == sources[location.source].text.subrange(
            location.start as int,
            location.end as int,
        )
    } by {
        law_resolved_location_is_exact(errors[i], sources, j);
    }
}

/// A broken rule fails the build at the validation stage, and the transforms
/// never run. When the validator reports violations, the build finishes with
/// all of them in one outcome, each with its sources attached; whatever is
/// reported afterwards, no transform is asked for, nor anything behind it.
pub proof fn law_violations_stop_before_transforms<A>(
    project_name: Seq<char>,
    before: Seq<StageEventView<A>>,
    violations: Seq<ValidationErrorView>,
    after: Seq<StageEventView<A>>,
    sources: Map<u64, SourceUnitView>,
)
    requires
        replay(begin::<A>(project_name), before, sources).state.phase == Phase::Running(
            Stage::Validate,
        ),
        violations.len() > 0,
    ensures
        ({
            let ended = replay(
                begin::<A>(project_name),
                before.push(StageEventView::Validated(violations)) + after,
                sources,
            );
            &&& ended.state.phase == Phase::Finished
            &&& ended.trace.last() == ActionView::<A>::Finish {
                outcome: OutcomeView::Failed {
                    stage: Stage::Validate,
                    error: BuildProjectErrorView::ValidationErrors {
                        errors: batch_with_sources(violations, sources),
                    },
                },
            }
            &&& forall|i: int|
                0 <= i < ended.trace.len() ==> {
                    &&& (#[trigger] ended.trace[i]).stage() != Some(Stage::ApplyTransforms)
                    &&& ended.trace[i].stage() != Some(Stage::GenerateArtifacts)
                    &&& ended.trace[i].stage() != Some(Stage::WriteArtifacts)
                }
            &&& batch_with_sources(violations, sources).len() == violations.len()
            &&& forall|i: int|
                0 <= i < violations.len() ==> (#[trigger] batch_with_sources(
                    violations,
                    sources,
                )[i]).error == violations[i]
        }),
{
    law_failure_ends_build(
        project_name,
        before,
        StageEventView::<A>::Validated(violations),
        after,
        sources,
    );
}

/// A failed generation writes nothing. When the generator fails, the build
/// finishes with that failure, and the writer is never asked for: no
/// artifact is handed to it, whatever is reported afterwards.
pub proof fn law_failed_generation_writes_nothing<A>(
    project_name: Seq<char>,
    before: Seq<StageEventView<A>>,
    error: ArtifactGenerationErrorView,
    after: Seq<StageEventView<A>>,
    sources: Map<u64, SourceUnitView>,
)
    requires
        replay(begin::<A>(project_name), before, sources).state.phase == Phase::Running(
            Stage::GenerateArtifacts,
        ),
    ensures
        ({
            let ended = replay(
                begin::<A>(project_name),
                before.push(StageEventView::ArtifactsGenerated(Err(error))) + after,
                sources,
            );
            &&& ended.state.phase == Phase::Finished
            &&& ended.trace.last() == ActionView::<A>::Finish {
                outcome: OutcomeView::Failed {
                    stage: Stage::GenerateArtifacts,
                    error: BuildProjectErrorView::ArtifactGeneration(error),
                },
            }
            &&& forall|i: int| 0 <= i < ended.trace.len() ==> !((#[trigger] ended.trace[i]) is Write)
        }),
{
    law_failure_ends_build(
        project_name,
        before,
        StageEventView::<A>::ArtifactsGenerated(Err(error)),
        after,
        sources,
    );
    let ended = replay(
        begin::<A>(project_name),
        before.push(StageEventView::ArtifactsGenerated(Err(error))) + after,
        sources,
    );
    assert forall|i: int| 0 <= i < ended.trace.len() implies !((#[trigger] ended.trace[i]) is Write) by {
        if ended.trace[i] is Write {
            assert(ended.trace[i].stage() == Some(Stage::WriteArtifacts));
        }
    }
}

/// The writer gets what the generator returned, whole. The only request for
/// the writer is the one that answers the generator's success, and it carries
/// exactly the artifacts of that event.
pub proof fn law_writer_gets_generated_artifacts<A>(
    project_name: Seq<char>,
    before: Seq<StageEventView<A>>,
    artifacts: Seq<A>,
    sources: Map<u64, SourceUnitView>,
)
    requires
        replay(begin::<A>(project_name), before, sources).state.phase == Phase::Running(
            Stage::GenerateArtifacts,
        ),
    ensures
        ({
            let generated = replay(
                begin::<A>(project_name),
                before.push(StageEventView::ArtifactsGenerated(Ok(artifacts))),
                sources,
            );
            &&& generated.state.phase == Phase::Running(Stage::WriteArtifacts)
            &&& generated.trace.last() == ActionView::<A>::Write {
                span: span_label_of(Stage::WriteArtifacts, project_name),
                artifacts,
            }
            &&& forall|i: int|
                0 <= i < generated.trace.len() - 1 ==> !((#[trigger] generated.trace[i]) is Write)
        }),
{
    let event = StageEventView::ArtifactsGenerated(Ok(artifacts));
    let stopped = replay(begin::<A>(project_name), before, sources);
    let generated = replay(begin::<A>(project_name), before.push(event), sources);
    law_build_stays_on_course::<A>(project_name, before, sources);
    assert(before.push(event).drop_last() =~= before);
    assert(generated == deliver(stopped, event, sources));
    assert forall|i: int| 0 <= i < generated.trace.len() - 1 implies !((
    #[trigger] generated.trace[i]) is Write) by {
        assert(generated.trace[i] == stopped.trace[i]);
        if i < stopped.trace.len() - 1 {
            assert(requests_place(stopped.trace[i], i, stopped.state.project_name));
        }
    }
}

/// The request to run `stage` in the build of `project_name`.
pub open spec fn run_request<A>(stage: Stage, project_name: Seq<char>) -> ActionView<A> {
    ActionView::Run { stage, span: span_label_of(stage, project_name) }
}

/// The events of a build in which every stage succeeds.
pub open spec fn clean_events<A>(counts: DocumentCounts, artifacts: Seq<A>) -> Seq<StageEventView<A>> {
    seq![
        StageEventView::SchemaBuilt(Ok(())),
        StageEventView::IrBuilt(Ok(())),
        StageEventView::ProgramBuilt,
        StageEventView::Validated(Seq::empty()),
        StageEventView::TransformsApplied(counts),
        StageEventView::ArtifactsGenerated(Ok(artifacts)),
        StageEventView::ArtifactsWritten(Ok(())),
    ]
}

/// A build without failures reaches the writer and succeeds. When every stage
/// succeeds and the validator finds nothing, all seven stages are asked for
/// in order, the writer is handed the generated artifacts, and the build
/// finishes with the summary of the target programs.
pub proof fn law_clean_build_succeeds<A>(
    project_name: Seq<char>,
    counts: DocumentCounts,
    artifacts: Seq<A>,
    sources: Map<u64, SourceUnitView>,
)
    ensures
        ({
            let built = replay(begin::<A>(project_name), clean_events(counts, artifacts), sources);
            &&& built.state.phase == Phase::Finished
            &&& built.trace == seq![
                run_request::<A>(Stage::BuildSchema, project_name),
                run_request::<A>(Stage::BuildIr, project_name),
                run_request::<A>(Stage::BuildProgram, project_name),
                run_request::<A>(Stage::Validate, project_name),
                run_request::<A>(Stage::ApplyTransforms, project_name),
                run_request::<A>(Stage::GenerateArtifacts, project_name),
                ActionView::Write {
                    span: span_label_of(Stage::WriteArtifacts, project_name),
                    artifacts,
                },
                ActionView::Finish {
                    outcome: OutcomeView::Succeeded { summary: summary_of(project_name, counts) },
                },
            ]
        }),
{
    let events = clean_events(counts, artifacts);
    let b0 = begin::<A>(project_name);
    let b1 = deliver(b0, events[0], sources);
    let b2 = deliver(b1, events[1], sources);
    let b3 = deliver(b2, events[2], sources);
    let b4 = deliver(b3, events[3], sources);
    let b5 = deliver(b4, events[4], sources);
    let b6 = deliver(b5, events[5], sources);
    let b7 = deliver(b6, events[6], sources);
    lemma_replay_is_deliveries(b0, events, sources, 0);
    lemma_replay_is_deliveries(b0, events, sources, 1);
    lemma_replay_is_deliveries(b0, events, sources, 2);
    lemma_replay_is_deliveries(b0, events, sources, 3);
    lemma_replay_is_deliveries(b0, events, sources, 4);
    lemma_replay_is_deliveries(b0, events, sources, 5);
    lemma_replay_is_deliveries(b0, events, sources, 6);
    lemma_replay_is_deliveries(b0, events, sources, 7);
    assert(events.take(7) =~= events);
    assert(replay(b0, events.take(0), sources) == b0);
    assert(replay(b0, events.take(1), sources) == b1);
    assert(replay(b0, events.take(2), sources) == b2);
    assert(replay(b0, events.take(3), sources) == b3);
    assert(replay(b0, events.take(4), sources) == b4);
    assert(replay(b0, events.take(5), sources) == b5);
    assert(replay(b0, events.take(6), sources) == b6);
    assert(replay(b0, events, sources) == b7);
    assert(b7.trace =~= seq![
        run_request::<A>(Stage::BuildSchema, project_name),
        run_request::<A>(Stage::BuildIr, project_name),
        run_request::<A>(Stage::BuildProgram, project_name),
        run_request::<A>(Stage::Validate, project_name),
        run_request::<A>(Stage::ApplyTransforms, project_name),
        run_request::<A>(Stage::GenerateArtifacts, project_name),
        ActionView::Write {
            span: span_label_of(Stage::WriteArtifacts, project_name),
            artifacts,
        },
        ActionView::Finish {
            outcome: OutcomeView::Succeeded { summary: summary_of(project_name, counts) },
        },
    ]);
}

/// One turn of two builds that run side by side: an event for the first
/// build, or one for the second.
pub enum Turn<A, B> {
    First(StageEventView<A>),
    Second(StageEventView<B>),
}

/// The events that `turns` holds for the first build, in order.
pub open spec fn events_of_first<A, B>(turns: Seq<Turn<A, B>>) -> Seq<StageEventView<A>>
    decreases turns.len(),
{
    if turns.len() == 0 {
        Seq::empty()
    } else {
        match turns.last() {
            Turn::First(event) => events_of_first(turns.drop_last()).push(event),
            Turn::Second(_) => events_of_first(turns.drop_last()),
        }
    }
}

/// The events that `turns` holds for the second build, in order.
pub open spec fn events_of_second<A, B>(turns: Seq<Turn<A, B>>) -> Seq<StageEventView<B>>
    decreases turns.len(),
{
    if turns.len() == 0 {
        Seq::empty()
    } else {
        match turns.last() {
            Turn::First(_) => events_of_second(turns.drop_last()),
            Turn::Second(event) => events_of_second(turns.drop_last()).push(event),
        }
    }
}

/// Two builds after `turns`, each event delivered to the build it is for.
pub open spec fn replay_side_by_side<A, B>(
    first: Build<A>,
    second: Build<B>,
    turns: Seq<Turn<A, B>>,
    sources_of_first: Map<u64, SourceUnitView>,
    sources_of_second: Map<u64, SourceUnitView>,
) -> (Build<A>, Build<B>)
    decreases turns.len(),
{
    if turns.len() == 0 {
        (first, second)
    } else {
        let (one, other) = replay_side_by_side(
            first,
            second,
            turns.drop_last(),
            sources_of_first,
            sources_of_second,
        );
        match turns.last() {
            Turn::First(event) => (deliver(one, event, sources_of_first), other),
            Turn::Second(event) => (one, deliver(other, event, sources_of_second)),
        }
    }
}

/// Two builds do not interfere. Side by side, in whatever order their events
/// arrive, each build takes the course that it takes alone on its own events:
/// the same state, the same actions, the same outcome. So a failure of the one
/// leaves the other as it would have been.
pub proof fn law_builds_do_not_interfere<A, B>(
    first: Build<A>,
    second: Build<B>,
    turns: Seq<Turn<A, B>>,
    sources_of_first: Map<u64, SourceUnitView>,
    sources_of_second: Map<u64, SourceUnitView>,
)
    ensures
        replay_side_by_side(first, second, turns, sources_of_first, sources_of_second) == (
            replay(first, events_of_first(turns), sources_of_first),
            replay(second, events_of_second(turns), sources_of_second),
        ),
    decreases turns.len(),
{
    if turns.len() > 0 {
        law_builds_do_not_interfere(
            first,
            second,
            turns.drop_last(),
            sources_of_first,
            sources_of_second,
        );
        match turns.last() {
            Turn::First(event) => {
                let earlier = events_of_first(turns.drop_last());
                assert(earlier.push(event).drop_last() =~= earlier);
            },
            Turn::Second(event) => {
                let earlier = events_of_second(turns.drop_last());
                assert(earlier.push(event).drop_last() =~= earlier);
            },
        }
    }
}

/// The build after the first `count` events, and after one more.
proof fn lemma_replay_is_deliveries<A>(
    build: Build<A>,
    events: Seq<StageEventView<A>>,
    sources: Map<u64, SourceUnitView>,
    count: int,
)
    requires
        0 <= count <= events.len(),
    ensures
        count == 0 ==> replay(build, events.take(count), sources) == build,
        count > 0 ==> replay(build, events.take(count), sources) == deliver(
            replay(build, events.take(count - 1), sources),
            events[count - 1],
            sources,
        ),
{
    if count > 0 {
        assert(events.take(count).drop_last() =~= events.take(count - 1));
        assert(events.take(count).last() == events[count - 1]);
    }
}

} // verus!
