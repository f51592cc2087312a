//! What holds of every run, whatever the caller reports.
//!
//! A run is modelled as the plan it starts from and the sequence of events
//! that the caller has reported so far. `state_at` and `action_at` unfold
//! `step` along that sequence; the laws below speak of every plan and every
//! such sequence, and so of everything a caller can ever see.

use vstd::prelude::*;
use crate::paths::index_path;
use crate::plan::PlanView;
use crate::session::{
    initial, running, step, ActionView, EventView, FailureView, Phase, SessionView, SkipReason,
};
use crate::tools::Tool;

verus! {

/// The session after all of `events` have been reported, in order.
pub open spec fn state_after(plan: PlanView, events: Seq<EventView>) -> SessionView
    decreases events.len(),
{
    if events.len() == 0 {
        initial(plan)
    } else {
        step(state_after(plan, events.drop_last()), events.last()).0
    }
}

/// The session just before the event at position `i` is reported.
pub open spec fn state_at(plan: PlanView, events: Seq<EventView>, i: int) -> SessionView {
    state_after(plan, events.take(i))
}

/// The action that answers the event at position `i`.
pub open spec fn action_at(plan: PlanView, events: Seq<EventView>, i: int) -> ActionView {
    step(state_at(plan, events, i), events[i]).1
}

/// The actions of a run, one for each event.
pub open spec fn trace(plan: PlanView, events: Seq<EventView>) -> Seq<ActionView> {
    Seq::new(events.len(), |i: int| action_at(plan, events, i))
}

/// Whether `action` starts a tool for the project at position `k`.
pub open spec fn runs_tool_for(action: ActionView, k: nat) -> bool {
    action matches ActionView::Run { project, .. } && project == k
}

/// Whether `action` starts the build of the project at position `k`: the
/// packaging tool, or the native build tool. The bindings generator only
/// continues a build that has been started.
pub open spec fn starts_build_of(action: ActionView, k: nat) -> bool {
    action matches ActionView::Run { project, command } && project == k && command.tool
        != Tool::WasmBindgen
}

/// Whether `action` starts the build of some project.
pub open spec fn starts_build(action: ActionView) -> bool {
    action matches ActionView::Run { command, .. } && command.tool != Tool::WasmBindgen
}

/// Whether `action` writes the entry point of the project at position `k`.
pub open spec fn writes_index_of(action: ActionView, k: nat) -> bool {
    action matches ActionView::WriteIndex { project, .. } && project == k
}

/// How many of `actions` start a build.
pub open spec fn builds(actions: Seq<ActionView>) -> nat
    decreases actions.len(),
{
    if actions.len() == 0 {
        0
    } else if starts_build(actions.last()) {
        builds(actions.drop_last()) + 1
    } else {
        builds(actions.drop_last())
    }
}

/// How many of `actions` skip a project.
pub open spec fn skips(actions: Seq<ActionView>) -> nat
    decreases actions.len(),
{
    if actions.len() == 0 {
        0
    } else if actions.last() is Skip {
        skips(actions.drop_last()) + 1
    } else {
        skips(actions.drop_last())
    }
}

/// The place of a phase within the handling of one project.
spec fn rank(phase: Phase) -> nat {
    match phase {
        Phase::Validating => 1,
        Phase::Packaging => 2,
        Phase::Compiling => 2,
        Phase::Binding => 3,
        Phase::Probing => 4,
        Phase::Writing => 5,
        Phase::Reporting => 6,
        _ => 0,
    }
}

/// A number that grows with every step of a run that has not been given up.
spec fn clock(s: SessionView) -> nat {
    let n = s.plan.project_dirs.len();
    match s.phase {
        Phase::Idle => 0,
        Phase::Serving => 8 * n + 1,
        Phase::Completed => 8 * n + 2,
        Phase::Aborted => 8 * n + 3,
        _ => 8 * s.cursor + rank(s.phase) + 1,
    }
}

/// How many projects have been built or skipped when the session is in `s`.
spec fn settled(s: SessionView) -> nat {
    match s.phase {
        Phase::Idle | Phase::Resolving | Phase::Validating | Phase::Serving | Phase::Completed
        | Phase::Aborted => s.cursor,
        _ => s.cursor + 1,
    }
}

proof fn lemma_step_advances(s: SessionView, e: EventView)
    requires
        s.wf(),
    ensures
        step(s, e).0.wf(),
        step(s, e).0.plan == s.plan,
        s.phase != Phase::Aborted ==> clock(s) < clock(step(s, e).0),
        s.phase == Phase::Aborted ==> step(s, e).0.phase == Phase::Aborted,
{
}

proof fn lemma_unfold(plan: PlanView, events: Seq<EventView>, i: int)
    requires
        0 <= i < events.len(),
    ensures
        state_at(plan, events, i + 1) == step(state_at(plan, events, i), events[i]).0,
{
    let prefix = events.take(i + 1);
    assert(prefix.drop_last() =~= events.take(i));
    assert(prefix.last() == events[i]);
}

proof fn lemma_reachable(plan: PlanView, events: Seq<EventView>, i: int)
    requires
        0 <= i <= events.len(),
    ensures
        state_at(plan, events, i).wf(),
        state_at(plan, events, i).plan == plan,
    decreases i,
{
    if i > 0 {
        lemma_reachable(plan, events, i - 1);
        lemma_unfold(plan, events, i - 1);
        lemma_step_advances(state_at(plan, events, i - 1), events[i - 1]);
    } else {
        assert(events.take(0) =~= Seq::<EventView>::empty());
    }
}

/// Between two points of a run that has not been given up, the clock has
/// grown.
proof fn lemma_clock_grows(plan: PlanView, events: Seq<EventView>, i: int, j: int)
    requires
        0 <= i < j <= events.len(),
        state_at(plan, events, j).phase != Phase::Aborted,
    ensures
        clock(state_at(plan, events, i)) < clock(state_at(plan, events, j)),
        state_at(plan, events, i).phase != Phase::Aborted,
    decreases j - i,
{
    lemma_reachable(plan, events, j - 1);
    lemma_unfold(plan, events, j - 1);
    lemma_step_advances(state_at(plan, events, j - 1), events[j - 1]);
    if i < j - 1 {
        lemma_clock_grows(plan, events, i, j - 1);
    }
}

/// The build tool is started for the projects in the order in which they
/// were given, and for none of them twice: of two starts of a build, the
/// later one belongs to a later project.
pub proof fn builds_follow_input_order(
    plan: PlanView,
    events: Seq<EventView>,
    i: int,
    j: int,
    a: nat,
    b: nat,
)
    requires
        0 <= i < j < events.len(),
        starts_build_of(action_at(plan, events, i), a),
        starts_build_of(action_at(plan, events, j), b),
    ensures
        a < b < plan.project_dirs.len(),
{
    lemma_reachable(plan, events, i);
    lemma_reachable(plan, events, j);
    lemma_unfold(plan, events, i);
    lemma_unfold(plan, events, j);
    lemma_clock_grows(plan, events, i + 1, j + 1);
}

/// No two tools run at the same time: before a session starts another tool,
/// the caller has reported how the tool before it ended.
pub proof fn tools_run_one_at_a_time(plan: PlanView, events: Seq<EventView>, i: int, j: int)
    requires
        0 <= i < j < events.len(),
        action_at(plan, events, i) is Run,
        action_at(plan, events, j) is Run,
    ensures
        events[i + 1] is ToolExited,
        running(state_at(plan, events, i + 1).phase) == Some(
            action_at(plan, events, i)->Run_command.tool,
        ),
{
    lemma_reachable(plan, events, i);
    lemma_reachable(plan, events, i + 1);
    lemma_reachable(plan, events, j);
    lemma_unfold(plan, events, i);
    lemma_unfold(plan, events, i + 1);
    if i + 1 < j {
        lemma_clock_grows(plan, events, i + 2, j);
    }
}

/// While a tool runs, the only report that does not end the run is the
/// tool's own end.
pub proof fn only_the_tool_ends_its_run(plan: PlanView, events: Seq<EventView>, i: int)
    requires
        0 <= i,
        i + 1 < events.len(),
        action_at(plan, events, i) is Run,
    ensures
        events[i + 1] is ToolExited || action_at(plan, events, i + 1) == (ActionView::Abort {
            failure: FailureView::OutOfTurn,
        }),
{
    lemma_reachable(plan, events, i);
    lemma_unfold(plan, events, i);
}

/// A project whose manifest is reported missing is never built: the answer
/// is a skip, or the end of a strict run, and no tool is started for that
/// project at any point of the run.
pub proof fn project_without_manifest_is_never_built(
    plan: PlanView,
    events: Seq<EventView>,
    i: int,
    j: int,
)
    requires
        0 <= i < events.len(),
        0 <= j < events.len(),
        state_at(plan, events, i).phase == Phase::Validating,
        events[i] == (EventView::Exists { present: false }),
    ensures
        !plan.strict ==> action_at(plan, events, i) == (ActionView::Skip {
            project: state_at(plan, events, i).cursor,
            path: state_at(plan, events, i).project,
            reason: SkipReason::MissingManifest,
        }),
        plan.strict ==> action_at(plan, events, i) == (ActionView::Abort {
            failure: FailureView::MissingManifest { project: state_at(plan, events, i).project },
        }),
        !runs_tool_for(action_at(plan, events, j), state_at(plan, events, i).cursor),
{
    lemma_reachable(plan, events, i);
    lemma_reachable(plan, events, j);
    lemma_unfold(plan, events, i);
    lemma_unfold(plan, events, j);
    if j < i {
        lemma_clock_grows(plan, events, j, i);
        if j + 1 < i {
            lemma_clock_grows(plan, events, j + 1, i);
        }
    } else if j > i {
        lemma_reachable(plan, events, j + 1);
        if runs_tool_for(action_at(plan, events, j), state_at(plan, events, i).cursor) {
            lemma_clock_grows(plan, events, i, j + 1);
            lemma_clock_grows(plan, events, i + 1, j + 1);
        }
    }
}

/// A project that is skipped, for whatever reason, is never built.
pub proof fn skipped_project_is_never_built(
    plan: PlanView,
    events: Seq<EventView>,
    i: int,
    j: int,
)
    requires
        0 <= i < events.len(),
        0 <= j < events.len(),
        action_at(plan, events, i) is Skip,
    ensures
        !runs_tool_for(action_at(plan, events, j), action_at(plan, events, i)->Skip_project),
{
    lemma_reachable(plan, events, i);
    lemma_reachable(plan, events, j);
    lemma_unfold(plan, events, i);
    lemma_unfold(plan, events, j);
    let k = action_at(plan, events, i)->Skip_project;
    if runs_tool_for(action_at(plan, events, j), k) {
        if j + 1 < i {
            lemma_clock_grows(plan, events, j + 1, i);
        } else if j > i {
            lemma_clock_grows(plan, events, i + 1, j + 1);
        }
    }
}

/// An entry point that is reported present is never written: the session
/// turns to the next project, and at no point of the run does it ask for
/// the entry point of that project to be written.
pub proof fn present_index_is_never_written(
    plan: PlanView,
    events: Seq<EventView>,
    i: int,
    j: int,
)
    requires
        0 <= i < events.len(),
        0 <= j < events.len(),
        state_at(plan, events, i).phase == Phase::Probing,
        events[i] == (EventView::Exists { present: true }),
    ensures
        !writes_index_of(action_at(plan, events, j), state_at(plan, events, i).cursor),
{
    lemma_reachable(plan, events, i);
    lemma_reachable(plan, events, j);
    lemma_unfold(plan, events, i);
    lemma_unfold(plan, events, j);
    if writes_index_of(action_at(plan, events, j), state_at(plan, events, i).cursor) {
        if j < i {
            lemma_clock_grows(plan, events, j, i);
        } else if j > i {
            lemma_clock_grows(plan, events, i, j);
        }
    }
}

/// An entry point that is reported missing is written exactly once: the
/// answer asks for the file at the project's entry point path with exactly
/// the text of the template, and no other point of the run asks for the
/// entry point of that project to be written.
pub proof fn missing_index_is_written_once(
    plan: PlanView,
    events: Seq<EventView>,
    i: int,
    j: int,
)
    requires
        0 <= i < events.len(),
        0 <= j < events.len(),
        state_at(plan, events, i).phase == Phase::Probing,
        events[i] == (EventView::Exists { present: false }),
    ensures
        action_at(plan, events, i) == (ActionView::WriteIndex {
            project: state_at(plan, events, i).cursor,
            path: index_path(state_at(plan, events, i).project),
            contents: plan.template,
        }),
        writes_index_of(action_at(plan, events, j), state_at(plan, events, i).cursor) ==> j == i,
{
    lemma_reachable(plan, events, i);
    lemma_reachable(plan, events, j);
    lemma_unfold(plan, events, i);
    lemma_unfold(plan, events, j);
    if writes_index_of(action_at(plan, events, j), state_at(plan, events, i).cursor) {
        if j < i {
            lemma_clock_grows(plan, events, j, i);
        } else if j > i {
            lemma_clock_grows(plan, events, i, j);
        }
    }
}

/// Every write that a session asks for is the template, at the entry point
/// path of the current project, in answer to the report that this file does
/// not exist.
pub proof fn every_write_follows_a_missing_index(plan: PlanView, events: Seq<EventView>, j: int)
    requires
        0 <= j < events.len(),
        action_at(plan, events, j) is WriteIndex,
    ensures
        state_at(plan, events, j).phase == Phase::Probing,
        events[j] == (EventView::Exists { present: false }),
        action_at(plan, events, j) == (ActionView::WriteIndex {
            project: state_at(plan, events, j).cursor,
            path: index_path(state_at(plan, events, j).project),
            contents: plan.template,
        }),
{
    lemma_reachable(plan, events, j);
}

/// Once a run has ended, well or not, the session asks for nothing more:
/// every further report is answered by `OutOfTurn`.
pub proof fn nothing_follows_the_end(plan: PlanView, events: Seq<EventView>, i: int, j: int)
    requires
        0 <= i < j < events.len(),
        action_at(plan, events, i) is Abort || action_at(plan, events, i) is Finish,
    ensures
        action_at(plan, events, j) == (ActionView::Abort { failure: FailureView::OutOfTurn }),
{
    lemma_reachable(plan, events, i);
    lemma_reachable(plan, events, j);
    lemma_unfold(plan, events, i);
    lemma_unfold(plan, events, j);
    if i + 1 < j {
        if state_at(plan, events, j).phase != Phase::Aborted {
            lemma_clock_grows(plan, events, i + 1, j);
            lemma_reachable(plan, events, i + 1);
        }
    }
}

proof fn lemma_trace_grows(plan: PlanView, events: Seq<EventView>)
    requires
        events.len() > 0,
    ensures
        trace(plan, events).drop_last() == trace(plan, events.drop_last()),
        trace(plan, events).last() == step(
            state_after(plan, events.drop_last()),
            events.last(),
        ).1,
{
    let shorter = events.drop_last();
    assert(events.take(events.len() - 1) =~= shorter);
    assert forall|i: int| 0 <= i < shorter.len() implies action_at(plan, events, i) == action_at(
        plan,
        shorter,
        i,
    ) by {
        assert(shorter.take(i) =~= events.take(i));
    }
    assert(trace(plan, events).drop_last() =~= trace(plan, shorter));
}

proof fn lemma_settled(plan: PlanView, events: Seq<EventView>)
    ensures
        state_after(plan, events).phase != Phase::Aborted ==> builds(trace(plan, events)) + skips(
            trace(plan, events),
        ) == settled(state_after(plan, events)),
    decreases events.len(),
{
    if events.len() > 0 {
        let shorter = events.drop_last();
        lemma_settled(plan, shorter);
        lemma_trace_grows(plan, events);
        assert(events.take(events.len() as int) =~= events);
        assert(events.take(events.len() - 1) =~= shorter);
        lemma_reachable(plan, events, events.len() - 1);
        lemma_step_advances(state_after(plan, shorter), events.last());
    } else {
        assert(trace(plan, events) =~= Seq::<ActionView>::empty());
    }
}

/// In a run that handles every project, each one is either built or
/// skipped: the build tool is started exactly as many times as there are
/// projects that were not skipped.
pub proof fn build_is_started_for_all_but_skipped(plan: PlanView, events: Seq<EventView>)
    requires
        state_after(plan, events).phase == Phase::Completed || state_after(plan, events).phase
            == Phase::Serving,
    ensures
        builds(trace(plan, events)) == plan.project_dirs.len() - skips(trace(plan, events)),
{
    lemma_settled(plan, events);
    assert(events.take(events.len() as int) =~= events);
    lemma_reachable(plan, events, events.len() as int);
}

} // verus!
