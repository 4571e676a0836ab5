//! The blocking message loop, as a decision step plus a loop model.
//!
//! The shell's loop repeatedly retrieves the next queued event. [`loop_step`]
//! decides, for one retrieval, whether the loop exits (the quit signal was
//! observed, which is never dispatched) or dispatches the delivered event and
//! continues. [`loop_outcome`] models a whole run over a sequence of
//! delivered events: the quit signal is delivered with the lowest priority,
//! so it is observed once every queued event has been pumped. [`pump`] runs
//! that model executably, dispatching each delivered event through the
//! window procedure.

use vstd::prelude::*;

use crate::dispatch::{dispatch, dispatch_actions, Action, DispatchPlan, EventKind};
use crate::dispatch::lemma_only_destroy_posts_quit;

verus! {

/// What one blocking retrieval from the platform's queue produced.
#[derive(Clone, Copy, PartialEq, Eq, Structural, Debug)]
pub enum Retrieved {
    /// The quit signal, carrying the payload that becomes the exit status.
    Quit { payload: u32 },
    /// An ordinary event to translate and dispatch to the window procedure.
    Deliver { event: EventKind },
}

/// The loop's decision for one retrieval.
#[derive(Clone, Copy, PartialEq, Eq, Structural, Debug)]
pub enum LoopDecision {
    /// Stop retrieving at once and exit with the given code; the quit
    /// signal itself is never dispatched.
    ExitLoop { code: u32 },
    /// Translate and dispatch the delivered event, then retrieve again.
    DispatchDelivered,
}

/// How a whole run of the loop ends: still blocked waiting for the next
/// event, or exited with a code.
#[derive(Clone, Copy, PartialEq, Eq, Structural, Debug)]
pub enum LoopOutcome {
    /// No quit signal was ever posted: the loop blocks on the next
    /// retrieval and never terminates.
    Waiting,
    /// The quit signal was observed; its payload is the exit code.
    Exited { code: u32 },
}

/// Decide what the loop does with one retrieval: exit on the quit signal
/// without dispatching it, dispatch anything else.
pub fn loop_step(r: &Retrieved) -> (d: LoopDecision)
    ensures
        (*r matches Retrieved::Quit { payload } ==> d == (LoopDecision::ExitLoop {
            code: payload,
        })),
        (*r matches Retrieved::Deliver { .. } ==> d is DispatchDelivered),
{
    match r {
        Retrieved::Quit { payload } => LoopDecision::ExitLoop { code: *payload },
        Retrieved::Deliver { .. } => LoopDecision::DispatchDelivered,
    }
}

/// The quit payload that dispatching one event posts, if any: only Destroy
/// posts the quit signal, always with payload zero.
pub open spec fn quit_posted_by(e: EventKind) -> Option<u32> {
    match e {
        EventKind::Destroy => Some(0u32),
        _ => None,
    }
}

/// The outcome of pumping the remaining delivered events, given the quit
/// payload already posted (if any). The quit signal has the lowest delivery
/// priority: it is observed only after every queued event has been pumped.
pub open spec fn loop_outcome_from(events: Seq<EventKind>, quit_pending: Option<u32>) -> LoopOutcome
    decreases events.len(),
{
    if events.len() == 0 {
        match quit_pending {
            Some(p) => LoopOutcome::Exited { code: p },
            None => LoopOutcome::Waiting,
        }
    } else {
        let next = match quit_posted_by(events[0]) {
            Some(p) => Some(p),
            None => quit_pending,
        };
        loop_outcome_from(events.drop_first(), next)
    }
}

/// The outcome of a run that dispatches the given delivered events in
/// order, starting with no quit signal pending.
pub open spec fn loop_outcome(events: Seq<EventKind>) -> LoopOutcome {
    loop_outcome_from(events, None)
}

/// What an executable run of the loop model reports.
#[derive(Clone, Copy, PartialEq, Eq, Structural, Debug)]
pub struct PumpReport {
    /// How the run ended.
    pub outcome: LoopOutcome,
    /// How many events were dispatched; the quit signal is never among them.
    pub dispatched: usize,
}

/// The quit payload found in a dispatch plan, if the plan posts one.
fn posted_quit(plan: &DispatchPlan) -> (q: Option<u32>)
    ensures
        (q matches Some(p) ==> plan.actions@.contains((Action::PostQuit { payload: p }))),
        (q is None ==> forall|i: int|
            0 <= i < plan.actions@.len() ==> !(#[trigger] plan.actions@[i] is PostQuit)),
{
    let mut j: usize = 0;
    let mut found: Option<u32> = None;
    while j < plan.actions.len()
        invariant
            j <= plan.actions@.len(),
            (found matches Some(p) ==> plan.actions@.contains((Action::PostQuit { payload: p }))),
            (found is None ==> forall|i: int|
                0 <= i < j ==> !(#[trigger] plan.actions@[i] is PostQuit)),
        decreases plan.actions@.len() - j,
    {
        match plan.actions[j] {
            Action::PostQuit { payload } => {
                found = Some(payload);
            },
            _ => {},
        }
        j += 1;
    }
    found
}

/// Run the loop model on a queue of delivered events: dispatch each through
/// the window procedure, track the quit signal its plan posts, and report
/// how the run ends. Every delivered event is dispatched; the quit signal,
/// if one arrives, is observed after them and is not dispatched.
pub fn pump(events: &Vec<EventKind>) -> (r: PumpReport)
    ensures
        r.outcome == loop_outcome(events@),
        r.dispatched == events@.len(),
{
    let mut pending: Option<u32> = None;
    let mut i: usize = 0;
    proof {
        assert(events@.skip(0) =~= events@);
    }
    while i < events.len()
        invariant
            i <= events@.len(),
            loop_outcome_from(events@.skip(i as int), pending) == loop_outcome(events@),
        decreases events@.len() - i,
    {
        let e = events[i];
        let plan = dispatch(&e);
        let q = posted_quit(&plan);
        proof {
            if e is Destroy {
                assert(plan.actions@[0] == (Action::PostQuit { payload: 0u32 }));
                assert(q is Some);
                let p = q->Some_0;
                assert(plan.actions@.contains((Action::PostQuit { payload: p })));
                let k = choose|k: int|
                    0 <= k < plan.actions@.len() && plan.actions@[k] == (Action::PostQuit {
                        payload: p,
                    });
                assert(plan.actions@[k] == plan.actions@[0]);
                assert(q == quit_posted_by(e));
            } else {
                lemma_only_destroy_posts_quit(e);
                match q {
                    Some(p) => {
                        let k = choose|k: int|
                            0 <= k < plan.actions@.len() && plan.actions@[k] == (Action::PostQuit {
                                payload: p,
                            });
                        assert(dispatch_actions(e)[k] is PostQuit);
                    },
                    None => {},
                }
                assert(q == quit_posted_by(e));
            }
            assert(events@.skip(i as int)[0] == e);
            assert(events@.skip(i as int).drop_first() =~= events@.skip(i as int + 1));
        }
        match q {
            Some(p) => {
                pending = Some(p);
            },
            None => {},
        }
        i += 1;
    }
    proof {
        assert(events@.skip(i as int) =~= Seq::<EventKind>::empty());
    }
    match pending {
        Some(p) => PumpReport { outcome: LoopOutcome::Exited { code: p }, dispatched: i },
        None => PumpReport { outcome: LoopOutcome::Waiting, dispatched: i },
    }
}

proof fn lemma_no_destroy_waits_from(events: Seq<EventKind>)
    requires
        forall|i: int| 0 <= i < events.len() ==> !(#[trigger] events[i] is Destroy),
    ensures
        loop_outcome_from(events, None) is Waiting,
    decreases events.len(),
{
    if events.len() > 0 {
        assert(!(events[0] is Destroy));
        assert forall|i: int| 0 <= i < events.drop_first().len() implies !(#[trigger] events.drop_first()[i] is Destroy) by {
            assert(events.drop_first()[i] == events[i + 1]);
        }
        lemma_no_destroy_waits_from(events.drop_first());
    }
}

/// Law: over any sequence of delivered events that contains no Destroy, no
/// quit signal is ever posted, so the loop never terminates — it ends the
/// run still waiting on the next retrieval.
pub proof fn lemma_no_destroy_never_exits(events: Seq<EventKind>)
    requires
        forall|i: int| 0 <= i < events.len() ==> !(#[trigger] events[i] is Destroy),
    ensures
        loop_outcome(events) is Waiting,
{
    lemma_no_destroy_waits_from(events);
}

proof fn lemma_destroy_exits_from(events: Seq<EventKind>, pending: Option<u32>)
    requires
        pending is None || pending == Some(0u32),
        (exists|i: int| 0 <= i < events.len() && (#[trigger] events[i] is Destroy)) || pending
            == Some(0u32),
    ensures
        loop_outcome_from(events, pending) == (LoopOutcome::Exited { code: 0 }),
    decreases events.len(),
{
    if events.len() == 0 {
        assert(pending == Some(0u32));
    } else {
        let next = match quit_posted_by(events[0]) {
            Some(p) => Some(p),
            None => pending,
        };
        if events[0] is Destroy {
            lemma_destroy_exits_from(events.drop_first(), next);
        } else if pending == Some(0u32) {
            lemma_destroy_exits_from(events.drop_first(), next);
        } else {
            let i = choose|i: int| 0 <= i < events.len() && (#[trigger] events[i] is Destroy);
            assert(events.drop_first()[i - 1] is Destroy);
            lemma_destroy_exits_from(events.drop_first(), next);
        }
    }
}

/// Law: a run whose delivered events contain a Destroy eventually observes
/// exactly one quit signal — Destroy posts it with payload zero — and the
/// loop terminates with exit code zero, without dispatching the quit.
pub proof fn lemma_destroy_leads_to_exit(events: Seq<EventKind>)
    requires
        exists|i: int| 0 <= i < events.len() && (#[trigger] events[i] is Destroy),
    ensures
        loop_outcome(events) == (LoopOutcome::Exited { code: 0 }),
{
    lemma_destroy_exits_from(events, None);
}

/// Law: the loop terminates exactly when the quit signal is observed, and
/// the quit signal is posted exactly when a Destroy was dispatched.
pub proof fn lemma_loop_terminates_iff_destroy_dispatched(events: Seq<EventKind>)
    ensures
        loop_outcome(events) is Exited <==> exists|i: int|
            0 <= i < events.len() && (#[trigger] events[i] is Destroy),
{
    if exists|i: int| 0 <= i < events.len() && (#[trigger] events[i] is Destroy) {
        lemma_destroy_leads_to_exit(events);
    } else {
        lemma_no_destroy_never_exits(events);
    }
}

} // verus!
