//! What holds of every run, whatever events reach it: the pipe is closed
//! once, a body that fails its check is never written, and a kill comes
//! only from a timeout that is not zero.

use crate::run::{
    next, passes, ActionView, Ending, EventView, Phase, PipeResult, RunView, Wait,
};
use vstd::prelude::*;

verus! {

/// The state of `run` after `events` have reached it, in order.
pub open spec fn after(run: RunView, events: Seq<EventView>) -> RunView
    decreases events.len(),
{
    if events.len() == 0 {
        run
    } else {
        after(next(run, events.first()).run, events.drop_first())
    }
}

/// The actions that `run` asks for as `events` reach it, one for each event.
pub open spec fn actions(run: RunView, events: Seq<EventView>) -> Seq<ActionView>
    decreases events.len(),
{
    if events.len() == 0 {
        Seq::empty()
    } else {
        seq![next(run, events.first()).action] + actions(
            next(run, events.first()).run,
            events.drop_first(),
        )
    }
}

/// How many of `actions` close the pipe.
pub open spec fn closes(actions: Seq<ActionView>) -> nat
    decreases actions.len(),
{
    if actions.len() == 0 {
        0
    } else if actions.first() is ClosePipe {
        1 + closes(actions.drop_first())
    } else {
        closes(actions.drop_first())
    }
}

/// Whether the pipe of a run in `phase` has not been closed: it is not there
/// yet, or never came to be, or is open.
pub open spec fn unclosed(phase: Phase) -> bool {
    match phase {
        Phase::Spawning | Phase::Reading | Phase::Writing => true,
        Phase::Done(Ending::SpawnFailed) | Phase::Done(Ending::PipeUnavailable) => true,
        _ => false,
    }
}

/// Whether a run in `phase` has a process whose pipe is open.
pub open spec fn pipe_open(phase: Phase) -> bool {
    phase == Phase::Reading || phase == Phase::Writing
}

/// How far a run in `phase` has come. No step takes a run back.
pub open spec fn progress(phase: Phase) -> nat {
    match phase {
        Phase::Spawning => 0,
        Phase::Reading => 1,
        Phase::Writing => 2,
        Phase::Closing(_) => 3,
        Phase::Waiting => 4,
        Phase::Reaping => 5,
        Phase::Done(_) => 6,
    }
}

/// A step changes the phase only: the verifier and the timeout of a run stay
/// as they were, and the run never falls back to an earlier phase.
pub proof fn lemma_step_keeps_settings(run: RunView, event: EventView)
    ensures
        next(run, event).run.verifier == run.verifier,
        next(run, event).run.timeout == run.timeout,
        progress(next(run, event).run.phase) >= progress(run.phase),
{
}

/// The actions of a trace are one for each event, and the settings of the
/// run are still the same after it.
pub proof fn lemma_trace_shape(run: RunView, events: Seq<EventView>)
    ensures
        actions(run, events).len() == events.len(),
        after(run, events).verifier == run.verifier,
        after(run, events).timeout == run.timeout,
        progress(after(run, events).phase) >= progress(run.phase),
    decreases events.len(),
{
    if events.len() > 0 {
        lemma_step_keeps_settings(run, events.first());
        lemma_trace_shape(next(run, events.first()).run, events.drop_first());
    }
}

/// A request is answered once, and its process is started once: a run that
/// is past the start of its process settles no response and never comes
/// back to that start, whatever event reaches it.
pub proof fn lemma_settled_once(run: RunView, event: EventView)
    requires
        run.phase != Phase::Spawning,
    ensures
        next(run, event).reply is None,
        next(run, event).run.phase != Phase::Spawning,
{
}

proof fn lemma_closes_cons(first: ActionView, rest: Seq<ActionView>)
    ensures
        closes(seq![first] + rest) == closes(rest) + if first is ClosePipe {
            1nat
        } else {
            0nat
        },
{
    assert((seq![first] + rest).drop_first() =~= rest);
}

/// Once the pipe of a run is closed, it stays closed and is not closed again.
proof fn lemma_closed_stays_closed(run: RunView, events: Seq<EventView>)
    requires
        !unclosed(run.phase),
    ensures
        !unclosed(after(run, events).phase),
        closes(actions(run, events)) == 0,
    decreases events.len(),
{
    if events.len() > 0 {
        let step = next(run, events.first());
        lemma_closed_stays_closed(step.run, events.drop_first());
        lemma_closes_cons(step.action, actions(step.run, events.drop_first()));
    }
}

/// The pipe is closed exactly once on every path: a run whose pipe has not
/// been closed asks for it to be closed at most once, whatever events
/// follow, and has asked exactly once as soon as the pipe counts as closed.
/// A run that ends with a process that was started has done so.
pub proof fn lemma_pipe_closed_once(run: RunView, events: Seq<EventView>)
    requires
        unclosed(run.phase),
    ensures
        closes(actions(run, events)) == if unclosed(after(run, events).phase) {
            0nat
        } else {
            1nat
        },
        pipe_open(run.phase) && after(run, events).phase is Done ==> closes(actions(run, events))
            == 1,
    decreases events.len(),
{
    if events.len() > 0 {
        let step = next(run, events.first());
        let rest = events.drop_first();
        lemma_closes_cons(step.action, actions(step.run, rest));
        if unclosed(step.run.phase) {
            lemma_pipe_closed_once(step.run, rest);
            if pipe_open(run.phase) {
                assert(pipe_open(step.run.phase));
            }
        } else {
            lemma_closed_stays_closed(step.run, rest);
        }
    }
}

/// Whether none of `actions` writes into the pipe.
pub open spec fn writes_nothing(actions: Seq<ActionView>) -> bool {
    forall|i: int| 0 <= i < actions.len() ==> !(#[trigger] actions[i] is Write)
}

/// Whether none of `actions` kills the process.
pub open spec fn kills_nothing(actions: Seq<ActionView>) -> bool {
    forall|i: int| 0 <= i < actions.len() ==> !(#[trigger] actions[i] is Kill)
}

/// Bytes are written only on the arrival of the body: a run that is past
/// the reading of the body writes nothing more, whatever events follow.
pub proof fn lemma_no_write_past_reading(run: RunView, events: Seq<EventView>)
    requires
        progress(run.phase) >= 2,
    ensures
        writes_nothing(actions(run, events)),
    decreases events.len(),
{
    if events.len() > 0 {
        let step = next(run, events.first());
        let rest = events.drop_first();
        lemma_step_keeps_settings(run, events.first());
        lemma_no_write_past_reading(step.run, rest);
        let all = actions(run, events);
        assert forall|i: int| 0 <= i < all.len() implies !(#[trigger] all[i] is Write) by {
            if i > 0 {
                assert(all[i] == actions(step.run, rest)[i - 1]);
            }
        }
    }
}

/// A body that passes its check is forwarded whole and in order, and the
/// pipe is closed as soon as the write has ended, however it went.
pub proof fn lemma_body_forwarded(run: RunView, body: Seq<u8>, written: PipeResult)
    requires
        run.phase == Phase::Reading,
        passes(run.verifier, body),
    ensures
        actions(run, seq![EventView::BodyRead(body), EventView::Written(written)]) == seq![
            ActionView::Write(body),
            ActionView::ClosePipe,
        ],
{
    let events = seq![EventView::BodyRead(body), EventView::Written(written)];
    let first = next(run, EventView::BodyRead(body));
    let rest = events.drop_first();
    assert(rest =~= seq![EventView::Written(written)]);
    assert(rest.drop_first() =~= Seq::<EventView>::empty());
    let second = next(first.run, EventView::Written(written));
    assert(actions(second.run, rest.drop_first()) =~= Seq::<ActionView>::empty());
    assert(actions(first.run, rest) =~= seq![second.action]);
    assert(actions(run, events) =~= seq![first.action, second.action]);
}

/// For a hook without a secret, any body whatever is forwarded byte for
/// byte and in order, and the pipe is then closed.
pub proof fn lemma_unguarded_body_forwarded(run: RunView, body: Seq<u8>, written: PipeResult)
    requires
        run.phase == Phase::Reading,
        run.verifier is None,
    ensures
        actions(run, seq![EventView::BodyRead(body), EventView::Written(written)]) == seq![
            ActionView::Write(body),
            ActionView::ClosePipe,
        ],
{
    lemma_body_forwarded(run, body, written);
}

/// A body that fails its check never reaches the process: the pipe is closed
/// at once, no byte is written then or later, and the process is supervised
/// all the same.
pub proof fn lemma_forged_body_withheld(run: RunView, body: Seq<u8>, later: Seq<EventView>)
    requires
        run.phase == Phase::Reading,
        !passes(run.verifier, body),
    ensures
        next(run, EventView::BodyRead(body)).action == ActionView::ClosePipe,
        next(run, EventView::BodyRead(body)).run.phase == Phase::Closing(None),
        writes_nothing(actions(run, seq![EventView::BodyRead(body)] + later)),
        next(
            next(run, EventView::BodyRead(body)).run,
            EventView::Closed(PipeResult::Done),
        ).run.phase == Phase::Waiting,
{
    let events = seq![EventView::BodyRead(body)] + later;
    let step = next(run, EventView::BodyRead(body));
    assert(events.drop_first() =~= later);
    lemma_no_write_past_reading(step.run, later);
    let all = actions(run, events);
    assert forall|i: int| 0 <= i < all.len() implies !(#[trigger] all[i] is Write) by {
        if i > 0 {
            assert(all[i] == actions(step.run, later)[i - 1]);
        }
    }
}

/// A timeout of zero never kills: a run without a time limit asks for no
/// kill, whatever events reach it and however long its process runs.
pub proof fn lemma_unlimited_never_kills(run: RunView, events: Seq<EventView>)
    requires
        run.timeout.unlimited(),
    ensures
        kills_nothing(actions(run, events)),
    decreases events.len(),
{
    if events.len() > 0 {
        let step = next(run, events.first());
        let rest = events.drop_first();
        lemma_unlimited_never_kills(step.run, rest);
        let all = actions(run, events);
        assert forall|i: int| 0 <= i < all.len() implies !(#[trigger] all[i] is Kill) by {
            if i > 0 {
                assert(all[i] == actions(step.run, rest)[i - 1]);
            }
        }
    }
}

/// A run that is over, or whose process was killed already, asks for no kill.
pub proof fn lemma_no_kill_past_waiting(run: RunView, events: Seq<EventView>)
    requires
        progress(run.phase) >= 5,
    ensures
        kills_nothing(actions(run, events)),
    decreases events.len(),
{
    if events.len() > 0 {
        let step = next(run, events.first());
        let rest = events.drop_first();
        lemma_step_keeps_settings(run, events.first());
        lemma_no_kill_past_waiting(step.run, rest);
        let all = actions(run, events);
        assert forall|i: int| 0 <= i < all.len() implies !(#[trigger] all[i] is Kill) by {
            if i > 0 {
                assert(all[i] == actions(step.run, rest)[i - 1]);
            }
        }
    }
}

/// Under a timeout that is not zero, a process that is still running when
/// the timer runs out is killed, and then waited for without a limit.
pub proof fn lemma_expiry_kills(run: RunView)
    requires
        run.phase == Phase::Waiting,
        !run.timeout.unlimited(),
    ensures
        next(run, EventView::Woken { exit: None, expired: true }).action == ActionView::Kill,
        next(run, EventView::Woken { exit: None, expired: true }).run.phase == Phase::Reaping,
        next(run, EventView::Woken { exit: None, expired: false }).action == (ActionView::Await {
            limit: Some(run.timeout.secs),
        }),
{
}

/// A process that is seen to have exited is never killed: the exit ends the
/// run even where the timer has run out at the same moment, and no kill
/// follows, whatever events come later.
pub proof fn lemma_exit_wins(run: RunView, exit: Wait, expired: bool, later: Seq<EventView>)
    requires
        run.phase == Phase::Waiting,
    ensures
        next(run, EventView::Woken { exit: Some(exit), expired }).action == ActionView::Finish,
        next(run, EventView::Woken { exit: Some(exit), expired }).run.phase is Done,
        kills_nothing(
            actions(run, seq![EventView::Woken { exit: Some(exit), expired }] + later),
        ),
{
    let event = EventView::Woken { exit: Some(exit), expired };
    let events = seq![event] + later;
    let step = next(run, event);
    assert(events.drop_first() =~= later);
    lemma_no_kill_past_waiting(step.run, later);
    let all = actions(run, events);
    assert forall|i: int| 0 <= i < all.len() implies !(#[trigger] all[i] is Kill) by {
        if i > 0 {
            assert(all[i] == actions(step.run, later)[i - 1]);
        }
    }
}

} // verus!
