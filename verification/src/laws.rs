//! The guarantees the debounce policy gives over whole event histories.
//!
//! Time enters the policy only through ordering: a debounce timer scheduled
//! by a focus loss expires strictly after every notification that arrived
//! within its delay window. A history is therefore a sequence of events, and
//! "the last call before the delay elapses" becomes "the last event before
//! the expiries". The lemmas here quantify over all such histories.

use vstd::prelude::*;

use crate::controller::Command;
use crate::controller::Event;
use crate::controller::VisibilityController;
use crate::controller::VisibilityState;
use crate::controller::apply_command;
use crate::controller::run_events;
use crate::controller::step;

verus! {

/// Every event in the sequence is a focus notification.
pub open spec fn all_focus_events(es: Seq<Event>) -> bool {
    forall|i: int| 0 <= i < es.len()
        ==> es[i] == Event::FocusLost || es[i] == Event::FocusGained
}

/// Every event in the sequence is an external notification, not a timer
/// expiry.
pub open spec fn all_notifications(es: Seq<Event>) -> bool {
    forall|i: int| 0 <= i < es.len() ==> es[i] != Event::TimerExpiry
}

/// A run of timer expiries, one for each timer still in flight.
pub open spec fn expiries(n: nat) -> Seq<Event> {
    Seq::new(n, |i: int| Event::TimerExpiry)
}

/// Focus notifications decide only the hide intent; they never move the
/// window.
proof fn lemma_focus_events_preserve_visibility(s: VisibilityController, es: Seq<Event>)
    requires
        all_focus_events(es),
    ensures
        run_events(s, es).visibility == s.visibility,
    decreases es.len(),
{
    if es.len() > 0 {
        assert(all_focus_events(es.drop_last()));
        lemma_focus_events_preserve_visibility(s, es.drop_last());
    }
}

/// While no hide is pending, expiring timers change nothing at all.
proof fn lemma_expiries_noop_without_intent(s: VisibilityController, n: nat)
    requires
        !s.hide_intent,
    ensures
        run_events(s, expiries(n)) == s,
    decreases n,
{
    if n > 0 {
        assert(expiries(n).drop_last() =~= expiries((n - 1) as nat));
        lemma_expiries_noop_without_intent(s, (n - 1) as nat);
    }
}

/// Once the window is hidden and the intent still stands, further expiring
/// timers leave the state exactly where it is.
proof fn lemma_expiries_keep_hidden(s: VisibilityController, n: nat)
    requires
        s.hide_intent,
        s.visibility == VisibilityState::Hidden,
    ensures
        run_events(s, expiries(n)) == s,
    decreases n,
{
    if n > 0 {
        assert(expiries(n).drop_last() =~= expiries((n - 1) as nat));
        lemma_expiries_keep_hidden(s, (n - 1) as nat);
    }
}

/// A focus gain that arrives last cancels the pending hide for good: after
/// any burst of focus notifications whose final one is a focus gain, every
/// timer those losses scheduled expires as a no-op, and the window is never
/// hidden as a result of the burst.
pub proof fn lemma_focus_gain_last_never_hides(
    s: VisibilityController,
    es: Seq<Event>,
    n: nat,
)
    requires
        es.len() > 0,
        all_focus_events(es),
        es.last() == Event::FocusGained,
    ensures
        run_events(run_events(s, es), expiries(n)) == run_events(s, es),
        run_events(run_events(s, es), expiries(n)).visibility == s.visibility,
{
    let after = run_events(s, es);
    assert(after == step(run_events(s, es.drop_last()), Event::FocusGained));
    assert(!after.hide_intent);
    lemma_expiries_noop_without_intent(after, n);
    lemma_focus_events_preserve_visibility(s, es);
}

/// A focus loss that no later notification cancels hides the window exactly
/// once: the first timer to expire moves the window to hidden, and every
/// further expiry leaves the state unchanged, so any number of in-flight
/// timers converge to the single state that one expiry produces.
pub proof fn lemma_uncancelled_loss_hides_exactly_once(
    s: VisibilityController,
    es: Seq<Event>,
    n: nat,
)
    requires
        es.len() > 0,
        all_notifications(es),
        es.last() == Event::FocusLost,
        n >= 1,
    ensures
        run_events(run_events(s, es), expiries(n)).visibility == VisibilityState::Hidden,
        run_events(run_events(s, es), expiries(n)) == step(run_events(s, es), Event::TimerExpiry),
{
    let after = run_events(s, es);
    assert(after == step(run_events(s, es.drop_last()), Event::FocusLost));
    assert(after.hide_intent);
    let hidden = step(after, Event::TimerExpiry);
    assert(hidden.visibility == VisibilityState::Hidden);
    assert(hidden.hide_intent);
    lemma_expiries_keep_hidden(hidden, (n - 1) as nat);
    assert(expiries(n).drop_first() =~= expiries((n - 1) as nat));
    lemma_run_events_first_step(after, expiries(n));
}

/// Running a non-empty sequence is one step on its first event, then the
/// rest.
proof fn lemma_run_events_first_step(s: VisibilityController, es: Seq<Event>)
    requires
        es.len() > 0,
    ensures
        run_events(s, es) == run_events(step(s, es.first()), es.drop_first()),
    decreases es.len(),
{
    if es.len() == 1 {
        assert(es.drop_last() =~= Seq::<Event>::empty());
        assert(es.drop_first() =~= Seq::<Event>::empty());
    } else {
        lemma_run_events_first_step(s, es.drop_last());
        assert(es.drop_last().first() == es.first());
        assert(es.drop_last().drop_first() =~= es.drop_first().drop_last());
        assert(es.drop_first().last() == es.last());
    }
}

/// The two visibility effects are absolute, so issuing one redundantly is a
/// safe no-op: hiding an already-hidden window and showing an
/// already-visible one leave the window where it is.
pub proof fn lemma_redundant_effects_are_noops(v: VisibilityState)
    ensures
        v == VisibilityState::Hidden ==> apply_command(v, Command::Hide) == v,
        v == VisibilityState::Visible ==> apply_command(v, Command::ShowAndFocus) == v,
        apply_command(apply_command(v, Command::Hide), Command::Hide)
            == apply_command(v, Command::Hide),
        apply_command(apply_command(v, Command::ShowAndFocus), Command::ShowAndFocus)
            == apply_command(v, Command::ShowAndFocus),
{
}

} // verus!
