//! What holds of the debouncer on every input, proved over its model.

use vstd::prelude::*;
use crate::state::{elapsed, ButtonEvent, ClickModel, Decision};

verus! {

/// The count of pending releases moves only with a swallowed event: up by
/// one on a swallowed press, down by one on a swallowed release. The
/// reference time moves only on an accepted press, and then to that press.
pub proof fn lemma_memory_moves_with_decisions(m: ClickModel, threshold: int, now: int)
    ensures
        m.down_decision(threshold, now) == Decision::Suppress ==> {
            &&& m.after_down(threshold, now).pending == m.pending + 1
            &&& m.after_down(threshold, now).last_down == m.last_down
        },
        m.down_decision(threshold, now) == Decision::Pass ==> {
            &&& m.after_down(threshold, now).pending == m.pending
            &&& m.after_down(threshold, now).last_down == Some(now)
        },
        m.up_decision() == Decision::Suppress ==> m.after_up().pending + 1 == m.pending,
        m.up_decision() == Decision::Pass ==> m.after_up().pending == m.pending,
        m.after_up().last_down == m.last_down,
{
}

/// A bounce and the release that follows it are both swallowed, and the
/// memory is then what it was before the bounce.
pub proof fn lemma_bounce_pairs_with_next_release(m: ClickModel, threshold: int, now: int)
    requires
        m.is_bounce(threshold, now),
    ensures
        m.down_decision(threshold, now) == Decision::Suppress,
        m.after_down(threshold, now).up_decision() == Decision::Suppress,
        m.after_down(threshold, now).after_up() == m,
{
}

/// With nothing pending, any number of releases all pass and leave the
/// memory as it is, the count at zero.
pub proof fn lemma_releases_at_rest_pass(m: ClickModel, n: nat)
    requires
        m.pending == 0,
    ensures
        m.after_ups(n) == m,
        forall|k: nat| k <= n ==> (#[trigger] m.after_ups(k)).up_decision() == Decision::Pass,
{
    lemma_releases_at_rest_keep(m, n);
    assert forall|k: nat| k <= n implies (#[trigger] m.after_ups(k)).up_decision()
        == Decision::Pass by {
        lemma_releases_at_rest_keep(m, k);
    }
}

/// With nothing pending, `n` releases leave the memory as it is.
proof fn lemma_releases_at_rest_keep(m: ClickModel, n: nat)
    requires
        m.pending == 0,
    ensures
        m.after_ups(n) == m,
    decreases n,
{
    if n > 0 {
        lemma_releases_at_rest_keep(m, (n - 1) as nat);
    }
}

/// The comparison with the threshold is strict: a press exactly the
/// threshold after the last accepted press passes and becomes the new
/// reference, while one tick earlier it is still a bounce.
pub proof fn lemma_press_at_threshold_passes(m: ClickModel, threshold: int, accepted: int)
    requires
        m.last_down == Some(accepted),
    ensures
        m.down_decision(threshold, accepted + threshold) == Decision::Pass,
        m.after_down(threshold, accepted + threshold).last_down == Some(accepted + threshold),
        threshold > 0 ==> m.down_decision(threshold, accepted + threshold - 1)
            == Decision::Suppress,
{
}

/// A bounce does not become the reference: whatever press comes next is
/// judged as if the bounce had not happened, against the time of the last
/// accepted press.
pub proof fn lemma_bounce_keeps_reference(m: ClickModel, threshold: int, bounce: int, next: int)
    requires
        m.is_bounce(threshold, bounce),
    ensures
        m.after_down(threshold, bounce).last_down == m.last_down,
        m.after_down(threshold, bounce).down_decision(threshold, next) == m.down_decision(
            threshold,
            next,
        ),
{
}

/// A burst of presses that all fall inside the window of one accepted press
/// is swallowed whole: each adds one to the count and none moves the
/// reference time.
pub proof fn lemma_burst_is_swallowed(m: ClickModel, threshold: int, times: Seq<int>)
    requires
        m.last_down is Some,
        forall|i: int| 0 <= i < times.len() ==> elapsed(m.last_down->0, #[trigger] times[i]) < threshold,
    ensures
        m.after_downs(threshold, times).last_down == m.last_down,
        m.after_downs(threshold, times).pending == m.pending + times.len(),
        forall|i: int| 0 <= i < times.len() ==> (#[trigger] m.after_downs(threshold, times.take(i))).down_decision(
            threshold,
            times[i],
        ) == Decision::Suppress,
    decreases times.len(),
{
    if times.len() > 0 {
        let head = times.drop_last();
        lemma_burst_is_swallowed(m, threshold, head);
        assert forall|i: int| 0 <= i < times.len() implies (#[trigger] m.after_downs(
            threshold,
            times.take(i),
        )).down_decision(threshold, times[i]) == Decision::Suppress by {
            if i < times.len() - 1 {
                assert(times.take(i) =~= head.take(i));
                assert(times[i] == head[i]);
            } else {
                assert(times.take(i) =~= head);
            }
        }
    }
}

/// As many releases as there are pending are swallowed, one after the
/// other, and take the count to zero; the release after them passes.
pub proof fn lemma_pending_releases_are_swallowed(m: ClickModel)
    ensures
        forall|k: nat| k < m.pending ==> (#[trigger] m.after_ups(k)).up_decision() == Decision::Suppress,
        m.after_ups(m.pending).pending == 0,
        m.after_ups(m.pending).last_down == m.last_down,
        m.after_ups(m.pending).up_decision() == Decision::Pass,
{
    assert forall|k: nat| k <= m.pending implies (#[trigger] m.after_ups(k)).pending == m.pending - k
        && m.after_ups(k).last_down == m.last_down by {
        lemma_releases_count_down(m, k);
    }
}

/// Up to the number pending, `n` releases take `n` off the count.
proof fn lemma_releases_count_down(m: ClickModel, n: nat)
    requires
        n <= m.pending,
    ensures
        m.after_ups(n).pending == m.pending - n,
        m.after_ups(n).last_down == m.last_down,
    decreases n,
{
    if n > 0 {
        lemma_releases_count_down(m, (n - 1) as nat);
    }
}

/// Every swallowed press of a burst is paired with one swallowed release:
/// after a burst inside the window and as many releases as the burst had
/// presses, the memory is what it was before the burst.
pub proof fn lemma_burst_pairs_with_releases(m: ClickModel, threshold: int, times: Seq<int>)
    requires
        m.last_down is Some,
        forall|i: int| 0 <= i < times.len() ==> elapsed(m.last_down->0, #[trigger] times[i]) < threshold,
    ensures
        forall|k: nat| k < times.len() ==> (#[trigger] m.after_downs(threshold, times).after_ups(k)).up_decision()
            == Decision::Suppress,
        m.after_downs(threshold, times).after_ups(times.len()) == m,
{
    lemma_burst_is_swallowed(m, threshold, times);
    let burst = m.after_downs(threshold, times);
    lemma_pending_releases_are_swallowed(burst);
    lemma_releases_count_down(burst, times.len());
}

/// Swallowed presses and swallowed releases stay in balance over any run of
/// events: the count of pending releases is what it was at the start, plus
/// the presses swallowed since, less the releases swallowed since. So no more
/// releases are ever swallowed than presses were, and the count is zero
/// exactly when each swallowed press has had its release swallowed.
pub proof fn lemma_swallowed_events_balance(
    m: ClickModel,
    threshold: int,
    events: Seq<(ButtonEvent, int)>,
)
    ensures
        m.after_events(threshold, events).pending + m.swallowed(threshold, events, ButtonEvent::Up)
            == m.pending + m.swallowed(threshold, events, ButtonEvent::Down),
    decreases events.len(),
{
    if events.len() > 0 {
        lemma_swallowed_events_balance(m, threshold, events.drop_last());
    }
}

} // verus!
