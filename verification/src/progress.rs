//! Progress of a long transfer, as whole percentages that only ever rise.
//!
//! A transport reports far more ticks than there are percentage points. The
//! reporter lets a tick through only where it raises the percentage, so what
//! becomes visible is a strictly increasing run of values up to 100.
use vstd::prelude::*;
use vstd::string::*;

verus! {

/// The name under which the progress of a clone is announced.
pub const CLONE_PROGRESS_EVENT: &'static str = "clone-progress";

/// The name under which the progress of a push is announced.
pub const PUSH_PROGRESS_EVENT: &'static str = "push-progress";

/// The percentage of `total` that `completed` stands for, rounded down and
/// never above 100.
pub open spec fn percent_of(completed: nat, total: nat) -> nat
    recommends
        total > 0,
{
    if completed >= total {
        100
    } else {
        (completed * 100) / total
    }
}

/// What a tick makes visible after `last` was shown: its percentage where
/// that is higher, and nothing where it is not or where `total` is 0.
pub open spec fn sample(last: nat, completed: nat, total: nat) -> Option<nat> {
    if total > 0 && percent_of(completed, total) > last {
        Some(percent_of(completed, total))
    } else {
        None
    }
}

/// The highest percentage shown once a tick has been seen after `last`.
pub open spec fn last_after_tick(last: nat, completed: nat, total: nat) -> nat {
    match sample(last, completed, total) {
        Some(percent) => percent,
        None => last,
    }
}

/// The values that a run of ticks (`completed`, `total`) makes visible, in
/// order, after `last` was shown.
pub open spec fn emitted(last: nat, ticks: Seq<(nat, nat)>) -> Seq<nat>
    decreases ticks.len(),
{
    if ticks.len() == 0 {
        Seq::empty()
    } else {
        let shown = sample(last, ticks.first().0, ticks.first().1);
        let rest = emitted(
            last_after_tick(last, ticks.first().0, ticks.first().1),
            ticks.drop_first(),
        );
        match shown {
            Some(percent) => seq![percent] + rest,
            None => rest,
        }
    }
}

/// The highest percentage shown once a run of ticks has been seen after
/// `last`.
pub open spec fn last_after(last: nat, ticks: Seq<(nat, nat)>) -> nat
    decreases ticks.len(),
{
    if ticks.len() == 0 {
        last
    } else {
        last_after(last_after_tick(last, ticks.first().0, ticks.first().1), ticks.drop_first())
    }
}

/// One visible step of progress.
#[derive(Clone, Debug, PartialEq, Eq)]
pub struct ProgressSample {
    /// What the operation is doing.
    pub phase: String,
    /// How far it is, from 0 to 100.
    pub value: usize,
}

/// The state of one operation's progress: the highest percentage shown so
/// far. Each operation starts a reporter of its own.
#[derive(Debug)]
pub struct ProgressReporter {
    last_percent: usize,
}

impl ProgressReporter {
    #[verifier::type_invariant]
    spec fn in_range(self) -> bool {
        self.last_percent <= 100
    }

    /// The highest percentage shown so far.
    pub closed spec fn last(&self) -> nat {
        self.last_percent as nat
    }

    /// A reporter that has shown nothing yet.
    pub fn new() -> (r: ProgressReporter)
        ensures
            r.last() == 0,
    {
        ProgressReporter { last_percent: 0 }
    }

    /// The highest percentage shown so far.
    pub fn last_percent(&self) -> (r: usize)
        ensures
            r == self.last(),
            r <= 100,
    {
        proof {
            use_type_invariant(self);
        }
        self.last_percent
    }

    /// Takes one tick of the transport. Returns the percentage to show, or
    /// nothing where the tick does not raise it or `total` is 0.
    pub fn observe(&mut self, completed: usize, total: usize) -> (r: Option<usize>)
        ensures
            match sample(old(self).last(), completed as nat, total as nat) {
                Some(percent) => r == Some(percent as usize),
                None => r is None,
            },
            r is Some ==> r->0 <= 100,
            final(self).last() == last_after_tick(old(self).last(), completed as nat, total as nat),
    {
        proof {
            use_type_invariant(&*self);
        }
        if total == 0 {
            return None;
        }
        let percent: usize = if completed >= total {
            100
        } else {
            let scaled: u128 = (completed as u128) * 100;
            let share: u128 = scaled / (total as u128);
            assert(share < 100) by (nonlinear_arith)
                requires
                    share == scaled / (total as u128),
                    scaled == completed * 100,
                    completed < total,
            ;
            share as usize
        };
        if percent > self.last_percent {
            self.last_percent = percent;
            Some(percent)
        } else {
            None
        }
    }
}

/// One tick of a clone: the sample to announce, if any.
pub fn clone_progress(reporter: &mut ProgressReporter, received: usize, total: usize) -> (r: Option<
    ProgressSample,
>)
    ensures
        final(reporter).last() == last_after_tick(
            old(reporter).last(),
            received as nat,
            total as nat,
        ),
        match sample(old(reporter).last(), received as nat, total as nat) {
            Some(percent) => r is Some && r->0.value == percent && r->0.phase@
                == "Downloading Objects"@,
            None => r is None,
        },
{
    match reporter.observe(received, total) {
        Some(value) => Some(
            ProgressSample { phase: String::from_str("Downloading Objects"), value },
        ),
        None => None,
    }
}

/// One tick of a push: the sample to announce, if any.
pub fn push_progress(reporter: &mut ProgressReporter, current: usize, total: usize) -> (r: Option<
    ProgressSample,
>)
    ensures
        final(reporter).last() == last_after_tick(
            old(reporter).last(),
            current as nat,
            total as nat,
        ),
        match sample(old(reporter).last(), current as nat, total as nat) {
            Some(percent) => r is Some && r->0.value == percent && r->0.phase@
                == "Pushing commits"@,
            None => r is None,
        },
{
    match reporter.observe(current, total) {
        Some(value) => Some(ProgressSample { phase: String::from_str("Pushing commits"), value }),
        None => None,
    }
}

/// The sample that closes a push that succeeded: 100, whatever was shown
/// before, since a transport does not always report its last tick.
pub fn push_completed() -> (r: ProgressSample)
    ensures
        r.value == 100,
        r.phase@ == "Push completed"@,
{
    ProgressSample { phase: String::from_str("Push completed"), value: 100 }
}

/// A percentage is at most 100.
pub proof fn lemma_percent_in_range(completed: nat, total: nat)
    requires
        total > 0,
    ensures
        percent_of(completed, total) <= 100,
{
    if completed < total {
        assert((completed * 100) / total <= 100) by (nonlinear_arith)
            requires
                completed < total,
                total > 0,
        ;
    }
}

/// What a run of ticks shows lies above what was shown before it and at
/// most at 100, and the reporter ends at the last value shown.
proof fn lemma_emitted_bounds(last: nat, ticks: Seq<(nat, nat)>)
    ensures
        forall|i: int|
            0 <= i < emitted(last, ticks).len() ==> last < #[trigger] emitted(last, ticks)[i]
                <= 100,
        emitted(last, ticks).len() == 0 ==> last_after(last, ticks) == last,
        emitted(last, ticks).len() > 0 ==> last_after(last, ticks) == emitted(last, ticks).last(),
    decreases ticks.len(),
{
    if ticks.len() > 0 {
        let next = last_after_tick(last, ticks.first().0, ticks.first().1);
        let rest = emitted(next, ticks.drop_first());
        lemma_emitted_bounds(next, ticks.drop_first());
        if ticks.first().1 > 0 {
            lemma_percent_in_range(ticks.first().0, ticks.first().1);
        }
        assert forall|i: int| 0 <= i < emitted(last, ticks).len() implies last < #[trigger] emitted(
            last,
            ticks,
        )[i] <= 100 by {
            if sample(last, ticks.first().0, ticks.first().1) is Some && i > 0 {
                assert(emitted(last, ticks)[i] == rest[i - 1]);
            }
        }
    }
}

/// The values that one operation shows rise strictly, with no repeats, and
/// stay within 1 to 100: whatever the transport reports, and in whatever
/// order.
pub proof fn law_shown_values_rise_strictly(ticks: Seq<(nat, nat)>)
    ensures
        ({
            let shown = emitted(0, ticks);
            &&& forall|i: int, j: int| 0 <= i < j < shown.len() ==> shown[i] < shown[j]
            &&& forall|i: int| 0 <= i < shown.len() ==> 0 < #[trigger] shown[i] <= 100
        }),
{
    lemma_rise_after(0, ticks);
    lemma_emitted_bounds(0, ticks);
}

/// The same, after any value already shown.
proof fn lemma_rise_after(last: nat, ticks: Seq<(nat, nat)>)
    ensures
        forall|i: int, j: int|
            0 <= i < j < emitted(last, ticks).len() ==> emitted(last, ticks)[i] < emitted(
                last,
                ticks,
            )[j],
    decreases ticks.len(),
{
    if ticks.len() > 0 {
        let next = last_after_tick(last, ticks.first().0, ticks.first().1);
        lemma_rise_after(next, ticks.drop_first());
        lemma_emitted_bounds(next, ticks.drop_first());
    }
}

/// A reporter that has stayed within 100 ends at 100 once a run holds a
/// tick that is complete.
proof fn lemma_complete_tick(last: nat, ticks: Seq<(nat, nat)>, k: int)
    requires
        last <= 100,
        0 <= k < ticks.len(),
        ticks[k].1 > 0,
        ticks[k].0 >= ticks[k].1,
    ensures
        last_after(last, ticks) == 100,
    decreases ticks.len(),
{
    let next = last_after_tick(last, ticks.first().0, ticks.first().1);
    if ticks.first().1 > 0 {
        lemma_percent_in_range(ticks.first().0, ticks.first().1);
    }
    if k == 0 {
        lemma_emitted_bounds(next, ticks.drop_first());
    } else {
        lemma_complete_tick(next, ticks.drop_first(), k - 1);
    }
}

/// An operation whose transport reports a tick with everything done ends
/// with 100 as the last value shown.
pub proof fn law_complete_tick_ends_at_100(ticks: Seq<(nat, nat)>, k: int)
    requires
        0 <= k < ticks.len(),
        ticks[k].1 > 0,
        ticks[k].0 >= ticks[k].1,
    ensures
        emitted(0, ticks).len() > 0,
        emitted(0, ticks).last() == 100,
{
    lemma_complete_tick(0, ticks, k);
    lemma_emitted_bounds(0, ticks);
}

/// A push that succeeds closes with 100 after whatever its ticks have shown.
/// The values never fall, and they rise strictly unless a tick had shown 100
/// already.
pub proof fn law_push_closes_with_100(ticks: Seq<(nat, nat)>)
    ensures
        ({
            let shown = emitted(0, ticks).push(100);
            &&& shown.last() == 100
            &&& forall|i: int, j: int| 0 <= i < j < shown.len() ==> shown[i] <= shown[j]
            &&& last_after(0, ticks) < 100 ==> forall|i: int, j: int|
                0 <= i < j < shown.len() ==> shown[i] < shown[j]
        }),
{
    lemma_rise_after(0, ticks);
    lemma_emitted_bounds(0, ticks);
    let before = emitted(0, ticks);
    let shown = before.push(100);
    assert forall|i: int, j: int| 0 <= i < j < shown.len() implies shown[i] <= shown[j] by {
        if j < before.len() {
            assert(before[i] < before[j]);
        }
    }
    if last_after(0, ticks) < 100 {
        assert forall|i: int, j: int| 0 <= i < j < shown.len() implies shown[i] < shown[j] by {
            if j < before.len() {
                assert(before[i] < before[j]);
            } else if i < before.len() - 1 {
                assert(before[i] < before.last());
            }
        }
    }
}

} // verus!
