use vstd::prelude::*;

use std::collections::VecDeque;

use crate::model::FocusSample;

verus! {

/// A source of focus samples: the operating system, or a scripted fake.
pub trait ActivityMonitor {
    /// The next sample, or `None` where there is none.
    fn sample(&mut self) -> Option<FocusSample>;
}

/// A monitor that replays a fixed list of samples, then reports none.
pub struct FakeMonitor {
    pending: VecDeque<FocusSample>,
}

impl View for FakeMonitor {
    type V = Seq<FocusSample>;

    /// The samples still to be handed out, in order.
    closed spec fn view(&self) -> Seq<FocusSample> {
        self.pending@
    }
}

impl FakeMonitor {
    /// A monitor that will hand out `samples` in the order given.
    pub fn new(samples: Vec<FocusSample>) -> (m: Self)
        ensures
            m@ == samples@,
    {
        let mut rest = samples;
        let mut pending: VecDeque<FocusSample> = VecDeque::new();
        let ghost all = rest@;
        while rest.len() > 0
            invariant
                rest@ + pending@ == all,
            decreases rest.len(),
        {
            let ghost before = rest@;
            let ghost queued = pending@;
            let item = rest.pop().unwrap();
            pending.push_front(item);
            assert(rest@ + pending@ =~= before + queued);
        }
        assert(pending@ =~= all);
        FakeMonitor { pending }
    }
}

impl ActivityMonitor for FakeMonitor {
    /// Hands out the first sample still pending; `None` once all are out.
    fn sample(&mut self) -> (next: Option<FocusSample>)
        ensures
            (next, final(self)@) == take_next(old(self)@),
    {
        self.pending.pop_front()
    }
}

/// What one call of `sample` does to the samples still pending: it hands out
/// the first and keeps the rest; with none pending it hands out `None`.
pub open spec fn take_next(pending: Seq<FocusSample>) -> (Option<FocusSample>, Seq<FocusSample>) {
    if pending.len() == 0 {
        (None, pending)
    } else {
        (Some(pending[0]), pending.drop_first())
    }
}

/// What `k` calls of `sample` in a row hand out, starting from `pending`.
pub open spec fn replay(pending: Seq<FocusSample>, k: nat) -> Seq<Option<FocusSample>>
    decreases k,
{
    if k == 0 {
        Seq::empty()
    } else {
        let (first, rest) = take_next(pending);
        seq![first] + replay(rest, (k - 1) as nat)
    }
}

/// A fake monitor made from `samples` hands each of them out exactly once, in
/// the order given, and `None` on every call after the last one.
pub proof fn replay_hands_out_in_order(samples: Seq<FocusSample>, k: nat)
    ensures
        replay(samples, k).len() == k,
        forall|i: int|
            0 <= i < k ==> #[trigger] replay(samples, k)[i] == if i < samples.len() {
                Some(samples[i])
            } else {
                None
            },
    decreases k,
{
    if k > 0 {
        let (first, rest) = take_next(samples);
        replay_hands_out_in_order(rest, (k - 1) as nat);
        let out = replay(samples, k);
        assert(out == seq![first] + replay(rest, (k - 1) as nat));
        assert forall|i: int| 0 <= i < k implies #[trigger] out[i] == if i < samples.len() {
            Some(samples[i])
        } else {
            None
        } by {
            if i > 0 {
                assert(out[i] == replay(rest, (k - 1) as nat)[i - 1]);
                if samples.len() > 0 {
                    assert(rest == samples.drop_first());
                    if i < samples.len() {
                        assert(rest[i - 1] == samples[i]);
                    }
                }
            }
        }
    }
}

} // verus!
