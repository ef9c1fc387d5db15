//! The background counter: it reports `1, 2, ..., length`, one value per
//! step, and then reports nothing more.

use vstd::prelude::*;

verus! {

/// One step of the counter on mathematical integers: the new number of
/// values sent, and the value reported by this step.
pub open spec fn tick(sent: int, length: int) -> (int, Option<int>) {
    if sent < length {
        (sent + 1, Some(sent + 1))
    } else {
        (sent, None)
    }
}

/// What `k` successive steps report, starting after `sent` values.
pub open spec fn emitted(sent: int, length: int, k: nat) -> Seq<Option<int>>
    decreases k,
{
    if k == 0 {
        Seq::empty()
    } else {
        seq![tick(sent, length).1] + emitted(tick(sent, length).0, length, (k - 1) as nat)
    }
}

/// An optional machine integer seen as an optional mathematical integer.
pub open spec fn opt_int(o: Option<i32>) -> Option<int> {
    match o {
        Some(v) => Some(v as int),
        None => None,
    }
}

/// The state of the counter that a worker thread runs: `sent` values have
/// been reported out of `length`.
pub struct ProgressTicker {
    pub sent: i32,
    pub length: i32,
}

impl ProgressTicker {
    /// Never more values sent than asked for, never fewer than none.
    pub open spec fn wf(&self) -> bool {
        &&& 0 <= self.sent
        &&& (self.sent <= self.length || self.sent == 0)
    }

    /// A counter that will report `1..=length` (nothing when `length <= 0`).
    pub fn new(length: i32) -> (t: ProgressTicker)
        ensures
            t.wf(),
            t.sent == 0,
            t.length == length,
    {
        ProgressTicker { sent: 0, length }
    }

    /// A counter with one step per item of a list of `n` items.
    pub fn for_items(n: usize) -> (t: ProgressTicker)
        requires
            n <= i32::MAX,
        ensures
            t.wf(),
            t.sent == 0,
            t.length == n,
    {
        ProgressTicker { sent: 0, length: n as i32 }
    }

    /// Takes one step: reports the next value, or `None` once all values
    /// have been reported.
    pub fn next_value(&mut self) -> (out: Option<i32>)
        requires
            old(self).wf(),
        ensures
            final(self).wf(),
            final(self).length == old(self).length,
            (final(self).sent as int, opt_int(out)) == tick(old(self).sent as int, old(self).length as int),
    {
        if self.sent < self.length {
            self.sent = self.sent + 1;
            Some(self.sent)
        } else {
            None
        }
    }
}

/// After `sent` values, the next `k` steps report `sent + 1, sent + 2, ...`
/// up to `length`, and `None` from then on.
pub proof fn lemma_emitted_from(sent: int, length: int, k: nat)
    requires
        0 <= sent,
    ensures
        emitted(sent, length, k).len() == k,
        forall|i: int|
            0 <= i < k ==> #[trigger] emitted(sent, length, k)[i] == (if sent + i < length {
                Some(sent + i + 1)
            } else {
                None::<int>
            }),
    decreases k,
{
    if k > 0 {
        let (s2, out) = tick(sent, length);
        lemma_emitted_from(s2, length, (k - 1) as nat);
        let rest = emitted(s2, length, (k - 1) as nat);
        assert(emitted(sent, length, k) == seq![out] + rest);
        assert forall|i: int| 0 <= i < k implies #[trigger] emitted(sent, length, k)[i] == (if sent + i < length {
            Some(sent + i + 1)
        } else {
            None::<int>
        }) by {
            if i > 0 {
                assert(emitted(sent, length, k)[i] == rest[i - 1]);
            }
        }
    }
}

/// A fresh counter for `length` reports exactly `1, 2, ..., length`, in
/// that order, and nothing after: step `i` (from 0) reports `i + 1` while
/// `i < length`, and `None` afterwards.
pub proof fn lemma_counter_reports_one_to_length(length: int, k: nat)
    ensures
        emitted(0, length, k).len() == k,
        forall|i: int|
            0 <= i < k ==> #[trigger] emitted(0, length, k)[i] == (if i < length {
                Some(i + 1)
            } else {
                None::<int>
            }),
{
    lemma_emitted_from(0, length, k);
}

} // verus!
