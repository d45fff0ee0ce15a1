//! Byte accounting for one streamed transfer and the progress events derived
//! from it.
use vstd::prelude::*;

verus! {

/// One observation of a transfer's progress.
#[derive(Clone, Copy, Debug, PartialEq, Eq, Structural)]
pub struct ProgressEvent {
    pub bytes_transferred: u64,
    pub total_bytes: u64,
    pub percent: u64,
}

/// The share of `total` that `done` makes, in whole percent, capped at 100.
pub open spec fn percent_of(done: nat, total: nat) -> nat
    recommends
        total > 0,
{
    if done >= total {
        100
    } else {
        (done * 100 / total) as nat
    }
}

/// The sum of the chunk lengths in `chunks`.
pub open spec fn bytes_in(chunks: Seq<u64>) -> nat
    decreases chunks.len(),
{
    if chunks.len() == 0 {
        0
    } else {
        bytes_in(chunks.drop_last()) + chunks.last() as nat
    }
}

/// The running count of one transfer: bytes consumed so far, and the
/// announced total (`0` when unknown).
pub struct Transfer {
    transferred: u64,
    total: u64,
}

impl Transfer {
    pub closed spec fn transferred_spec(&self) -> nat {
        self.transferred as nat
    }

    pub closed spec fn total_spec(&self) -> nat {
        self.total as nat
    }

    /// A fresh transfer whose announced size is `total` (`0` if unknown).
    pub fn new(total: u64) -> (r: Transfer)
        ensures
            r.transferred_spec() == 0,
            r.total_spec() == total,
    {
        Transfer { transferred: 0, total }
    }

    pub fn transferred(&self) -> (r: u64)
        ensures
            r == self.transferred_spec(),
    {
        self.transferred
    }

    pub fn total(&self) -> (r: u64)
        ensures
            r == self.total_spec(),
    {
        self.total
    }

    /// Accounts for a chunk of `len` bytes; when the total is known, returns
    /// the progress event that follows it.
    pub fn consume(&mut self, len: u64) -> (ev: Option<ProgressEvent>)
        requires
            old(self).transferred_spec() + len <= u64::MAX,
        ensures
            final(self).transferred_spec() == old(self).transferred_spec() + len,
            final(self).total_spec() == old(self).total_spec(),
            old(self).transferred_spec() <= final(self).transferred_spec(),
            match ev {
                Some(e) => old(self).total_spec() > 0 && e.bytes_transferred
                    == final(self).transferred_spec() && e.total_bytes == old(self).total_spec()
                    && e.percent == percent_of(
                    final(self).transferred_spec(),
                    old(self).total_spec(),
                ),
                None => old(self).total_spec() == 0,
            },
    {
        self.transferred = self.transferred + len;
        if self.total == 0 {
            return None;
        }
        let percent = percent(self.transferred, self.total);
        Some(ProgressEvent { bytes_transferred: self.transferred, total_bytes: self.total, percent })
    }
}

/// `percent_of(done, total)` computed without overflow.
pub fn percent(done: u64, total: u64) -> (r: u64)
    requires
        total > 0,
    ensures
        r == percent_of(done as nat, total as nat),
        r <= 100,
{
    if done >= total {
        return 100;
    }
    let wide: u128 = (done as u128) * 100 / (total as u128);
    proof {
        assert((done as int) * 100 / (total as int) <= 100) by (nonlinear_arith)
            requires
                done < total,
                total > 0,
        ;
    }
    wide as u64
}

/// While the chunks of one transfer are consumed in order, each `consume`
/// adds the next chunk's length to the count (so the count after `i` chunks
/// is `bytes_in(chunks.take(i))`); that count never decreases, and once all
/// chunks are consumed it equals the bytes written, the sum of their lengths.
pub proof fn lemma_progress_monotone(chunks: Seq<u64>, i: int, j: int)
    requires
        0 <= i <= j <= chunks.len(),
    ensures
        i < chunks.len() ==> bytes_in(chunks.take(i + 1)) == bytes_in(chunks.take(i))
            + chunks[i],
        bytes_in(chunks.take(i)) <= bytes_in(chunks.take(j)),
        bytes_in(chunks.take(chunks.len() as int)) == bytes_in(chunks),
    decreases j - i,
{
    assert(chunks.take(chunks.len() as int) =~= chunks);
    if i < chunks.len() {
        assert(chunks.take(i + 1).drop_last() =~= chunks.take(i));
    }
    if i < j {
        lemma_progress_monotone(chunks, i, j - 1);
        assert(chunks.take(j).drop_last() =~= chunks.take(j - 1));
    }
}

/// A run of one transfer: `states[k]` is the transfer after `k` chunks,
/// each obtained from the one before by `consume` of `chunks[k]`, starting
/// from a fresh transfer. The count after `k` chunks is the sum of their
/// lengths, it never decreases, and at the end it equals the bytes written.
pub proof fn lemma_transfer_run(states: Seq<Transfer>, chunks: Seq<u64>)
    requires
        states.len() == chunks.len() + 1,
        states[0].transferred_spec() == 0,
        forall|k: int|
            0 <= k < chunks.len() ==> #[trigger] states[k + 1].transferred_spec()
                == states[k].transferred_spec() + chunks[k],
    ensures
        forall|k: int|
            0 <= k < states.len() ==> #[trigger] states[k].transferred_spec() == bytes_in(
                chunks.take(k),
            ),
        forall|i: int, j: int|
            0 <= i <= j < states.len() ==> #[trigger] states[i].transferred_spec()
                <= #[trigger] states[j].transferred_spec(),
        states.last().transferred_spec() == bytes_in(chunks),
    decreases chunks.len(),
{
    if chunks.len() == 0 {
        assert(chunks.take(0) =~= Seq::<u64>::empty());
    } else {
        let n = chunks.len() - 1;
        let pre = states.drop_last();
        let pc = chunks.drop_last();
        assert forall|k: int| 0 <= k < pc.len() implies #[trigger] pre[k + 1].transferred_spec()
            == pre[k].transferred_spec() + pc[k] by {
            assert(states[k + 1].transferred_spec() == states[k].transferred_spec() + chunks[k]);
        }
        lemma_transfer_run(pre, pc);
        assert forall|k: int| 0 <= k < states.len() implies #[trigger] states[k].transferred_spec()
            == bytes_in(chunks.take(k)) by {
            if k < states.len() - 1 {
                assert(pre[k] == states[k]);
                assert(pc.take(k) =~= chunks.take(k));
            } else {
                assert(pre[n] == states[n]);
                assert(pc.take(n) =~= chunks.take(n));
                assert(states[n + 1].transferred_spec() == states[n].transferred_spec()
                    + chunks[n]);
                lemma_progress_monotone(chunks, n, n);
            }
        }
        assert forall|i: int, j: int| 0 <= i <= j < states.len() implies #[trigger] states[
            i].transferred_spec() <= #[trigger] states[j].transferred_spec() by {
            lemma_progress_monotone(chunks, i, j);
        }
        lemma_progress_monotone(chunks, n + 1, n + 1);
    }
}

/// The percentage reported never decreases as the count grows.
pub proof fn lemma_percent_monotone(a: nat, b: nat, total: nat)
    requires
        a <= b,
        total > 0,
    ensures
        percent_of(a, total) <= percent_of(b, total),
{
    if b < total {
        assert(a * 100 / total <= b * 100 / total) by (nonlinear_arith)
            requires
                a <= b,
                total > 0,
        ;
    } else if a < total {
        assert(a * 100 / total <= 100) by (nonlinear_arith)
            requires
                a < total,
                total > 0,
        ;
    }
}

} // verus!
