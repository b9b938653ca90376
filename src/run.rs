use vstd::prelude::*;
use crate::config::RunConfig;
use crate::transport::{bin_index, bin_of};

verus! {

/// Number of equal-width bins of escape cosine covering `[0, 1)`.
pub const N_BINS: usize = 45;

/// Sum of a sequence of counts.
pub open spec fn total(s: Seq<u64>) -> int
    decreases s.len(),
{
    if s.len() == 0 {
        0
    } else {
        total(s.drop_last()) + s.last()
    }
}

/// Number of packet counts `k` in `1..=n` at which a notification is due,
/// that is, the multiples of `interval` up to `n`.
pub open spec fn ticks_upto(n: nat, interval: nat) -> nat
    decreases n,
{
    if n == 0 {
        0
    } else {
        ticks_upto((n - 1) as nat, interval) + if n % interval == 0 { 1nat } else { 0nat }
    }
}

/// How many entries of `h` equal `b`.
pub open spec fn occurrences(h: Seq<int>, b: int) -> nat
    decreases h.len(),
{
    if h.len() == 0 {
        0
    } else {
        occurrences(h.drop_last(), b) + if h.last() == b { 1nat } else { 0nat }
    }
}

/// Raising one entry of a sequence by `d` raises its total by `d`.
pub proof fn lemma_total_update(s: Seq<u64>, i: int, v: u64)
    requires
        0 <= i < s.len(),
    ensures
        total(s.update(i, v)) == total(s) - s[i] + v,
    decreases s.len(),
{
    let t = s.update(i, v);
    if i == s.len() - 1 {
        assert(t.drop_last() =~= s.drop_last());
    } else {
        lemma_total_update(s.drop_last(), i, v);
        assert(t.drop_last() =~= s.drop_last().update(i, v));
    }
}

/// The total of a sequence bounds each of its entries.
pub proof fn lemma_entry_le_total(s: Seq<u64>, i: int)
    requires
        0 <= i < s.len(),
    ensures
        s[i] <= total(s),
    decreases s.len(),
{
    lemma_total_nonneg(s.drop_last());
    if i < s.len() - 1 {
        lemma_entry_le_total(s.drop_last(), i);
    }
}

/// A total of counts is never negative.
pub proof fn lemma_total_nonneg(s: Seq<u64>)
    ensures
        total(s) >= 0,
    decreases s.len(),
{
    if s.len() > 0 {
        lemma_total_nonneg(s.drop_last());
    }
}

/// Over the packet counts `1..=n`, a notification every `interval` packets
/// is due exactly `n / interval` times.
pub proof fn lemma_ticks_upto(n: nat, interval: nat)
    requires
        interval >= 1,
    ensures
        ticks_upto(n, interval) == n / interval,
    decreases n,
{
    if n > 0 {
        lemma_ticks_upto((n - 1) as nat, interval);
        let q = ((n - 1) as nat) / interval;
        let r = ((n - 1) as nat) % interval;
        vstd::arithmetic::div_mod::lemma_fundamental_div_mod((n - 1) as int, interval as int);
        if r + 1 == interval {
            assert(n == (q + 1) * interval) by (nonlinear_arith)
                requires
                    n - 1 == interval * q + r,
                    r + 1 == interval,
            ;
            vstd::arithmetic::div_mod::lemma_fundamental_div_mod_converse(
                n as int,
                interval as int,
                (q + 1) as int,
                0,
            );
        } else {
            vstd::arithmetic::div_mod::lemma_fundamental_div_mod_converse(
                n as int,
                interval as int,
                q as int,
                (r + 1) as int,
            );
        }
    }
}

/// The state of a run: the escape histogram and the number of packets
/// transported so far. Every packet weighs `1`, so a bin's accumulated
/// weight is the number of packets that escaped into it.
pub struct Run {
    weights: Vec<u64>,
    done: u32,
    n_photons: u32,
    progress_interval: u32,
    escapes: Ghost<Seq<int>>,
    notified: Ghost<nat>,
}

impl Run {
    /// The accumulated weight of each bin.
    pub closed spec fn weights_view(&self) -> Seq<u64> {
        self.weights@
    }

    /// The bins of the packets that escaped so far, in order.
    pub closed spec fn escapes(&self) -> Seq<int> {
        self.escapes@
    }

    /// How many progress notifications have been due so far.
    pub closed spec fn notified(&self) -> nat {
        self.notified@
    }

    pub closed spec fn done_spec(&self) -> nat {
        self.done as nat
    }

    pub closed spec fn n_photons_spec(&self) -> nat {
        self.n_photons as nat
    }

    pub closed spec fn progress_interval_spec(&self) -> nat {
        self.progress_interval as nat
    }

    /// The bins sum to the number of packets transported, which never
    /// exceeds the packet budget.
    pub closed spec fn wf(&self) -> bool {
        &&& self.weights@.len() == N_BINS
        &&& self.n_photons >= 1
        &&& self.progress_interval >= 1
        &&& self.done <= self.n_photons
        &&& total(self.weights@) == self.done
        &&& self.escapes@.len() == self.done
        &&& forall|b: int|
            0 <= b < N_BINS ==> #[trigger] self.weights@[b] == occurrences(self.escapes@, b)
        &&& self.notified@ == ticks_upto(self.done as nat, self.progress_interval as nat)
    }

    /// Once every packet of the budget has been transported, the weights of
    /// all bins sum to the number of packets.
    pub proof fn lemma_completed_run_total(&self)
        requires
            self.wf(),
            self.done_spec() == self.n_photons_spec(),
        ensures
            total(self.weights_view()) == self.n_photons_spec(),
            self.weights_view().len() == N_BINS,
    {
    }

    /// Once every packet of the budget has been transported, a progress
    /// notification has been due exactly `n_photons / progress_interval`
    /// times.
    pub proof fn lemma_completed_run_notifications(&self)
        requires
            self.wf(),
            self.done_spec() == self.n_photons_spec(),
        ensures
            self.notified() == self.n_photons_spec() / self.progress_interval_spec(),
    {
        lemma_ticks_upto(self.n_photons as nat, self.progress_interval as nat);
    }

    /// The histogram is a function of the sequence of escape bins: two runs
    /// that saw the same escapes hold the same weights, whatever else
    /// differs between them.
    pub proof fn lemma_same_escapes_same_weights(a: &Run, b: &Run)
        requires
            a.wf(),
            b.wf(),
            a.escapes() == b.escapes(),
        ensures
            a.weights_view() == b.weights_view(),
    {
        assert(a.weights@ =~= b.weights@);
    }

    /// A run with empty bins and no packet transported.
    pub fn new(config: RunConfig) -> (r: Run)
        requires
            config.valid(),
        ensures
            r.wf(),
            r.done_spec() == 0,
            r.n_photons_spec() == config.n_photons,
            r.progress_interval_spec() == config.progress_interval,
            r.weights_view() == Seq::new(N_BINS as nat, |i: int| 0u64),
            r.escapes() == Seq::<int>::empty(),
            r.notified() == 0,
    {
        let mut weights: Vec<u64> = Vec::new();
        let mut i: usize = 0;
        while i < N_BINS
            invariant
                i <= N_BINS,
                weights@ == Seq::new(i as nat, |k: int| 0u64),
                total(weights@) == 0,
            decreases N_BINS - i,
        {
            proof {
                assert(weights@.push(0u64).drop_last() =~= weights@);
            }
            weights.push(0u64);
            i = i + 1;
            assert(weights@ =~= Seq::new(i as nat, |k: int| 0u64));
        }
        Run {
            weights,
            done: 0,
            n_photons: config.n_photons,
            progress_interval: config.progress_interval,
            escapes: Ghost(Seq::empty()),
            notified: Ghost(0),
        }
    }

    /// Whether every packet of the budget has been transported.
    pub fn is_complete(&self) -> (r: bool)
        requires
            self.wf(),
        ensures
            r == (self.done_spec() == self.n_photons_spec()),
    {
        self.done == self.n_photons
    }

    /// Records the escape of one packet whose escape cosine, times the
    /// number of bins and truncated toward zero, is `scaled`: its weight
    /// joins that bin. Returns whether a progress notification is due now,
    /// that is, whether the packets transported so far are a multiple of
    /// the progress interval.
    pub fn record_escape(&mut self, scaled: i32) -> (notify: bool)
        requires
            old(self).wf(),
            old(self).done_spec() < old(self).n_photons_spec(),
        ensures
            final(self).wf(),
            final(self).done_spec() == old(self).done_spec() + 1,
            final(self).n_photons_spec() == old(self).n_photons_spec(),
            final(self).progress_interval_spec() == old(self).progress_interval_spec(),
            final(self).weights_view() == old(self).weights_view().update(
                bin_of(scaled as int, N_BINS as nat),
                (old(self).weights_view()[bin_of(scaled as int, N_BINS as nat)] + 1) as u64,
            ),
            final(self).escapes() == old(self).escapes().push(bin_of(scaled as int, N_BINS as nat)),
            notify == (final(self).done_spec() % final(self).progress_interval_spec() == 0),
            final(self).notified() == old(self).notified() + if notify { 1nat } else { 0nat },
    {
        let b = bin_index(scaled, N_BINS);
        proof {
            lemma_entry_le_total(self.weights@, b as int);
        }
        let w = self.weights[b] + 1;
        proof {
            lemma_total_update(self.weights@, b as int, w);
        }
        self.weights.set(b, w);
        self.done = self.done + 1;
        let notify = self.done % self.progress_interval == 0;
        let ghost h = self.escapes@.push(b as int);
        proof {
            assert(h.drop_last() =~= self.escapes@);
            if notify {
                self.notified = Ghost(self.notified@ + 1);
            }
        }
        self.escapes = Ghost(h);
        notify
    }

    /// Number of packets transported so far.
    pub fn done(&self) -> (r: u32)
        ensures
            r == self.done_spec(),
    {
        self.done
    }

    /// The packet budget of the run.
    pub fn n_photons(&self) -> (r: u32)
        ensures
            r == self.n_photons_spec(),
    {
        self.n_photons
    }

    /// The interval between progress notifications.
    pub fn progress_interval(&self) -> (r: u32)
        ensures
            r == self.progress_interval_spec(),
    {
        self.progress_interval
    }

    /// The accumulated weight of bin `i`.
    pub fn weight(&self, i: usize) -> (r: u64)
        requires
            self.wf(),
            i < N_BINS,
        ensures
            r == self.weights_view()[i as int],
    {
        self.weights[i]
    }

    /// A copy of the accumulated weights, one per bin.
    pub fn weights(&self) -> (r: Vec<u64>)
        ensures
            r@ == self.weights_view(),
    {
        self.weights.clone()
    }

    /// The integer factor of bin `i`'s intensity estimate,
    /// `weight * n_bins / (2 * n_photons)`, as a numerator and a
    /// denominator. The intensity itself is this ratio divided by the
    /// cosine of the bin's representative angle.
    pub fn intensity_factor(&self, i: usize) -> (r: (u64, u64))
        requires
            self.wf(),
            i < N_BINS,
        ensures
            r.0 == self.weights_view()[i as int] * N_BINS,
            r.1 == 2 * self.n_photons_spec(),
            r.1 > 0,
    {
        proof {
            lemma_entry_le_total(self.weights@, i as int);
        }
        let w = self.weights[i];
        assert(w * 45 <= 45 * 0xffff_ffffu64) by (nonlinear_arith)
            requires
                w <= 0xffff_ffffu64,
        ;
        (w * (N_BINS as u64), 2 * (self.n_photons as u64))
    }
}

} // verus!
