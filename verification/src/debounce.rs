//! Temporal debouncing of the raw pressed-set.
//!
//! A raw sample must repeat for `n` consecutive ticks before it is
//! published as the stable pressed-set; the published transitions are
//! handed on as press and release events.

use vstd::prelude::*;
use crate::matrix::PressedKeys;
use crate::matrix::same_dims;

verus! {

/// A debounced transition of one key position.
#[derive(Debug, Clone, Copy, PartialEq, Eq, Structural)]
pub enum Event {
    /// The switch at `(row, column)` went down.
    Press(usize, usize),
    /// The switch at `(row, column)` came up.
    Release(usize, usize),
}

/// The debouncer state: the last-seen raw sample, the published stable
/// sample, the stable sample before that, the count of consecutive ticks
/// the candidate has held (saturated at `n`), and the threshold `n`.
#[verifier::ext_equal]
pub ghost struct DebouncerView {
    pub candidate: Seq<Seq<bool>>,
    pub stable: Seq<Seq<bool>>,
    pub prev_stable: Seq<Seq<bool>>,
    pub since: u16,
    pub n: u16,
}

/// The debouncer after one raw sample arrives, and whether the stable
/// sample was republished: a repeated sample bumps the counter (saturating
/// at `n`), a fresh sample restarts it, and once the candidate has held
/// for `n` ticks and differs from the stable sample it is published.
pub open spec fn spec_update(d: DebouncerView, sample: Seq<Seq<bool>>) -> (DebouncerView, bool) {
    let same = sample =~~= d.candidate;
    let cand = if same {
        d.candidate
    } else {
        sample
    };
    let since = if same {
        if d.since < d.n {
            (d.since + 1) as u16
        } else {
            d.n
        }
    } else {
        0u16
    };
    if since >= d.n && !(cand =~~= d.stable) {
        (
            DebouncerView {
                candidate: cand,
                stable: cand,
                prev_stable: d.stable,
                since,
                n: d.n,
            },
            true,
        )
    } else {
        (DebouncerView { candidate: cand, since, ..d }, false)
    }
}

/// The events of one row of the published transition, positions `c` and
/// up: a `Press` where the stable bit came on, a `Release` where it went
/// off, in column order.
pub open spec fn spec_row_events(prev: Seq<bool>, cur: Seq<bool>, r: int, c: int) -> Seq<Event>
    decreases cur.len() - c,
{
    if c < 0 || c >= cur.len() {
        Seq::empty()
    } else {
        let rest = spec_row_events(prev, cur, r, c + 1);
        if cur[c] != prev[c] {
            seq![
                if cur[c] {
                    Event::Press(r as usize, c as usize)
                } else {
                    Event::Release(r as usize, c as usize)
                },
            ] + rest
        } else {
            rest
        }
    }
}

/// The events of the published transition, rows `r` and up, row-major.
pub open spec fn spec_events_from(prev: Seq<Seq<bool>>, cur: Seq<Seq<bool>>, r: int) -> Seq<Event>
    decreases cur.len() - r,
{
    if r < 0 || r >= cur.len() {
        Seq::empty()
    } else {
        spec_row_events(prev[r], cur[r], r, 0) + spec_events_from(prev, cur, r + 1)
    }
}

/// The events of the most recent published transition, row-major, presses
/// and releases interleaved in position order.
pub open spec fn spec_events(prev: Seq<Seq<bool>>, cur: Seq<Seq<bool>>) -> Seq<Event> {
    spec_events_from(prev, cur, 0)
}

/// The position a debounced event is about.
pub open spec fn event_pos(e: Event) -> (usize, usize) {
    match e {
        Event::Press(r, c) => (r, c),
        Event::Release(r, c) => (r, c),
    }
}

/// Temporal filter over raw samples, parameterized by the number of
/// consecutive ticks `n` a sample must hold before it is published.
#[derive(Debug)]
pub struct Debouncer {
    candidate: PressedKeys,
    stable: PressedKeys,
    prev_stable: PressedKeys,
    since: u16,
    n: u16,
}

impl View for Debouncer {
    type V = DebouncerView;

    closed spec fn view(&self) -> DebouncerView {
        DebouncerView {
            candidate: self.candidate@,
            stable: self.stable@,
            prev_stable: self.prev_stable@,
            since: self.since,
            n: self.n,
        }
    }
}

/// The three bitmaps agree in shape and the counter is saturated.
pub open spec fn deb_wf(d: DebouncerView) -> bool {
    &&& same_dims(d.candidate, d.stable)
    &&& same_dims(d.candidate, d.prev_stable)
    &&& d.since <= d.n
}

impl Debouncer {
    /// A fresh debouncer of the given shape: everything released, counter
    /// at zero.
    pub fn new(nrows: usize, ncols: usize, n: u16) -> (r: Self)
        ensures
            deb_wf(r@),
            r@.n == n,
            r@.since == 0,
            r@.candidate =~~= r@.stable,
            r@.prev_stable =~~= r@.stable,
            r@.stable.len() == nrows,
            forall|i: int| 0 <= i < nrows ==> (#[trigger] r@.stable[i]).len() == ncols,
            forall|i: int, j: int| 0 <= i < nrows && 0 <= j < ncols ==> !(#[trigger] r@.stable[i][j]),
    {
        let candidate = PressedKeys::new(nrows, ncols);
        let stable = PressedKeys::new(nrows, ncols);
        let prev_stable = PressedKeys::new(nrows, ncols);
        proof {
            assert(candidate@ =~~= stable@);
            assert(prev_stable@ =~~= stable@);
        }
        Debouncer { candidate, stable, prev_stable, since: 0, n }
    }

    /// Feed one raw sample; returns whether the stable sample changed.
    pub fn update(&mut self, sample: PressedKeys) -> (changed: bool)
        requires
            deb_wf(old(self)@),
            same_dims(old(self)@.stable, sample@),
        ensures
            deb_wf(final(self)@),
            final(self)@ == spec_update(old(self)@, sample@).0,
            changed == spec_update(old(self)@, sample@).1,
    {
        let same = self.candidate.same_as(&sample);
        if same {
            if self.since < self.n {
                self.since = self.since + 1;
            }
        } else {
            self.candidate = sample;
            self.since = 0;
        }
        let publish = self.since >= self.n && !self.candidate.same_as(&self.stable);
        if publish {
            self.prev_stable = self.stable.duplicate();
            self.stable = self.candidate.duplicate();
        }
        proof {
            assert(self@ =~= spec_update(old(self)@, sample@).0);
            assert forall|r: int| 0 <= r < self@.candidate.len() implies (
            #[trigger] self@.candidate[r]).len() == self@.stable[r].len() && self@.candidate[r].len()
                == self@.prev_stable[r].len() by {
                assert(0 <= r < old(self)@.candidate.len());
                assert(old(self)@.candidate[r].len() == old(self)@.stable[r].len());
                assert(old(self)@.candidate[r].len() == old(self)@.prev_stable[r].len());
                if !(sample@ =~~= old(self)@.candidate) {
                    assert(old(self)@.stable[r].len() == sample@[r].len());
                }
            }
        }
        publish
    }

    /// The events of the most recent published transition: one `Press` for
    /// every position that came on, one `Release` for every one that went
    /// off, row-major.
    pub fn events(&self) -> (evs: Vec<Event>)
        requires
            deb_wf(self@),
        ensures
            evs@ == spec_events(self@.prev_stable, self@.stable),
            forall|i: int|
                0 <= i < evs@.len() ==> event_pos(#[trigger] evs@[i]).0 < self@.stable.len()
                    && event_pos(evs@[i]).1 < self@.stable[event_pos(evs@[i]).0 as int].len(),
    {
        let prev = &self.prev_stable;
        let cur = &self.stable;
        let mut evs: Vec<Event> = Vec::new();
        let mut r: usize = 0;
        while r < cur.nrows()
            invariant
                r <= cur@.len(),
                deb_wf(self@),
                prev@ == self@.prev_stable,
                cur@ == self@.stable,
                spec_events(prev@, cur@) == evs@ + spec_events_from(prev@, cur@, r as int),
                forall|k: int|
                    0 <= k < evs@.len() ==> event_pos(#[trigger] evs@[k]).0 < cur@.len()
                        && event_pos(evs@[k]).1 < cur@[event_pos(evs@[k]).0 as int].len(),
            decreases cur@.len() - r,
        {
            let mut c: usize = 0;
            let ncols = cur.row_len(r);
            while c < ncols
                invariant
                    c <= ncols,
                    r < cur@.len(),
                    ncols == cur@[r as int].len(),
                    deb_wf(self@),
                    prev@ == self@.prev_stable,
                    cur@ == self@.stable,
                    spec_events(prev@, cur@) == evs@ + spec_row_events(
                        prev@[r as int],
                        cur@[r as int],
                        r as int,
                        c as int,
                    ) + spec_events_from(prev@, cur@, r as int + 1),
                    forall|k: int|
                        0 <= k < evs@.len() ==> event_pos(#[trigger] evs@[k]).0 < cur@.len()
                            && event_pos(evs@[k]).1 < cur@[event_pos(evs@[k]).0 as int].len(),
                decreases ncols - c,
            {
                proof {
                    assert(self@.candidate[r as int].len() == cur@[r as int].len());
                    assert(self@.candidate[r as int].len() == prev@[r as int].len());
                }
                let pb = prev.get(r, c);
                let cb = cur.get(r, c);
                if cb != pb {
                    let ev = if cb {
                        Event::Press(r, c)
                    } else {
                        Event::Release(r, c)
                    };
                    proof {
                        assert((evs@ + seq![ev]) + (spec_row_events(
                            prev@[r as int],
                            cur@[r as int],
                            r as int,
                            c as int + 1,
                        ) + spec_events_from(prev@, cur@, r as int + 1)) =~= evs@ + seq![ev] + spec_row_events(
                            prev@[r as int],
                            cur@[r as int],
                            r as int,
                            c as int + 1,
                        ) + spec_events_from(prev@, cur@, r as int + 1));
                        assert(seq![ev] + spec_row_events(
                            prev@[r as int],
                            cur@[r as int],
                            r as int,
                            c as int + 1,
                        ) == spec_row_events(prev@[r as int], cur@[r as int], r as int, c as int));
                    }
                    evs.push(ev);
                } else {
                    proof {
                        assert(spec_row_events(prev@[r as int], cur@[r as int], r as int, c as int)
                            == spec_row_events(
                            prev@[r as int],
                            cur@[r as int],
                            r as int,
                            c as int + 1,
                        ));
                    }
                }
                c += 1;
            }
            r += 1;
        }
        evs
    }
}

/// The debouncer after a whole sequence of raw samples has been fed.
pub open spec fn spec_run(d: DebouncerView, samples: Seq<Seq<Seq<bool>>>) -> DebouncerView
    decreases samples.len(),
{
    if samples.len() == 0 {
        d
    } else {
        spec_run(spec_update(d, samples[0]).0, samples.drop_first())
    }
}

/// Running over `samples.push(s)` is running over `samples`, then one update.
pub proof fn lemma_run_snoc(d: DebouncerView, samples: Seq<Seq<Seq<bool>>>, s: Seq<Seq<bool>>)
    ensures
        spec_run(d, samples.push(s)) == spec_update(spec_run(d, samples), s).0,
    decreases samples.len(),
{
    reveal_with_fuel(spec_run, 3);
    if samples.len() == 0 {
        assert(samples.push(s)[0] == s);
        assert(samples.push(s).drop_first() =~= Seq::<Seq<Seq<bool>>>::empty());
    } else {
        assert(samples.push(s)[0] == samples[0]);
        assert(samples.push(s).drop_first() =~= samples.drop_first().push(s));
        lemma_run_snoc(spec_update(d, samples[0]).0, samples.drop_first(), s);
    }
}

/// After `j` updates from a fresh counter, the counter never exceeds `j`
/// or `n`, and counts a run of trailing samples equal to the candidate.
pub proof fn lemma_run_history(d0: DebouncerView, samples: Seq<Seq<Seq<bool>>>, j: int)
    requires
        d0.since == 0,
        d0.since <= d0.n,
        0 <= j <= samples.len(),
    ensures
        spec_run(d0, samples.take(j)).n == d0.n,
        spec_run(d0, samples.take(j)).since <= j,
        spec_run(d0, samples.take(j)).since <= d0.n,
        forall|k: int| 0 <= k < spec_run(d0, samples.take(j)).since ==> #[trigger] samples[j - 1
            - k] =~~= spec_run(d0, samples.take(j)).candidate,
    decreases j,
{
    if j == 0 {
        assert(samples.take(0) =~= Seq::<Seq<Seq<bool>>>::empty());
    } else {
        lemma_run_history(d0, samples, j - 1);
        assert(samples.take(j - 1).push(samples[j - 1]) =~= samples.take(j));
        lemma_run_snoc(d0, samples.take(j - 1), samples[j - 1]);
        let dprev = spec_run(d0, samples.take(j - 1));
        let dj = spec_run(d0, samples.take(j));
        let s = samples[j - 1];
        assert(dj == spec_update(dprev, s).0);
        if s =~~= dprev.candidate {
            assert forall|k: int| 0 <= k < dj.since implies #[trigger] samples[j - 1 - k] =~~= dj.candidate by {
                if k > 0 {
                    assert(0 <= k - 1 < dprev.since);
                    assert(samples[(j - 1) - 1 - (k - 1)] =~~= dprev.candidate);
                }
            }
        }
    }
}

/// Law of debouncer stability: starting from a fresh debouncer, the
/// published stable sample changes at step `j` only when the same raw
/// sample has held for the last `n` consecutive updates, and what is
/// published is that sample.
pub proof fn lemma_debounce_stability(
    d0: DebouncerView,
    samples: Seq<Seq<Seq<bool>>>,
    j: int,
)
    requires
        d0.since == 0,
        d0.n >= 1,
        0 <= j < samples.len(),
        !(spec_run(d0, samples.take(j + 1)).stable =~~= spec_run(d0, samples.take(j)).stable),
    ensures
        d0.n - 1 <= j,
        forall|k: int| 0 <= k < d0.n ==> #[trigger] samples[j - k] =~~= samples[j],
        spec_run(d0, samples.take(j + 1)).stable =~~= samples[j],
{
    lemma_run_history(d0, samples, j);
    assert(samples.take(j).push(samples[j]) =~= samples.take(j + 1));
    lemma_run_snoc(d0, samples.take(j), samples[j]);
    let dj = spec_run(d0, samples.take(j));
    let dnext = spec_run(d0, samples.take(j + 1));
    let s = samples[j];
    assert(dnext == spec_update(dj, s).0);
    assert(s =~~= dj.candidate);
    assert(dj.since + 1 >= dj.n);
    assert forall|k: int| 0 <= k < d0.n implies #[trigger] samples[j - k] =~~= samples[j] by {
        if k > 0 {
            assert(0 <= k - 1 < dj.since);
            assert(samples[j - 1 - (k - 1)] =~~= dj.candidate);
        }
    }
}

} // verus!
