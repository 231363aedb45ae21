//! The input-to-HID pipeline, one tick at a time.
//!
//! Each tick the driver scans the matrix and hands the raw sample here;
//! the debouncer filters it, the layout advances, and one report is
//! produced after the tick plus one after every debounced event, in that
//! order, so the host sees a press-and-release even for taps resolved
//! within a single tick. Scanning itself and shipping the reports over
//! USB are the caller's hardware work.

use vstd::prelude::*;
use crate::debounce::{deb_wf, event_pos, spec_events, spec_update};
use crate::debounce::{Debouncer, DebouncerView, Event};
use crate::layout::{layers_view, layers_wf, layout_wf, spec_event, spec_keycodes, spec_tick};
use crate::layout::{lemma_event_preserves_frame, Action, Layout, LayoutView};
use crate::matrix::{same_dims, PressedKeys};
use crate::report::{spec_report_of, KbHidReport};

verus! {

/// The layout after a sequence of debounced events.
pub open spec fn spec_apply_events(l: LayoutView, evs: Seq<Event>) -> LayoutView
    decreases evs.len(),
{
    if evs.len() == 0 {
        l
    } else {
        spec_apply_events(spec_event(l, evs[0]), evs.drop_first())
    }
}

/// Applying `evs.push(e)` is applying `evs`, then one event.
pub proof fn lemma_apply_events_snoc(l: LayoutView, evs: Seq<Event>, e: Event)
    ensures
        spec_apply_events(l, evs.push(e)) == spec_event(spec_apply_events(l, evs), e),
    decreases evs.len(),
{
    reveal_with_fuel(spec_apply_events, 3);
    if evs.len() == 0 {
        assert(evs.push(e)[0] == e);
        assert(evs.push(e).drop_first() =~= Seq::<Event>::empty());
    } else {
        assert(evs.push(e)[0] == evs[0]);
        assert(evs.push(e).drop_first() =~= evs.drop_first().push(e));
        lemma_apply_events_snoc(spec_event(l, evs[0]), evs.drop_first(), e);
    }
}

/// The debounced events one raw sample gives rise to: the published
/// transition when the sample republishes the stable set, none otherwise.
pub open spec fn spec_poll_events(d: DebouncerView, sample: Seq<Seq<bool>>) -> Seq<Event> {
    if spec_update(d, sample).1 {
        spec_events(spec_update(d, sample).0.prev_stable, spec_update(d, sample).0.stable)
    } else {
        Seq::empty()
    }
}

/// The model of the pipeline: the debouncer and the layout.
#[verifier::ext_equal]
pub ghost struct KeyboardView {
    pub debouncer: DebouncerView,
    pub layout: LayoutView,
}

/// The pipeline invariant: both components well formed, and the
/// debounced bitmaps of the very shape of the layout's layers.
pub open spec fn kb_wf(k: KeyboardView) -> bool {
    &&& deb_wf(k.debouncer)
    &&& layout_wf(k.layout)
    &&& k.debouncer.stable.len() == k.layout.layers[0].len()
    &&& forall|r: int|
        0 <= r < k.debouncer.stable.len() ==> (#[trigger] k.debouncer.stable[r]).len()
            == k.layout.layers[0][0].len()
}

/// The scan-to-report pipeline: a debouncer in front of a layout.
#[derive(Debug)]
pub struct Keyboard {
    debouncer: Debouncer,
    layout: Layout,
}

impl View for Keyboard {
    type V = KeyboardView;

    closed spec fn view(&self) -> KeyboardView {
        KeyboardView { debouncer: self.debouncer@, layout: self.layout@ }
    }
}

impl Keyboard {
    /// A pipeline over the given action table, debouncing for
    /// `debounce_n` ticks; rejects the tables `Layout::new` rejects.
    pub fn new(layers: Vec<Vec<Vec<Action>>>, timeout: u16, debounce_n: u16) -> (res: Option<
        Keyboard,
    >)
        ensures
            res is Some <==> layers_wf(layers_view(layers)),
            res matches Some(kb) ==> kb_wf(kb@) && kb@.layout == (LayoutView {
                layers: layers_view(layers),
                default_layer: 0,
                overlays: Seq::empty(),
                stack: Seq::empty(),
                waiting: None,
                tapped: None,
                timeout,
            }) && kb@.debouncer.n == debounce_n && kb@.debouncer.since == 0
                && kb@.debouncer.candidate =~~= kb@.debouncer.stable
                && kb@.debouncer.prev_stable =~~= kb@.debouncer.stable,
    {
        let nrows = if layers.len() > 0 {
            layers[0].len()
        } else {
            0
        };
        let ncols = if layers.len() > 0 && nrows > 0 {
            layers[0][0].len()
        } else {
            0
        };
        match Layout::new(layers, timeout) {
            None => None,
            Some(layout) => {
                let debouncer = Debouncer::new(nrows, ncols, debounce_n);
                Some(Keyboard { debouncer, layout })
            },
        }
    }

    /// Feed the raw sample of one tick. The layout advances first, then
    /// every debounced event is applied; one report is produced after the
    /// tick and one after each event, in that order.
    pub fn poll(&mut self, sample: PressedKeys) -> (reports: Vec<KbHidReport>)
        requires
            kb_wf(old(self)@),
            same_dims(old(self)@.debouncer.stable, sample@),
        ensures
            kb_wf(final(self)@),
            final(self)@.debouncer == spec_update(old(self)@.debouncer, sample@).0,
            final(self)@.layout == spec_apply_events(
                spec_tick(old(self)@.layout),
                spec_poll_events(old(self)@.debouncer, sample@),
            ),
            reports@.len() == 1 + spec_poll_events(old(self)@.debouncer, sample@).len(),
            forall|i: int|
                0 <= i < reports@.len() ==> (#[trigger] reports@[i])@ == spec_report_of(
                    spec_keycodes(
                        spec_apply_events(
                            spec_tick(old(self)@.layout),
                            spec_poll_events(old(self)@.debouncer, sample@).take(i),
                        ),
                    ),
                ),
    {
        let ghost d0 = self@.debouncer;
        let ghost all_evs = spec_poll_events(d0, sample@);
        let changed = self.debouncer.update(sample);
        let mut reports: Vec<KbHidReport> = Vec::new();
        let codes = self.layout.tick();
        let ghost l0 = self@.layout;
        reports.push(KbHidReport::from_iter(&codes));
        proof {
            assert(all_evs.take(0) =~= Seq::<Event>::empty());
            // The republished bitmap keeps the shape of the old one.
            assert forall|r: int| 0 <= r < self@.debouncer.stable.len() implies (
            #[trigger] self@.debouncer.stable[r]).len() == self@.layout.layers[0][0].len() by {
                assert(old(self)@.debouncer.candidate[r].len() == old(
                    self,
                )@.debouncer.stable[r].len());
                if !(sample@ =~~= old(self)@.debouncer.candidate) {
                    assert(old(self)@.debouncer.stable[r].len() == sample@[r].len());
                }
            }
        }
        if changed {
            let evs = self.debouncer.events();
            let mut j: usize = 0;
            while j < evs.len()
                invariant
                    j <= evs@.len(),
                    evs@ == all_evs,
                    kb_wf(self@),
                    self@.debouncer == spec_update(d0, sample@).0,
                    self@.layout == spec_apply_events(l0, all_evs.take(j as int)),
                    reports@.len() == 1 + j,
                    forall|i: int|
                        0 <= i < evs@.len() ==> event_pos(#[trigger] evs@[i]).0
                            < self@.debouncer.stable.len() && event_pos(evs@[i]).1
                            < self@.debouncer.stable[event_pos(evs@[i]).0 as int].len(),
                    forall|i: int|
                        0 <= i < reports@.len() ==> (#[trigger] reports@[i])@ == spec_report_of(
                            spec_keycodes(spec_apply_events(l0, all_evs.take(i))),
                        ),
                decreases evs@.len() - j,
            {
                proof {
                    lemma_apply_events_snoc(l0, all_evs.take(j as int), all_evs[j as int]);
                    assert(all_evs.take(j as int).push(all_evs[j as int]) =~= all_evs.take(
                        j + 1 as int,
                    ));
                    lemma_event_preserves_frame(self@.layout, all_evs[j as int]);
                }
                let e = evs[j];
                self.layout.event(e);
                let codes = self.layout.keycodes();
                reports.push(KbHidReport::from_iter(&codes));
                j += 1;
            }
            proof {
                assert(all_evs.take(all_evs.len() as int) =~= all_evs);
            }
        } else {
            proof {
                assert(all_evs =~= Seq::<Event>::empty());
                assert(all_evs.take(0) =~= all_evs);
            }
        }
        reports
    }
}

} // verus!
