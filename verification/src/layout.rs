//! The layered layout engine: layer resolution, composite actions, and
//! the tick-driven hold-tap disambiguation.

use vstd::prelude::*;
use crate::key_code::KeyCode;
use crate::debounce::Event;

verus! {

/// What a key position does.
#[derive(Debug)]
pub enum Action {
    /// Emits nothing.
    NoOp,
    /// Transparent: defer to the next layer below.
    Trans,
    /// While held, the code is active.
    KeyCode(KeyCode),
    /// While held, all the codes are active (modifier-plus-key combos).
    MultipleKeyCodes(Vec<KeyCode>),
    /// While held, the layer is overlaid on the base.
    Layer(usize),
    /// On press, the base layer becomes this layer, permanently.
    DefaultLayer(usize),
    /// Behaves as the first code when still held at the timeout, as the
    /// second when released before it.
    HoldTap(KeyCode, KeyCode),
    /// A hold-tap whose hold half overlays the layer.
    LayerTap(usize, KeyCode),
}

/// The hold half of a pending hold-tap.
#[derive(Debug, Clone, Copy, PartialEq, Eq, Structural)]
pub enum HoldAction {
    /// Activate a code.
    HoldKey(KeyCode),
    /// Overlay a layer.
    HoldLayer(usize),
}

/// A pending hold-tap still being disambiguated.
#[derive(Debug, Clone, Copy, PartialEq, Eq, Structural)]
pub struct Waiting {
    /// The row of the pressed position.
    pub row: usize,
    /// The column of the pressed position.
    pub col: usize,
    /// What the press becomes at the timeout.
    pub hold: HoldAction,
    /// The code emitted when the key is released in time.
    pub tap: KeyCode,
    /// Ticks left until the hold resolution.
    pub remaining: u16,
}

/// The lasting effect of a resolved action while its key stays down.
#[derive(Debug)]
pub enum Resolved {
    /// Nothing is contributed.
    Silent,
    /// One active code.
    Code(KeyCode),
    /// Several active codes.
    Codes(Vec<KeyCode>),
    /// One overlaid layer.
    Overlay(usize),
}

/// One currently-depressed position with its resolved action.
#[derive(Debug)]
pub struct StackEntry {
    /// The row of the position.
    pub row: usize,
    /// The column of the position.
    pub col: usize,
    /// The effect the position contributes while held.
    pub resolved: Resolved,
}

/// The codes a resolved action keeps active.
pub open spec fn resolved_codes(r: Resolved) -> Seq<KeyCode> {
    match r {
        Resolved::Silent => Seq::empty(),
        Resolved::Code(k) => seq![k],
        Resolved::Codes(ks) => ks@,
        Resolved::Overlay(_) => Seq::empty(),
    }
}

/// The layer a resolved action keeps overlaid.
pub open spec fn resolved_overlay(r: Resolved) -> Option<usize> {
    match r {
        Resolved::Overlay(n) => Some(n),
        _ => None,
    }
}

/// The model of one stack entry: its position, the codes it keeps
/// active, and the layer it keeps overlaid.
#[verifier::ext_equal]
pub ghost struct EntryView {
    pub row: usize,
    pub col: usize,
    pub codes: Seq<KeyCode>,
    pub overlay: Option<usize>,
}

impl View for StackEntry {
    type V = EntryView;

    closed spec fn view(&self) -> EntryView {
        EntryView {
            row: self.row,
            col: self.col,
            codes: resolved_codes(self.resolved),
            overlay: resolved_overlay(self.resolved),
        }
    }
}

/// The model of the whole layout state.
#[verifier::ext_equal]
pub ghost struct LayoutView {
    /// The action tables, `layers[layer][row][column]`.
    pub layers: Seq<Seq<Seq<Action>>>,
    /// The current base layer.
    pub default_layer: usize,
    /// The layers held active by `Layer` actions, one entry per held key.
    pub overlays: Seq<usize>,
    /// One entry per depressed position, in press order.
    pub stack: Seq<EntryView>,
    /// The pending hold-tap, if one is being disambiguated.
    pub waiting: Option<Waiting>,
    /// A tap resolved since the last tick, active for the current tick.
    pub tapped: Option<KeyCode>,
    /// The hold-tap timeout, in ticks.
    pub timeout: u16,
}

/// A layer, default-layer or layer-tap action never names a layer outside
/// the table.
pub open spec fn action_wf(a: Action, nlayers: int) -> bool {
    match a {
        Action::Layer(n) => n < nlayers,
        Action::DefaultLayer(n) => n < nlayers,
        Action::LayerTap(n, _) => n < nlayers,
        _ => true,
    }
}

/// A usable action table: at least one layer, all layers of one
/// rectangular shape, and every named layer in range.
pub open spec fn layers_wf(layers: Seq<Seq<Seq<Action>>>) -> bool {
    &&& layers.len() >= 1
    &&& forall|l: int| 0 <= l < layers.len() ==> (#[trigger] layers[l]).len() == layers[0].len()
    &&& forall|l: int, r: int|
        0 <= l < layers.len() && 0 <= r < layers[l].len() ==> (#[trigger] layers[l][r]).len()
            == layers[0][0].len()
    &&& forall|l: int, r: int, c: int|
        0 <= l < layers.len() && 0 <= r < layers[l].len() && 0 <= c < layers[l][r].len()
            ==> action_wf(#[trigger] layers[l][r][c], layers.len() as int)
}

/// The layout invariant: a usable table, and every layer the state refers
/// to in range.
pub open spec fn layout_wf(v: LayoutView) -> bool {
    &&& layers_wf(v.layers)
    &&& v.default_layer < v.layers.len()
    &&& forall|i: int| 0 <= i < v.overlays.len() ==> (#[trigger] v.overlays[i]) < v.layers.len()
    &&& match v.waiting {
        Some(w) => match w.hold {
            HoldAction::HoldLayer(n) => n < v.layers.len(),
            HoldAction::HoldKey(_) => true,
        },
        None => true,
    }
}

/// The position `(r, c)` lies inside the table.
pub open spec fn pos_wf(v: LayoutView, r: usize, c: usize) -> bool {
    r < v.layers[0].len() && c < v.layers[0][0].len()
}

/// The highest layer among `base` and the overlays.
pub open spec fn max_overlay(overlays: Seq<usize>, base: int) -> int
    decreases overlays.len(),
{
    if overlays.len() == 0 {
        base
    } else if overlays.last() > max_overlay(overlays.drop_last(), base) {
        overlays.last() as int
    } else {
        max_overlay(overlays.drop_last(), base)
    }
}

/// The effective layer: the maximum of the base layer and every overlay.
pub open spec fn effective_layer(default_layer: usize, overlays: Seq<usize>) -> int {
    max_overlay(overlays, default_layer as int)
}

/// The first action at `(r, c)` that is not `Trans`, walking down from
/// layer `l`; `NoOp` when every layer is transparent there.
pub open spec fn spec_resolve_from(layers: Seq<Seq<Seq<Action>>>, l: int, r: int, c: int) -> Action
    decreases l + 1,
{
    if l < 0 {
        Action::NoOp
    } else if !(layers[l][r][c] is Trans) {
        layers[l][r][c]
    } else {
        spec_resolve_from(layers, l - 1, r, c)
    }
}

/// The action a press of `(r, c)` resolves to: the first non-`Trans`
/// action at that position, from the effective layer downward.
pub open spec fn spec_resolve(v: LayoutView, r: int, c: int) -> Action {
    spec_resolve_from(v.layers, effective_layer(v.default_layer, v.overlays), r, c)
}

/// The effective layer lies inside the table whenever the state is well
/// formed.
pub proof fn lemma_max_overlay_bounds(overlays: Seq<usize>, base: int, bound: int)
    requires
        base < bound,
        forall|i: int| 0 <= i < overlays.len() ==> (#[trigger] overlays[i]) < bound,
    ensures
        base <= max_overlay(overlays, base) < bound,
    decreases overlays.len(),
{
    if overlays.len() > 0 {
        assert(forall|i: int| 0 <= i < overlays.drop_last().len() ==> (#[trigger] overlays.drop_last()[i])
            < bound);
        lemma_max_overlay_bounds(overlays.drop_last(), base, bound);
    }
}

/// Events change neither the action tables nor the timeout.
pub proof fn lemma_event_preserves_frame(v: LayoutView, e: Event)
    ensures
        spec_event(v, e).layers == v.layers,
        spec_event(v, e).timeout == v.timeout,
{
}

/// A found overlay index is in range and holds the layer looked for.
pub proof fn lemma_find_overlay_bounds(overlays: Seq<usize>, n: usize, i: int)
    requires
        0 <= i,
    ensures
        find_overlay_from(overlays, n, i) == -1 || (i <= find_overlay_from(overlays, n, i)
            < overlays.len() && overlays[find_overlay_from(overlays, n, i)] == n),
    decreases overlays.len() - i,
{
    if i < overlays.len() && overlays[i] != n {
        lemma_find_overlay_bounds(overlays, n, i + 1);
    }
}

/// A pending hold-tap is forced to its tap resolution: the tap code is
/// emitted for the current tick and the wait is over.
pub open spec fn spec_force_tap(v: LayoutView) -> LayoutView {
    match v.waiting {
        Some(w) => LayoutView { waiting: None, tapped: Some(w.tap), ..v },
        None => v,
    }
}

/// The state after a press at `(r, c)` is resolved and recorded, assuming
/// any pending hold-tap was already forced out.
pub open spec fn spec_press_entry(v: LayoutView, r: usize, c: usize) -> LayoutView {
    let a = spec_resolve(v, r as int, c as int);
    match a {
        Action::KeyCode(k) => LayoutView {
            stack: v.stack.push(EntryView { row: r, col: c, codes: seq![k], overlay: None }),
            ..v
        },
        Action::MultipleKeyCodes(ks) => LayoutView {
            stack: v.stack.push(EntryView { row: r, col: c, codes: ks@, overlay: None }),
            ..v
        },
        Action::Layer(n) => LayoutView {
            stack: v.stack.push(
                EntryView { row: r, col: c, codes: Seq::empty(), overlay: Some(n) },
            ),
            overlays: v.overlays.push(n),
            ..v
        },
        Action::DefaultLayer(n) => LayoutView {
            default_layer: n,
            stack: v.stack.push(
                EntryView { row: r, col: c, codes: Seq::empty(), overlay: None },
            ),
            ..v
        },
        Action::HoldTap(h, t) => LayoutView {
            waiting: Some(
                Waiting {
                    row: r,
                    col: c,
                    hold: HoldAction::HoldKey(h),
                    tap: t,
                    remaining: v.timeout,
                },
            ),
            ..v
        },
        Action::LayerTap(n, t) => LayoutView {
            waiting: Some(
                Waiting {
                    row: r,
                    col: c,
                    hold: HoldAction::HoldLayer(n),
                    tap: t,
                    remaining: v.timeout,
                },
            ),
            ..v
        },
        _ => LayoutView {
            stack: v.stack.push(
                EntryView { row: r, col: c, codes: Seq::empty(), overlay: None },
            ),
            ..v
        },
    }
}

/// The state after a press at `(r, c)`: any pending hold-tap is forced to
/// its tap, then the press resolves on the (unchanged) layers.
pub open spec fn spec_press(v: LayoutView, r: usize, c: usize) -> LayoutView {
    spec_press_entry(spec_force_tap(v), r, c)
}

/// The first stack index at or after `i` whose entry sits at `(r, c)`,
/// or `-1` if there is none.
pub open spec fn find_entry_from(stack: Seq<EntryView>, r: usize, c: usize, i: int) -> int
    decreases stack.len() - i,
{
    if i < 0 || i >= stack.len() {
        -1
    } else if stack[i].row == r && stack[i].col == c {
        i
    } else {
        find_entry_from(stack, r, c, i + 1)
    }
}

/// The first stack index whose entry sits at `(r, c)`, or `-1`.
pub open spec fn find_entry(stack: Seq<EntryView>, r: usize, c: usize) -> int {
    find_entry_from(stack, r, c, 0)
}

/// The first overlay index at or after `i` holding layer `n`, or `-1`.
pub open spec fn find_overlay_from(overlays: Seq<usize>, n: usize, i: int) -> int
    decreases overlays.len() - i,
{
    if i < 0 || i >= overlays.len() {
        -1
    } else if overlays[i] == n {
        i
    } else {
        find_overlay_from(overlays, n, i + 1)
    }
}

/// The overlays with the first occurrence of `n` removed, if any.
pub open spec fn remove_overlay(overlays: Seq<usize>, n: usize) -> Seq<usize> {
    let i = find_overlay_from(overlays, n, 0);
    if i == -1 {
        overlays
    } else {
        overlays.remove(i)
    }
}

/// The state after the entry at `(r, c)`, if any, leaves the stack; an
/// overlay entry also takes one copy of its layer out of the overlays. A
/// release that finds no entry is dropped.
pub open spec fn spec_release_stack(v: LayoutView, r: usize, c: usize) -> LayoutView {
    let i = find_entry(v.stack, r, c);
    if i == -1 {
        v
    } else {
        let e = v.stack[i];
        match e.overlay {
            Some(n) => LayoutView {
                stack: v.stack.remove(i),
                overlays: remove_overlay(v.overlays, n),
                ..v
            },
            None => LayoutView { stack: v.stack.remove(i), ..v },
        }
    }
}

/// The state after a release at `(r, c)`: a release of the pending
/// hold-tap position resolves it as its tap; otherwise the matching stack
/// entry leaves.
pub open spec fn spec_release(v: LayoutView, r: usize, c: usize) -> LayoutView {
    match v.waiting {
        Some(w) => if w.row == r && w.col == c {
            LayoutView { waiting: None, tapped: Some(w.tap), ..v }
        } else {
            spec_release_stack(v, r, c)
        },
        None => spec_release_stack(v, r, c),
    }
}

/// The state after one debounced event.
pub open spec fn spec_event(v: LayoutView, e: Event) -> LayoutView {
    match e {
        Event::Press(r, c) => spec_press(v, r, c),
        Event::Release(r, c) => spec_release(v, r, c),
    }
}

/// The pending hold-tap resolves as its hold: the hold effect joins the
/// stack at the waiting position.
pub open spec fn spec_hold_entry(v: LayoutView, w: Waiting) -> LayoutView {
    match w.hold {
        HoldAction::HoldKey(k) => LayoutView {
            stack: v.stack.push(
                EntryView { row: w.row, col: w.col, codes: seq![k], overlay: None },
            ),
            ..v
        },
        HoldAction::HoldLayer(n) => LayoutView {
            stack: v.stack.push(
                EntryView { row: w.row, col: w.col, codes: Seq::empty(), overlay: Some(n) },
            ),
            overlays: v.overlays.push(n),
            ..v
        },
    }
}

/// The state after one tick: the previous tick's tap expires, and a
/// pending hold-tap whose timer runs out resolves as its hold.
pub open spec fn spec_tick(v: LayoutView) -> LayoutView {
    let v1 = LayoutView { tapped: None, ..v };
    match v.waiting {
        Some(w) => {
            let rem = if w.remaining > 0 {
                (w.remaining - 1) as u16
            } else {
                0u16
            };
            if rem == 0 {
                spec_hold_entry(LayoutView { waiting: None, ..v1 }, w)
            } else {
                LayoutView { waiting: Some(Waiting { remaining: rem, ..w }), ..v1 }
            }
        },
        None => v1,
    }
}

/// The model of a raw action table.
pub open spec fn layers_view(layers: Vec<Vec<Vec<Action>>>) -> Seq<Seq<Seq<Action>>> {
    Seq::new(layers@.len(), |l: int| Seq::new(layers@[l]@.len(), |r: int| layers@[l]@[r]@))
}

/// An owned copy of a list of key codes.
fn copy_codes(ks: &Vec<KeyCode>) -> (r: Vec<KeyCode>)
    ensures
        r@ == ks@,
{
    let mut r: Vec<KeyCode> = Vec::new();
    let mut i: usize = 0;
    while i < ks.len()
        invariant
            i <= ks@.len(),
            r@ == ks@.take(i as int),
        decreases ks@.len() - i,
    {
        proof {
            assert(ks@.take(i as int).push(ks@[i as int]) =~= ks@.take(i + 1 as int));
        }
        r.push(ks[i]);
        i += 1;
    }
    proof {
        assert(ks@.take(ks@.len() as int) =~= ks@);
    }
    r
}

/// The layout engine: the layer stack, the per-key action stack, and the
/// hold-tap timer, advanced by debounced events and ticks.
#[derive(Debug)]
pub struct Layout {
    layers: Vec<Vec<Vec<Action>>>,
    default_layer: usize,
    overlays: Vec<usize>,
    stack: Vec<StackEntry>,
    waiting: Option<Waiting>,
    tapped: Option<KeyCode>,
    timeout: u16,
}

impl View for Layout {
    type V = LayoutView;

    closed spec fn view(&self) -> LayoutView {
        LayoutView {
            layers: layers_view(self.layers),
            default_layer: self.default_layer,
            overlays: self.overlays@,
            stack: Seq::new(self.stack@.len(), |i: int| self.stack@[i]@),
            waiting: self.waiting,
            tapped: self.tapped,
            timeout: self.timeout,
        }
    }
}

impl Layout {
    /// A layout over the given action table, starting on base layer 0
    /// with nothing pressed; rejects a table with no layer, with layers
    /// of unequal shape, or with an action naming a layer out of range.
    pub fn new(layers: Vec<Vec<Vec<Action>>>, timeout: u16) -> (res: Option<Layout>)
        ensures
            res is Some <==> layers_wf(layers_view(layers)),
            res matches Some(lay) ==> lay@ == (LayoutView {
                layers: layers_view(layers),
                default_layer: 0,
                overlays: Seq::empty(),
                stack: Seq::empty(),
                waiting: None,
                tapped: None,
                timeout,
            }),
            res matches Some(lay) ==> layout_wf(lay@),
    {
        let ghost lv = layers_view(layers);
        let nlayers = layers.len();
        if nlayers == 0 {
            return None;
        }
        let nrows = layers[0].len();
        let ncols = if nrows > 0 {
            layers[0][0].len()
        } else {
            0
        };
        let mut l: usize = 0;
        while l < nlayers
            invariant
                lv == layers_view(layers),
                l <= nlayers,
                nlayers == lv.len(),
                nrows == lv[0].len(),
                nrows > 0 ==> ncols == lv[0][0].len(),
                forall|a: int| 0 <= a < l ==> (#[trigger] lv[a]).len() == nrows,
                forall|a: int, b: int|
                    0 <= a < l && 0 <= b < nrows ==> (#[trigger] lv[a][b]).len() == ncols,
                forall|a: int, b: int, d: int|
                    0 <= a < l && 0 <= b < nrows && 0 <= d < ncols ==> action_wf(
                        #[trigger] lv[a][b][d],
                        nlayers as int,
                    ),
            decreases nlayers - l,
        {
            if layers[l].len() != nrows {
                proof {
                    assert(lv[l as int].len() != lv[0].len());
                }
                return None;
            }
            let mut r: usize = 0;
            while r < nrows
                invariant
                    lv == layers_view(layers),
                    r <= nrows,
                    l < nlayers,
                    nlayers == lv.len(),
                    nrows == lv[0].len(),
                    nrows > 0 ==> ncols == lv[0][0].len(),
                    lv[l as int].len() == nrows,
                    forall|b: int| 0 <= b < r ==> (#[trigger] lv[l as int][b]).len() == ncols,
                    forall|b: int, d: int|
                        0 <= b < r && 0 <= d < ncols ==> action_wf(
                            #[trigger] lv[l as int][b][d],
                            nlayers as int,
                        ),
                decreases nrows - r,
            {
                if layers[l][r].len() != ncols {
                    proof {
                        assert(lv[l as int][r as int].len() != lv[0][0].len());
                    }
                    return None;
                }
                let mut c: usize = 0;
                while c < ncols
                    invariant
                        lv == layers_view(layers),
                        c <= ncols,
                        l < nlayers,
                        r < nrows,
                        nlayers == lv.len(),
                        lv[l as int].len() == nrows,
                        lv[l as int][r as int].len() == ncols,
                        forall|d: int|
                            0 <= d < c ==> action_wf(
                                #[trigger] lv[l as int][r as int][d],
                                nlayers as int,
                            ),
                    decreases ncols - c,
                {
                    let ok = match &layers[l][r][c] {
                        Action::Layer(n) => *n < nlayers,
                        Action::DefaultLayer(n) => *n < nlayers,
                        Action::LayerTap(n, _) => *n < nlayers,
                        _ => true,
                    };
                    if !ok {
                        proof {
                            assert(!action_wf(lv[l as int][r as int][c as int], nlayers as int));
                        }
                        return None;
                    }
                    c += 1;
                }
                r += 1;
            }
            l += 1;
        }
        let lay = Layout {
            layers,
            default_layer: 0,
            overlays: Vec::new(),
            stack: Vec::new(),
            waiting: None,
            tapped: None,
            timeout,
        };
        proof {
            assert(layers_wf(lv));
            assert(lay@.overlays =~= Seq::<usize>::empty());
            assert(lay@.stack =~= Seq::<EntryView>::empty());
            assert(lay@ =~= (LayoutView {
                layers: lv,
                default_layer: 0,
                overlays: Seq::empty(),
                stack: Seq::empty(),
                waiting: None,
                tapped: None,
                timeout,
            }));
        }
        Some(lay)
    }

    /// The effective layer: the highest of the base layer and the held
    /// overlays.
    pub fn current_layer(&self) -> (l: usize)
        requires
            layout_wf(self@),
        ensures
            l as int == effective_layer(self@.default_layer, self@.overlays),
            l < self@.layers.len(),
    {
        let mut m = self.default_layer;
        let mut i: usize = 0;
        while i < self.overlays.len()
            invariant
                i <= self@.overlays.len(),
                layout_wf(self@),
                m < self@.layers.len(),
                m as int == max_overlay(self@.overlays.take(i as int), self@.default_layer as int),
            decreases self@.overlays.len() - i,
        {
            proof {
                assert(self@.overlays.take(i + 1 as int).drop_last() =~= self@.overlays.take(
                    i as int,
                ));
                assert(self@.overlays.take(i + 1 as int).last() == self@.overlays[i as int]);
            }
            let o = self.overlays[i];
            if o > m {
                m = o;
            }
            i += 1;
        }
        proof {
            assert(self@.overlays.take(self@.overlays.len() as int) =~= self@.overlays);
        }
        m
    }

    /// The layer whose action a press of `(r, c)` resolves to, or `None`
    /// when every layer is transparent there.
    fn resolve_layer(&self, r: usize, c: usize) -> (res: Option<usize>)
        requires
            layout_wf(self@),
            pos_wf(self@, r, c),
        ensures
            res matches Some(l) ==> l < self@.layers.len() && !(self@.layers[l as int][r as int][c as int] is Trans)
                && spec_resolve(self@, r as int, c as int) == self@.layers[l as int][r as int][c as int],
            res is None ==> spec_resolve(self@, r as int, c as int) == Action::NoOp,
    {
        let eff = self.current_layer();
        let mut l: usize = eff;
        loop
            invariant
                layout_wf(self@),
                pos_wf(self@, r, c),
                l < self@.layers.len(),
                spec_resolve(self@, r as int, c as int) == spec_resolve_from(
                    self@.layers,
                    l as int,
                    r as int,
                    c as int,
                ),
            decreases l,
        {
            proof {
                assert(self@.layers[l as int].len() == self@.layers[0].len());
                assert(self@.layers[l as int][r as int].len() == self@.layers[0][0].len());
                assert(self@.layers[l as int][r as int][c as int] == self.layers@[l as int]@[r as int]@[c as int]);
            }
            let a = &self.layers[l][r][c];
            if !(matches!(a, Action::Trans)) {
                return Some(l);
            }
            if l == 0 {
                return None;
            }
            l -= 1;
        }
    }

    /// Record a press at `(r, c)`: a pending hold-tap is forced to its
    /// tap, then the press resolves on the current layers.
    fn press(&mut self, r: usize, c: usize)
        requires
            layout_wf(old(self)@),
            pos_wf(old(self)@, r, c),
        ensures
            final(self)@ == spec_press(old(self)@, r, c),
            layout_wf(final(self)@),
    {
        if let Some(w) = self.waiting {
            self.tapped = Some(w.tap);
            self.waiting = None;
        }
        proof {
            assert(self@ =~= spec_force_tap(old(self)@));
        }
        let ghost v1 = self@;
        let lopt = self.resolve_layer(r, c);
        match lopt {
            None => {
                self.stack.push(StackEntry { row: r, col: c, resolved: Resolved::Silent });
                proof {
                    assert(self@.stack =~= v1.stack.push(
                        EntryView { row: r, col: c, codes: Seq::empty(), overlay: None },
                    ));
                }
            },
            Some(l) => {
                match &self.layers[l][r][c] {
                    Action::KeyCode(k) => {
                        let k = *k;
                        self.stack.push(StackEntry { row: r, col: c, resolved: Resolved::Code(k) });
                        proof {
                            assert(self@.stack =~= v1.stack.push(
                                EntryView { row: r, col: c, codes: seq![k], overlay: None },
                            ));
                        }
                    },
                    Action::MultipleKeyCodes(ks) => {
                        let codes = copy_codes(ks);
                        self.stack.push(
                            StackEntry { row: r, col: c, resolved: Resolved::Codes(codes) },
                        );
                        proof {
                            assert(self@.stack =~= v1.stack.push(
                                EntryView {
                                    row: r,
                                    col: c,
                                    codes: v1.layers[l as int][r as int][c as int]->MultipleKeyCodes_0@,
                                    overlay: None,
                                },
                            ));
                        }
                    },
                    Action::Layer(n) => {
                        let n = *n;
                        self.overlays.push(n);
                        self.stack.push(
                            StackEntry { row: r, col: c, resolved: Resolved::Overlay(n) },
                        );
                        proof {
                            assert(self@.stack =~= v1.stack.push(
                                EntryView { row: r, col: c, codes: Seq::empty(), overlay: Some(n) },
                            ));
                        }
                    },
                    Action::DefaultLayer(n) => {
                        let n = *n;
                        self.default_layer = n;
                        self.stack.push(
                            StackEntry { row: r, col: c, resolved: Resolved::Silent },
                        );
                        proof {
                            assert(self@.stack =~= v1.stack.push(
                                EntryView { row: r, col: c, codes: Seq::empty(), overlay: None },
                            ));
                        }
                    },
                    Action::HoldTap(h, t) => {
                        let h = *h;
                        let t = *t;
                        self.waiting = Some(
                            Waiting {
                                row: r,
                                col: c,
                                hold: HoldAction::HoldKey(h),
                                tap: t,
                                remaining: self.timeout,
                            },
                        );
                        proof {
                            assert(self@.stack =~= v1.stack);
                        }
                    },
                    Action::LayerTap(n, t) => {
                        let n = *n;
                        let t = *t;
                        self.waiting = Some(
                            Waiting {
                                row: r,
                                col: c,
                                hold: HoldAction::HoldLayer(n),
                                tap: t,
                                remaining: self.timeout,
                            },
                        );
                        proof {
                            assert(self@.stack =~= v1.stack);
                        }
                    },
                    _ => {
                        self.stack.push(StackEntry { row: r, col: c, resolved: Resolved::Silent });
                        proof {
                            assert(self@.stack =~= v1.stack.push(
                                EntryView { row: r, col: c, codes: Seq::empty(), overlay: None },
                            ));
                        }
                    },
                }
            },
        }
        proof {
            assert(self@ =~= spec_press_entry(v1, r, c));
        }
    }

    /// Take the first occurrence of layer `n` out of the overlays, if any.
    fn remove_one_overlay(&mut self, n: usize)
        ensures
            final(self)@ == (LayoutView {
                overlays: remove_overlay(old(self)@.overlays, n),
                ..old(self)@
            }),
    {
        let ghost ovs = self@.overlays;
        let mut i: usize = 0;
        let len = self.overlays.len();
        while i < len
            invariant
                i <= len,
                len == self@.overlays.len(),
                self@ == old(self)@,
                ovs == self@.overlays,
                find_overlay_from(ovs, n, 0) == find_overlay_from(ovs, n, i as int),
            decreases len - i,
        {
            if self.overlays[i] == n {
                self.overlays.remove(i);
                proof {
                    assert(self@ =~= (LayoutView {
                        overlays: remove_overlay(old(self)@.overlays, n),
                        ..old(self)@
                    }));
                }
                return;
            }
            i += 1;
        }
        proof {
            assert(find_overlay_from(ovs, n, len as int) == -1);
            assert(self@ =~= (LayoutView {
                overlays: remove_overlay(old(self)@.overlays, n),
                ..old(self)@
            }));
        }
    }

    /// Record a release at `(r, c)`: the pending hold-tap resolves as its
    /// tap if it sits there, else the matching stack entry leaves; a
    /// release with no matching press is dropped.
    fn release(&mut self, r: usize, c: usize)
        requires
            layout_wf(old(self)@),
        ensures
            final(self)@ == spec_release(old(self)@, r, c),
            layout_wf(final(self)@),
    {
        if let Some(w) = self.waiting {
            if w.row == r && w.col == c {
                self.tapped = Some(w.tap);
                self.waiting = None;
                proof {
                    assert(self@ =~= spec_release(old(self)@, r, c));
                }
                return;
            }
        }
        let ghost st = self@.stack;
        let mut i: usize = 0;
        let len = self.stack.len();
        while i < len
            invariant
                i <= len,
                len == self@.stack.len(),
                self@ == old(self)@,
                st == self@.stack,
                layout_wf(self@),
                find_entry(st, r, c) == find_entry_from(st, r, c, i as int),
                spec_release(old(self)@, r, c) == spec_release_stack(old(self)@, r, c),
            decreases len - i,
        {
            let matches_pos = {
                let e = &self.stack[i];
                e.row == r && e.col == c
            };
            if matches_pos {
                let e = self.stack.remove(i);
                proof {
                    assert(find_entry(st, r, c) == i);
                    assert(e@ == st[i as int]);
                    assert(self@.stack =~= st.remove(i as int));
                }
                match e.resolved {
                    Resolved::Overlay(n) => {
                        self.remove_one_overlay(n);
                        proof {
                            let ovs0 = old(self)@.overlays;
                            lemma_find_overlay_bounds(ovs0, n, 0);
                            let x = find_overlay_from(ovs0, n, 0);
                            if x != -1 {
                                assert forall|j: int| 0 <= j < self@.overlays.len() implies (
                                #[trigger] self@.overlays[j]) < self@.layers.len() by {
                                    if j < x {
                                        assert(self@.overlays[j] == ovs0[j]);
                                    } else {
                                        assert(self@.overlays[j] == ovs0[j + 1]);
                                    }
                                }
                            }
                        }
                    },
                    _ => {},
                }
                proof {
                    assert(self@ =~= spec_release_stack(old(self)@, r, c));
                }
                return;
            }
            i += 1;
        }
        proof {
            assert(find_entry(st, r, c) == -1);
            assert(self@ =~= spec_release(old(self)@, r, c));
        }
    }

    /// Feed one debounced event.
    pub fn event(&mut self, e: Event)
        requires
            layout_wf(old(self)@),
            e matches Event::Press(r, c) ==> pos_wf(old(self)@, r, c),
        ensures
            final(self)@ == spec_event(old(self)@, e),
            layout_wf(final(self)@),
    {
        match e {
            Event::Press(r, c) => self.press(r, c),
            Event::Release(r, c) => self.release(r, c),
        }
    }

    /// Advance one tick: the previous tick's tap expires, and a pending
    /// hold-tap whose timer runs out resolves as its hold. Returns the
    /// codes active during this tick.
    pub fn tick(&mut self) -> (codes: Vec<KeyCode>)
        requires
            layout_wf(old(self)@),
        ensures
            final(self)@ == spec_tick(old(self)@),
            layout_wf(final(self)@),
            codes@ == spec_keycodes(final(self)@),
    {
        self.tapped = None;
        if let Some(w) = self.waiting {
            let rem = if w.remaining > 0 {
                w.remaining - 1
            } else {
                0
            };
            if rem == 0 {
                self.waiting = None;
                match w.hold {
                    HoldAction::HoldKey(k) => {
                        self.stack.push(
                            StackEntry { row: w.row, col: w.col, resolved: Resolved::Code(k) },
                        );
                        proof {
                            assert(self@.stack =~= old(self)@.stack.push(
                                EntryView { row: w.row, col: w.col, codes: seq![k], overlay: None },
                            ));
                        }
                    },
                    HoldAction::HoldLayer(n) => {
                        self.overlays.push(n);
                        self.stack.push(
                            StackEntry { row: w.row, col: w.col, resolved: Resolved::Overlay(n) },
                        );
                        proof {
                            assert(self@.stack =~= old(self)@.stack.push(
                                EntryView {
                                    row: w.row,
                                    col: w.col,
                                    codes: Seq::empty(),
                                    overlay: Some(n),
                                },
                            ));
                        }
                    },
                }
            } else {
                self.waiting = Some(Waiting { remaining: rem, ..w });
            }
        }
        proof {
            assert(self@ =~= spec_tick(old(self)@));
        }
        self.keycodes()
    }

    /// The codes currently active: each held key's contribution plus a
    /// tap resolved since the last tick.
    pub fn keycodes(&self) -> (codes: Vec<KeyCode>)
        ensures
            codes@ == spec_keycodes(self@),
    {
        let mut codes: Vec<KeyCode> = Vec::new();
        let mut i: usize = 0;
        let len = self.stack.len();
        while i < len
            invariant
                i <= len,
                len == self@.stack.len(),
                codes@ == stack_codes(self@.stack.take(i as int)),
            decreases len - i,
        {
            proof {
                assert(self@.stack.take(i + 1 as int).drop_last() =~= self@.stack.take(i as int));
                assert(self@.stack.take(i + 1 as int).last() == self@.stack[i as int]);
                assert(self@.stack[i as int] == self.stack@[i as int]@);
            }
            let ghost prefix = codes@;
            let e = &self.stack[i];
            match &e.resolved {
                Resolved::Code(k) => {
                    codes.push(*k);
                },
                Resolved::Codes(ks) => {
                    let mut j: usize = 0;
                    while j < ks.len()
                        invariant
                            j <= ks@.len(),
                            codes@ == prefix + ks@.take(j as int),
                        decreases ks@.len() - j,
                    {
                        proof {
                            assert((prefix + ks@.take(j as int)).push(ks@[j as int]) =~= prefix
                                + ks@.take(j + 1 as int));
                        }
                        codes.push(ks[j]);
                        j += 1;
                    }
                    proof {
                        assert(ks@.take(ks@.len() as int) =~= ks@);
                    }
                },
                _ => {},
            }
            proof {
                assert(codes@ =~= stack_codes(self@.stack.take(i + 1 as int)));
            }
            i += 1;
        }
        proof {
            assert(self@.stack.take(len as int) =~= self@.stack);
        }
        if let Some(k) = self.tapped {
            codes.push(k);
        }
        proof {
            assert(codes@ =~= spec_keycodes(self@));
        }
        codes
    }
}

/// The codes the stack keeps active, in press order.
pub open spec fn stack_codes(stack: Seq<EntryView>) -> Seq<KeyCode>
    decreases stack.len(),
{
    if stack.len() == 0 {
        Seq::empty()
    } else {
        stack_codes(stack.drop_last()) + stack.last().codes
    }
}

/// The codes currently active: the stack's contributions plus a tap
/// resolved since the last tick.
pub open spec fn spec_keycodes(v: LayoutView) -> Seq<KeyCode> {
    stack_codes(v.stack) + (match v.tapped {
        Some(k) => seq![k],
        None => Seq::empty(),
    })
}

/// Walking down over transparent cells does not change the resolution.
pub proof fn lemma_resolve_skip_trans(
    layers: Seq<Seq<Seq<Action>>>,
    hi: int,
    lo: int,
    r: int,
    c: int,
)
    requires
        lo <= hi,
        forall|l: int| lo < l <= hi ==> (#[trigger] layers[l][r][c]) is Trans,
    ensures
        spec_resolve_from(layers, hi, r, c) == spec_resolve_from(layers, lo, r, c),
    decreases hi - lo,
{
    if lo < hi {
        lemma_resolve_skip_trans(layers, hi - 1, lo, r, c);
    }
}

/// Law of layer resolution: when the cell at `(r, c)` is transparent on
/// every layer but `j`, a press there resolves to layer `j`'s action
/// whenever `j` lies at or below the effective layer.
pub proof fn lemma_layer_resolution(v: LayoutView, j: int, r: int, c: int)
    requires
        layout_wf(v),
        0 <= j < v.layers.len(),
        forall|l: int|
            0 <= l < v.layers.len() && l != j ==> (#[trigger] v.layers[l][r][c]) is Trans,
        !(v.layers[j][r][c] is Trans),
        j <= effective_layer(v.default_layer, v.overlays),
    ensures
        spec_resolve(v, r, c) == v.layers[j][r][c],
{
    let eff = effective_layer(v.default_layer, v.overlays);
    lemma_max_overlay_bounds(v.overlays, v.default_layer as int, v.layers.len() as int);
    lemma_resolve_skip_trans(v.layers, eff, j, r, c);
}

/// When no entry of the stack sits at `(r, c)`, a fresh entry pushed
/// there is the one the next release finds.
pub proof fn lemma_find_entry_push(stack: Seq<EntryView>, e: EntryView, r: usize, c: usize, i: int)
    requires
        0 <= i <= stack.len(),
        e.row == r && e.col == c,
        forall|k: int|
            0 <= k < stack.len() ==> !((#[trigger] stack[k]).row == r && stack[k].col == c),
    ensures
        find_entry_from(stack.push(e), r, c, i) == stack.len(),
    decreases stack.len() - i,
{
    if i < stack.len() {
        assert(stack.push(e)[i] == stack[i]);
        lemma_find_entry_push(stack, e, r, c, i + 1);
    } else {
        assert(stack.push(e)[i] == e);
    }
}

/// A `-1` from the overlay search means the layer does not occur from
/// `i` on.
pub proof fn lemma_find_overlay_none(overlays: Seq<usize>, n: usize, i: int)
    requires
        0 <= i,
        find_overlay_from(overlays, n, i) == -1,
    ensures
        forall|k: int| i <= k < overlays.len() ==> (#[trigger] overlays[k]) != n,
    decreases overlays.len() - i,
{
    if i < overlays.len() && overlays[i] != n {
        lemma_find_overlay_none(overlays, n, i + 1);
    }
}

/// Pushing a copy of layer `n` and then taking the first `n` back out
/// leaves the overlays unchanged as a multiset.
pub proof fn lemma_overlay_push_remove(overlays: Seq<usize>, n: usize)
    ensures
        remove_overlay(overlays.push(n), n).to_multiset() == overlays.to_multiset(),
{
    broadcast use vstd::seq_lib::group_to_multiset_ensures;

    let s = overlays.push(n);
    let x = find_overlay_from(s, n, 0);
    lemma_find_overlay_bounds(s, n, 0);
    if x == -1 {
        lemma_find_overlay_none(s, n, 0);
        assert(s[s.len() - 1] == n);
        assert(false);
    }
    assert(s[x] == n);
    assert(s.remove(x).to_multiset() =~= s.to_multiset().remove(n));
    assert(s.to_multiset() =~= overlays.to_multiset().insert(n));
    assert(overlays.to_multiset().insert(n).remove(n) =~= overlays.to_multiset());
}

/// The layout after `k` ticks with no intervening events.
pub open spec fn spec_ticks(l: LayoutView, k: nat) -> LayoutView
    decreases k,
{
    if k == 0 {
        l
    } else {
        spec_ticks(spec_tick(l), (k - 1) as nat)
    }
}

/// The shapes a layout passes through between a press at `(r, c)` and
/// its release: either the press is still waiting as a hold-tap there,
/// or its entry sits on top of the stack (with its overlay, if any).
pub open spec fn spec_press_pending(v: LayoutView, t: LayoutView, r: usize, c: usize) -> bool {
    ||| (match t.waiting {
        Some(w) => w.row == r && w.col == c && t.stack == v.stack && t.overlays == v.overlays,
        None => false,
    })
    ||| (t.waiting is None && exists|e: EntryView|
        e.row == r && e.col == c && t.stack == v.stack.push(e) && (match e.overlay {
            None => t.overlays == v.overlays,
            Some(n) => t.overlays == v.overlays.push(n),
        }))
}

/// A press leaves the layout in a pending shape for its position.
pub proof fn lemma_press_pending(v: LayoutView, r: usize, c: usize)
    ensures
        spec_press_pending(v, spec_press(v, r, c), r, c),
{
    let f = spec_force_tap(v);
    let p = spec_press(v, r, c);
    let a = spec_resolve(f, r as int, c as int);
    match a {
        Action::HoldTap(_, _) => {},
        Action::LayerTap(_, _) => {},
        Action::KeyCode(k) => {
            assert(p.stack == v.stack.push(
                EntryView { row: r, col: c, codes: seq![k], overlay: None },
            ));
        },
        Action::MultipleKeyCodes(ks) => {
            assert(p.stack == v.stack.push(
                EntryView { row: r, col: c, codes: ks@, overlay: None },
            ));
        },
        Action::Layer(n) => {
            assert(p.stack == v.stack.push(
                EntryView { row: r, col: c, codes: Seq::empty(), overlay: Some(n) },
            ));
        },
        _ => {
            assert(p.stack == v.stack.push(
                EntryView { row: r, col: c, codes: Seq::empty(), overlay: None },
            ));
        },
    }
}

/// Ticks keep a pending press pending: the wait either goes on or
/// resolves as its hold, whose entry then tops the stack.
pub proof fn lemma_tick_keeps_pending(v: LayoutView, t: LayoutView, r: usize, c: usize)
    requires
        spec_press_pending(v, t, r, c),
    ensures
        spec_press_pending(v, spec_tick(t), r, c),
{
    match t.waiting {
        Some(w) => {
            match w.hold {
                HoldAction::HoldKey(k) => {
                    assert(spec_tick(t).waiting is Some ==> spec_tick(t).waiting == Some(
                        Waiting { remaining: (w.remaining - 1) as u16, ..w },
                    ));
                    if !(spec_tick(t).waiting is Some) {
                        assert(spec_tick(t).stack == v.stack.push(
                            EntryView { row: r, col: c, codes: seq![k], overlay: None },
                        ));
                    }
                },
                HoldAction::HoldLayer(n) => {
                    if !(spec_tick(t).waiting is Some) {
                        assert(spec_tick(t).stack == v.stack.push(
                            EntryView { row: r, col: c, codes: Seq::empty(), overlay: Some(n) },
                        ));
                    }
                },
            }
        },
        None => {
            let e = choose|e: EntryView|
                e.row == r && e.col == c && t.stack == v.stack.push(e) && (match e.overlay {
                    None => t.overlays == v.overlays,
                    Some(n) => t.overlays == v.overlays.push(n),
                });
            assert(spec_tick(t).stack == v.stack.push(e) && (match e.overlay {
                None => spec_tick(t).overlays == v.overlays,
                Some(n) => spec_tick(t).overlays == v.overlays.push(n),
            }));
        },
    }
}

/// Releasing a pending press restores the stack and, as a multiset, the
/// overlays.
pub proof fn lemma_release_pending(v: LayoutView, t: LayoutView, r: usize, c: usize)
    requires
        spec_press_pending(v, t, r, c),
        forall|i: int|
            0 <= i < v.stack.len() ==> !((#[trigger] v.stack[i]).row == r && v.stack[i].col == c),
    ensures
        spec_release(t, r, c).stack == v.stack,
        spec_release(t, r, c).overlays.to_multiset() == v.overlays.to_multiset(),
{
    match t.waiting {
        Some(_) => {},
        None => {
            let e = choose|e: EntryView|
                e.row == r && e.col == c && t.stack == v.stack.push(e) && (match e.overlay {
                    None => t.overlays == v.overlays,
                    Some(n) => t.overlays == v.overlays.push(n),
                });
            lemma_find_entry_push(v.stack, e, r, c, 0);
            assert(find_entry(t.stack, r, c) == v.stack.len());
            assert(spec_release(t, r, c).stack =~= v.stack);
            match e.overlay {
                Some(n) => {
                    lemma_overlay_push_remove(v.overlays, n);
                },
                None => {},
            }
        },
    }
}

/// Law of press–release neutrality, in its timed form: a press at a
/// position with no entry on the stack, any number of ticks, then its
/// release return the stack and the held overlays (as a multiset) to
/// what they were before the press; only the sticky base layer chosen by
/// `DefaultLayer` may differ.
pub proof fn lemma_press_eventually_released(v: LayoutView, r: usize, c: usize, k: nat)
    requires
        forall|i: int|
            0 <= i < v.stack.len() ==> !((#[trigger] v.stack[i]).row == r && v.stack[i].col == c),
    ensures
        ({
            let v2 = spec_release(spec_ticks(spec_press(v, r, c), k), r, c);
            v2.stack == v.stack && v2.overlays.to_multiset() == v.overlays.to_multiset()
        }),
{
    lemma_press_pending(v, r, c);
    lemma_ticks_keep_pending(v, spec_press(v, r, c), r, c, k);
    lemma_release_pending(v, spec_ticks(spec_press(v, r, c), k), r, c);
}

/// Any number of ticks keeps a pending press pending.
pub proof fn lemma_ticks_keep_pending(v: LayoutView, t: LayoutView, r: usize, c: usize, k: nat)
    requires
        spec_press_pending(v, t, r, c),
    ensures
        spec_press_pending(v, spec_ticks(t, k), r, c),
    decreases k,
{
    if k > 0 {
        lemma_tick_keeps_pending(v, t, r, c);
        lemma_ticks_keep_pending(v, spec_tick(t), r, c, (k - 1) as nat);
    }
}

/// Law of press–release neutrality: a press at a position with no entry
/// on the stack, followed by its release, returns the stack and the held
/// overlays (as a multiset) to what they were before the press; only the
/// sticky base layer chosen by `DefaultLayer` may differ.
pub proof fn lemma_press_release_restores(v: LayoutView, r: usize, c: usize)
    requires
        forall|i: int|
            0 <= i < v.stack.len() ==> !((#[trigger] v.stack[i]).row == r && v.stack[i].col == c),
    ensures
        ({
            let v2 = spec_event(spec_event(v, Event::Press(r, c)), Event::Release(r, c));
            v2.stack == v.stack && v2.overlays.to_multiset() == v.overlays.to_multiset()
        }),
{
    let f = spec_force_tap(v);
    let v1 = spec_press(v, r, c);
    let v2 = spec_release(v1, r, c);
    let a = spec_resolve(f, r as int, c as int);
    match a {
        Action::HoldTap(_, _) => {},
        Action::LayerTap(_, _) => {},
        _ => {
            let e = match a {
                Action::KeyCode(k) => EntryView { row: r, col: c, codes: seq![k], overlay: None },
                Action::MultipleKeyCodes(ks) => EntryView {
                    row: r,
                    col: c,
                    codes: ks@,
                    overlay: None,
                },
                Action::Layer(n) => EntryView {
                    row: r,
                    col: c,
                    codes: Seq::empty(),
                    overlay: Some(n),
                },
                _ => EntryView { row: r, col: c, codes: Seq::empty(), overlay: None },
            };
            assert(v1.stack == v.stack.push(e));
            assert(v1.waiting is None);
            lemma_find_entry_push(v.stack, e, r, c, 0);
            assert(find_entry(v1.stack, r, c) == v.stack.len());
            assert(v2.stack =~= v.stack);
            match e.overlay {
                Some(n) => {
                    lemma_overlay_push_remove(v.overlays, n);
                },
                None => {},
            }
        },
    }
}

} // verus!
