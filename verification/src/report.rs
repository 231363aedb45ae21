//! The 8-byte USB HID boot-keyboard report.

use vstd::prelude::*;
use crate::key_code::KeyCode;

verus! {

/// The report bytes are `[modifiers, reserved, k1, k2, k3, k4, k5, k6]`:
/// a modifier bitfield, a zero byte, and six key slots.
pub open spec fn report_wf(b: Seq<u8>) -> bool {
    &&& b.len() == 8
    &&& b[1] == 0
    &&& forall|i: int| 2 <= i < 8 ==> !KeyCode::spec_is_modifier_code(#[trigger] b[i])
}

/// The empty report: all eight bytes zero.
pub open spec fn spec_empty_report() -> Seq<u8> {
    Seq::new(8, |i: int| 0u8)
}

/// The given report with all six key slots set to `v`.
pub open spec fn spec_set_slots(b: Seq<u8>, v: u8) -> Seq<u8> {
    Seq::new(8, |i: int| if i >= 2 { v } else { b[i] })
}

/// The lowest free key slot at index `i` or above: the smallest `j` with
/// `i <= j < 8` and `b[j] == 0`, or `8` if every such slot is taken.
pub open spec fn spec_first_free_from(b: Seq<u8>, i: int) -> int
    decreases 8 - i,
{
    if i >= 8 {
        8
    } else if b[i] == 0 {
        i
    } else {
        spec_first_free_from(b, i + 1)
    }
}

/// The lowest free key slot of the report, or `8` if all six are taken.
pub open spec fn spec_first_free(b: Seq<u8>) -> int {
    spec_first_free_from(b, 2)
}

/// The report after one key code is added: `No` changes nothing; an error
/// code fills the six slots with itself; a modifier sets its bit in byte 0;
/// any other code takes the lowest free slot, or, when none is free, the
/// slots are all set to `ErrorRollOver` (0x01).
pub open spec fn spec_pressed(b: Seq<u8>, kc: KeyCode) -> Seq<u8> {
    let v = kc.spec_code();
    if v == 0x00 {
        b
    } else if v == 0x01 || v == 0x02 || v == 0x03 {
        spec_set_slots(b, v)
    } else if kc.spec_is_modifier() {
        b.update(0, b[0] | kc.spec_modifier_bit())
    } else if spec_first_free(b) < 8 {
        b.update(spec_first_free(b), v)
    } else {
        spec_set_slots(b, 0x01)
    }
}

/// The report obtained by folding `spec_pressed` over `ks`, starting from `b`.
pub open spec fn spec_report_of_from(b: Seq<u8>, ks: Seq<KeyCode>) -> Seq<u8>
    decreases ks.len(),
{
    if ks.len() == 0 {
        b
    } else {
        spec_report_of_from(spec_pressed(b, ks[0]), ks.drop_first())
    }
}

/// The report obtained by pressing `ks` in order into the empty report.
pub open spec fn spec_report_of(ks: Seq<KeyCode>) -> Seq<u8> {
    spec_report_of_from(spec_empty_report(), ks)
}

/// Whether bit `i` of the modifier bitfield is set.
pub open spec fn spec_mod_bit_set(bitfield: u8, i: u8) -> bool {
    bitfield & (1u8 << i) != 0
}

/// A standard keyboard USB HID report.
///
/// It can handle any modifier and 6 keys.
#[derive(Debug, Clone)]
pub struct KbHidReport {
    bytes: Vec<u8>,
}

impl View for KbHidReport {
    type V = Seq<u8>;

    closed spec fn view(&self) -> Seq<u8> {
        self.bytes@
    }
}

impl Default for KbHidReport {
    /// The empty report.
    fn default() -> (r: Self)
        ensures
            r@ == spec_empty_report(),
    {
        let mut bytes: Vec<u8> = Vec::new();
        let mut i: usize = 0;
        while i < 8
            invariant
                i <= 8,
                bytes@.len() == i,
                forall|j: int| 0 <= j < i ==> bytes@[j] == 0,
            decreases 8 - i,
        {
            bytes.push(0);
            i += 1;
        }
        proof {
            assert(bytes@ =~= spec_empty_report());
        }
        KbHidReport { bytes }
    }
}

impl KbHidReport {
    /// Returns the byte slice corresponding to the report.
    pub fn as_bytes(&self) -> (r: &[u8])
        ensures
            r@ == self@,
    {
        self.bytes.as_slice()
    }

    /// Add the given key code to the report. If the report is full,
    /// it will be set to `ErrorRollOver`.
    pub fn pressed(&mut self, kc: KeyCode)
        requires
            old(self)@.len() == 8,
        ensures
            final(self)@ == spec_pressed(old(self)@, kc),
    {
        proof {
            reveal_with_fuel(spec_first_free_from, 9);
        }
        let v = kc.as_byte();
        if v == 0x00 {
        } else if v == 0x01 || v == 0x02 || v == 0x03 {
            self.set_all(kc);
        } else if kc.is_modifier() {
            let m = self.bytes[0] | kc.as_modifier_bit();
            self.bytes.set(0, m);
        } else if self.bytes[2] == 0 {
            self.bytes.set(2, v);
        } else if self.bytes[3] == 0 {
            self.bytes.set(3, v);
        } else if self.bytes[4] == 0 {
            self.bytes.set(4, v);
        } else if self.bytes[5] == 0 {
            self.bytes.set(5, v);
        } else if self.bytes[6] == 0 {
            self.bytes.set(6, v);
        } else if self.bytes[7] == 0 {
            self.bytes.set(7, v);
        } else {
            self.set_all(KeyCode::ErrorRollOver);
        }
    }

    /// Fill the six key slots with the given code, leaving the modifier
    /// bitfield and the reserved byte as they are.
    fn set_all(&mut self, kc: KeyCode)
        requires
            old(self)@.len() == 8,
        ensures
            final(self)@ == spec_set_slots(old(self)@, kc.spec_code()),
    {
        let v = kc.as_byte();
        let mut i: usize = 2;
        while i < 8
            invariant
                2 <= i <= 8,
                self@.len() == 8,
                v == kc.spec_code(),
                forall|j: int| 0 <= j < 2 ==> self@[j] == old(self)@[j],
                forall|j: int| 2 <= j < i ==> self@[j] == v,
                forall|j: int| i <= j < 8 ==> self@[j] == old(self)@[j],
            decreases 8 - i,
        {
            self.bytes.set(i, v);
            i += 1;
        }
        proof {
            assert(self@ =~= spec_set_slots(old(self)@, kc.spec_code()));
        }
    }

    /// Fold `pressed` over the given key codes, starting from the empty
    /// report.
    pub fn from_iter(keycodes: &Vec<KeyCode>) -> (r: Self)
        ensures
            r@ == spec_report_of(keycodes@),
    {
        let mut r = Self::default();
        let mut i: usize = 0;
        while i < keycodes.len()
            invariant
                i <= keycodes@.len(),
                r@.len() == 8,
                r@ == spec_report_of_from(spec_empty_report(), keycodes@.take(i as int)),
            decreases keycodes@.len() - i,
        {
            proof {
                lemma_report_of_snoc(spec_empty_report(), keycodes@.take(i as int), keycodes@[i as int]);
                assert(keycodes@.take(i as int).push(keycodes@[i as int]) =~= keycodes@.take(i + 1 as int));
            }
            r.pressed(keycodes[i]);
            proof {
                lemma_pressed_len(spec_report_of_from(spec_empty_report(), keycodes@.take(i as int)), keycodes@[i as int]);
            }
            i += 1;
        }
        proof {
            assert(keycodes@.take(keycodes@.len() as int) =~= keycodes@);
        }
        r
    }
}

/// Whether the host's one-byte LED output report asks for CapsLock:
/// its bit 1 (value 0x02) carries that LED.
pub fn caps_lock_led(led_report: u8) -> (r: bool)
    ensures
        r == (led_report & 0x02 != 0),
{
    led_report & 0x02 != 0
}

/// The lowest free slot lies between `i` and `8`, and points at a zero
/// byte whenever it is below `8`; the slots before it are all taken.
pub proof fn lemma_first_free_bounds(b: Seq<u8>, i: int)
    requires
        0 <= i <= 8,
    ensures
        i <= spec_first_free_from(b, i) <= 8,
        spec_first_free_from(b, i) < 8 ==> b[spec_first_free_from(b, i)] == 0,
        forall|j: int| i <= j < spec_first_free_from(b, i) ==> b[j] != 0,
    decreases 8 - i,
{
    if i < 8 && b[i] != 0 {
        lemma_first_free_bounds(b, i + 1);
    }
}

/// `spec_pressed` keeps the report eight bytes long.
pub proof fn lemma_pressed_len(b: Seq<u8>, kc: KeyCode)
    requires
        b.len() == 8,
    ensures
        spec_pressed(b, kc).len() == 8,
{
    lemma_first_free_bounds(b, 2);
}

/// A key code from the ordinary range: one that occupies a key slot when
/// pressed (neither `No`, nor an error code, nor a modifier).
pub open spec fn spec_is_ordinary(kc: KeyCode) -> bool {
    4 <= kc.spec_code() && !kc.spec_is_modifier()
}

/// When the slots from `i` up to `k` are taken and slot `k` is free, the
/// lowest free slot from `i` on is exactly `k`.
pub proof fn lemma_first_free_from_value(b: Seq<u8>, i: int, k: int)
    requires
        0 <= i <= k <= 8,
        forall|j: int| i <= j < k ==> b[j] != 0,
        k < 8 ==> b[k] == 0,
    ensures
        spec_first_free_from(b, i) == k,
    decreases k - i,
{
    if i < k {
        lemma_first_free_from_value(b, i + 1, k);
    }
}

/// Any fold of presses keeps the report eight bytes long.
pub proof fn lemma_report_of_len(ks: Seq<KeyCode>)
    ensures
        spec_report_of(ks).len() == 8,
    decreases ks.len(),
{
    if ks.len() > 0 {
        let ks0 = ks.drop_last();
        lemma_report_of_len(ks0);
        assert(ks0.push(ks.last()) =~= ks);
        lemma_report_of_snoc(spec_empty_report(), ks0, ks.last());
        lemma_pressed_len(spec_report_of(ks0), ks.last());
    }
}

/// Law of the report invariant: any sequence of `pressed` calls keeps the
/// report well formed — the six key slots never hold a modifier code and
/// the reserved byte stays zero — and bit `i` of the modifier bitfield is
/// set exactly when some pressed code is the modifier `0xE0 + i`.
pub proof fn lemma_report_invariant(ks: Seq<KeyCode>)
    ensures
        report_wf(spec_report_of(ks)),
        forall|i: u8| i < 8 ==> (spec_mod_bit_set(spec_report_of(ks)[0], i) <==> exists|j: int|
            0 <= j < ks.len() && #[trigger] ks[j].spec_code() == 0xE0 + i),
    decreases ks.len(),
{
    if ks.len() == 0 {
        assert(spec_report_of(ks) == spec_empty_report());
        assert forall|i: u8| i < 8 implies !spec_mod_bit_set(spec_report_of(ks)[0], i) by {
            assert(0u8 & (1u8 << i) == 0) by (bit_vector);
        }
    } else {
        let ks0 = ks.drop_last();
        let kc = ks.last();
        lemma_report_invariant(ks0);
        assert(ks0.push(kc) =~= ks);
        lemma_report_of_snoc(spec_empty_report(), ks0, kc);
        let b0 = spec_report_of(ks0);
        let b1 = spec_report_of(ks);
        lemma_first_free_bounds(b0, 2);
        let v = kc.spec_code();
        assert(forall|j: int| 0 <= j < ks0.len() ==> ks0[j] == ks[j]);
        assert(report_wf(b1)) by {
            if v == 0x01 || v == 0x02 || v == 0x03 {
                assert(!KeyCode::spec_is_modifier_code(v));
            }
        }
        assert forall|i: u8| i < 8 implies (spec_mod_bit_set(b1[0], i) <==> exists|j: int|
            0 <= j < ks.len() && #[trigger] ks[j].spec_code() == 0xE0 + i) by {
            if kc.spec_is_modifier() {
                let m = (v - 0xE0) as u8;
                let x = b0[0];
                assert(b1[0] == (x | (1u8 << m)));
                assert(((x | (1u8 << m)) & (1u8 << i) != 0) <==> ((x & (1u8 << i) != 0) || i
                    == m)) by (bit_vector)
                    requires
                        m < 8,
                        i < 8,
                ;
                if i == m {
                    assert(ks[ks.len() - 1].spec_code() == 0xE0 + i);
                }
            } else {
                assert(b1[0] == b0[0]);
                assert(v != 0xE0 + i);
            }
            if spec_mod_bit_set(b1[0], i) && spec_mod_bit_set(b0[0], i) {
                let j = choose|j: int| 0 <= j < ks0.len() && #[trigger] ks0[j].spec_code()
                    == 0xE0 + i;
                assert(ks[j].spec_code() == 0xE0 + i);
            }
            if exists|j: int| 0 <= j < ks.len() && #[trigger] ks[j].spec_code() == 0xE0 + i {
                let j = choose|j: int| 0 <= j < ks.len() && #[trigger] ks[j].spec_code() == 0xE0
                    + i;
                if j < ks0.len() {
                    assert(ks0[j].spec_code() == 0xE0 + i);
                    assert(spec_mod_bit_set(b0[0], i));
                } else {
                    assert(kc.spec_code() == 0xE0 + i);
                    assert(kc.spec_is_modifier());
                }
                assert(spec_mod_bit_set(b1[0], i));
            }
        }
    }
}

/// Law of rollover: pressing more than six codes from the ordinary range
/// (each takes a slot, so six presses fill the report) sets all six key
/// slots to `ErrorRollOver` (0x01); the codes need not be distinct.
pub proof fn lemma_rollover(ks: Seq<KeyCode>)
    requires
        ks.len() > 6,
        forall|j: int| 0 <= j < ks.len() ==> spec_is_ordinary(#[trigger] ks[j]),
    ensures
        forall|i: int| 2 <= i < 8 ==> spec_report_of(ks)[i] == 0x01,
    decreases ks.len(),
{
    let ks0 = ks.drop_last();
    let kc = ks.last();
    assert(ks0.push(kc) =~= ks);
    lemma_report_of_snoc(spec_empty_report(), ks0, kc);
    assert(forall|j: int| 0 <= j < ks0.len() ==> ks0[j] == ks[j]);
    let b0 = spec_report_of(ks0);
    let v = kc.spec_code();
    lemma_report_of_len(ks0);
    if ks.len() == 7 {
        lemma_fill(ks0);
        assert forall|j: int| 2 <= j < 8 implies b0[j] != 0 by {
            assert(b0[2 + (j - 2)] == ks0[j - 2].spec_code());
            assert(spec_is_ordinary(ks0[j - 2]));
        }
    } else {
        lemma_rollover(ks0);
    }
    lemma_first_free_from_value(b0, 2, 8);
    assert(spec_report_of(ks) == spec_set_slots(b0, 0x01));
}

/// After at most six presses from the ordinary range the slots hold
/// exactly the pressed codes, in press order, with the rest free.
pub proof fn lemma_fill(ks: Seq<KeyCode>)
    requires
        ks.len() <= 6,
        forall|j: int| 0 <= j < ks.len() ==> spec_is_ordinary(#[trigger] ks[j]),
    ensures
        forall|j: int| 0 <= j < ks.len() ==> #[trigger] spec_report_of(ks)[2 + j] == ks[j].spec_code(),
        forall|j: int| ks.len() <= j < 6 ==> #[trigger] spec_report_of(ks)[2 + j] == 0,
    decreases ks.len(),
{
    if ks.len() > 0 {
        let ks0 = ks.drop_last();
        let kc = ks.last();
        assert(forall|j: int| 0 <= j < ks0.len() ==> ks0[j] == ks[j]);
        lemma_fill(ks0);
        assert(ks0.push(kc) =~= ks);
        lemma_report_of_snoc(spec_empty_report(), ks0, kc);
        lemma_report_of_len(ks0);
        let b0 = spec_report_of(ks0);
        let v = kc.spec_code();
        assert forall|j: int| 2 <= j < 2 + ks0.len() implies b0[j] != 0 by {
            assert(b0[2 + (j - 2)] == ks0[j - 2].spec_code());
            assert(spec_is_ordinary(ks0[j - 2]));
        }
        lemma_first_free_from_value(b0, 2, 2 + ks0.len() as int);
        assert(spec_report_of(ks) == b0.update(2 + ks0.len() as int, v));
    }
}

/// Folding over `ks.push(kc)` is folding over `ks`, then pressing `kc`.
pub proof fn lemma_report_of_snoc(b: Seq<u8>, ks: Seq<KeyCode>, kc: KeyCode)
    ensures
        spec_report_of_from(b, ks.push(kc)) == spec_pressed(spec_report_of_from(b, ks), kc),
    decreases ks.len(),
{
    reveal_with_fuel(spec_report_of_from, 3);
    if ks.len() == 0 {
        assert(ks.push(kc)[0] == kc);
        assert(ks.push(kc).drop_first() =~= Seq::<KeyCode>::empty());
    } else {
        assert(ks.push(kc)[0] == ks[0]);
        assert(ks.push(kc).drop_first() =~= ks.drop_first().push(kc));
        lemma_report_of_snoc(spec_pressed(b, ks[0]), ks.drop_first(), kc);
    }
}

} // verus!
