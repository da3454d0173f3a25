//! Input sampling: held keys are turned into a normalized local-space
//! movement intent, according to a keybinding table.
//!
//! Coordinate conventions: +X is right, +Y is up, forward is -Z.
//!
//! A raw direction is the sum of one unit contribution per held key; each
//! component therefore lies in {-1, 0, 1} once held keys are distinct, and
//! the summed vector has squared length 0, 1, 2 or 3. Normalization scales
//! the raw sum by the fixed-point value of 1/sqrt(len2), so a non-zero
//! intent always has length 1 up to the rounding of those constants.

use vstd::prelude::*;

use crate::math::{Vec3, UNIT, INV_SQRT_2, INV_SQRT_3};

verus! {

/// Key code for the letter W.
pub const KEY_W: u32 = 87;

/// Key code for the letter S.
pub const KEY_S: u32 = 83;

/// Key code for the letter A.
pub const KEY_A: u32 = 65;

/// Key code for the letter D.
pub const KEY_D: u32 = 68;

/// Key code for the space bar.
pub const KEY_SPACE: u32 = 32;

/// Key code for the left shift key.
pub const KEY_SHIFT_LEFT: u32 = 16;

/// Keybindings for player movement input: one physical key code per logical
/// action.
#[derive(Clone, Copy, Debug, PartialEq, Eq, Structural)]
pub struct PlayerKeybindings {
    pub forward: u32,
    pub back: u32,
    pub left: u32,
    pub right: u32,
    pub up: u32,
    pub down: u32,
}

impl Default for PlayerKeybindings {
    /// The default mapping: forward=W, back=S, left=A, right=D, up=Space,
    /// down=Shift.
    fn default() -> (kb: PlayerKeybindings)
        ensures
            kb == (PlayerKeybindings {
                forward: KEY_W,
                back: KEY_S,
                left: KEY_A,
                right: KEY_D,
                up: KEY_SPACE,
                down: KEY_SHIFT_LEFT,
            }),
    {
        PlayerKeybindings {
            forward: KEY_W,
            back: KEY_S,
            left: KEY_A,
            right: KEY_D,
            up: KEY_SPACE,
            down: KEY_SHIFT_LEFT,
        }
    }
}

/// Contribution of one held key to the X axis (+1 right, -1 left). An action
/// earlier in the dispatch order (right, left, up, down, forward, back)
/// claims a key bound to several actions.
pub open spec fn key_dx(kb: PlayerKeybindings, k: u32) -> int {
    if k == kb.right {
        1
    } else if k == kb.left {
        -1
    } else {
        0
    }
}

/// Contribution of one held key to the Y axis (+1 up, -1 down).
pub open spec fn key_dy(kb: PlayerKeybindings, k: u32) -> int {
    if k == kb.right || k == kb.left {
        0
    } else if k == kb.up {
        1
    } else if k == kb.down {
        -1
    } else {
        0
    }
}

/// Contribution of one held key to the Z axis (-1 forward, +1 back).
pub open spec fn key_dz(kb: PlayerKeybindings, k: u32) -> int {
    if k == kb.right || k == kb.left || k == kb.up || k == kb.down {
        0
    } else if k == kb.forward {
        -1
    } else if k == kb.back {
        1
    } else {
        0
    }
}

/// Sum of the X contributions of a sequence of held keys.
pub open spec fn raw_x(kb: PlayerKeybindings, keys: Seq<u32>) -> int
    decreases keys.len(),
{
    if keys.len() == 0 {
        0
    } else {
        raw_x(kb, keys.drop_last()) + key_dx(kb, keys.last())
    }
}

/// Sum of the Y contributions of a sequence of held keys.
pub open spec fn raw_y(kb: PlayerKeybindings, keys: Seq<u32>) -> int
    decreases keys.len(),
{
    if keys.len() == 0 {
        0
    } else {
        raw_y(kb, keys.drop_last()) + key_dy(kb, keys.last())
    }
}

/// Sum of the Z contributions of a sequence of held keys.
pub open spec fn raw_z(kb: PlayerKeybindings, keys: Seq<u32>) -> int
    decreases keys.len(),
{
    if keys.len() == 0 {
        0
    } else {
        raw_z(kb, keys.drop_last()) + key_dz(kb, keys.last())
    }
}

/// Closed form of [`raw_x`] on duplicate-free key sequences: +1 when the
/// right key is held, -1 when the left key is held, and they cancel.
pub open spec fn held_x(kb: PlayerKeybindings, keys: Seq<u32>) -> int {
    (if keys.contains(kb.right) {
        1int
    } else {
        0int
    }) - (if kb.left != kb.right && keys.contains(kb.left) {
        1int
    } else {
        0int
    })
}

/// Closed form of [`raw_y`] on duplicate-free key sequences.
pub open spec fn held_y(kb: PlayerKeybindings, keys: Seq<u32>) -> int {
    (if kb.up != kb.right && kb.up != kb.left && keys.contains(kb.up) {
        1int
    } else {
        0int
    }) - (if kb.down != kb.right && kb.down != kb.left && kb.down != kb.up && keys.contains(kb.down) {
        1int
    } else {
        0int
    })
}

/// Closed form of [`raw_z`] on duplicate-free key sequences.
pub open spec fn held_z(kb: PlayerKeybindings, keys: Seq<u32>) -> int {
    (if kb.back != kb.right && kb.back != kb.left && kb.back != kb.up && kb.back != kb.down
        && kb.back != kb.forward && keys.contains(kb.back) {
        1int
    } else {
        0int
    }) - (if kb.forward != kb.right && kb.forward != kb.left && kb.forward != kb.up
        && kb.forward != kb.down && keys.contains(kb.forward) {
        1int
    } else {
        0int
    })
}

/// On duplicate-free key sequences the per-key sums equal their closed
/// forms, so each raw component lies in {-1, 0, 1}.
pub proof fn lemma_raw_closed_form(kb: PlayerKeybindings, keys: Seq<u32>)
    requires
        keys.no_duplicates(),
    ensures
        raw_x(kb, keys) == held_x(kb, keys),
        raw_y(kb, keys) == held_y(kb, keys),
        raw_z(kb, keys) == held_z(kb, keys),
    decreases keys.len(),
{
    if keys.len() == 0 {
        assert(!keys.contains(kb.right));
        assert(!keys.contains(kb.left));
        assert(!keys.contains(kb.up));
        assert(!keys.contains(kb.down));
        assert(!keys.contains(kb.forward));
        assert(!keys.contains(kb.back));
    } else {
        let head = keys.drop_last();
        let last = keys.last();
        assert(head.no_duplicates());
        lemma_raw_closed_form(kb, head);
        assert(!head.contains(last));
        assert forall|k: u32| keys.contains(k) implies head.contains(k) || k == last by {
            let i = choose|i: int| 0 <= i < keys.len() && keys[i] == k;
            if i < keys.len() - 1 {
                assert(head[i] == k);
            }
        }
        assert forall|k: u32| head.contains(k) implies keys.contains(k) by {
            let i = choose|i: int| 0 <= i < head.len() && head[i] == k;
            assert(keys[i] == k);
        }
        assert(keys.contains(last));
    }
}

/// Fixed-point value of `1/sqrt(k2)` for the squared lengths a raw intent
/// can take; zero for `k2 == 0` so that a zero sum stays zero.
pub open spec fn inv_len_factor(k2: int) -> int {
    if k2 == 1 {
        UNIT as int
    } else if k2 == 2 {
        INV_SQRT_2 as int
    } else if k2 == 3 {
        INV_SQRT_3 as int
    } else {
        0
    }
}

/// The normalized intent a duplicate-free set of held keys maps to: the raw
/// sum scaled by the fixed-point value of one over its length, and the zero
/// vector when nothing (or only cancelling keys) is held.
pub open spec fn sampled_intent(kb: PlayerKeybindings, keys: Seq<u32>) -> Vec3 {
    let x = raw_x(kb, keys);
    let y = raw_y(kb, keys);
    let z = raw_z(kb, keys);
    let f = inv_len_factor(x * x + y * y + z * z);
    Vec3 { x: (x * f) as i64, y: (y * f) as i64, z: (z * f) as i64 }
}

/// Map the currently held keys to a normalized local-space movement intent:
/// one unit contribution per held key according to the bindings, then
/// normalization (a zero sum stays zero; no diagonal speed boost).
pub fn sample_intent(kb: &PlayerKeybindings, held: &Vec<u32>) -> (dir: Vec3)
    requires
        held@.no_duplicates(),
    ensures
        dir == sampled_intent(*kb, held@),
        dir.is_zero() || (UNIT - 1) * (UNIT - 1) < dir.len2() < (UNIT + 1) * (UNIT + 1),
        -UNIT <= dir.x <= UNIT,
        -UNIT <= dir.y <= UNIT,
        -UNIT <= dir.z <= UNIT,
{
    let mut x: i64 = 0;
    let mut y: i64 = 0;
    let mut z: i64 = 0;
    let mut i: usize = 0;
    proof {
        lemma_raw_closed_form(*kb, held@);
    }
    while i < held.len()
        invariant
            0 <= i <= held.len(),
            held@.no_duplicates(),
            x == raw_x(*kb, held@.take(i as int)),
            y == raw_y(*kb, held@.take(i as int)),
            z == raw_z(*kb, held@.take(i as int)),
            -1 <= x <= 1,
            -1 <= y <= 1,
            -1 <= z <= 1,
        decreases held.len() - i,
    {
        let k = held[i];
        proof {
            let taken = held@.take(i as int + 1);
            assert(taken.drop_last() =~= held@.take(i as int));
            assert(taken.last() == held@[i as int]);
            assert(taken.no_duplicates()) by {
                assert forall|p: int, q: int|
                    0 <= p < q < taken.len() implies taken[p] != taken[q] by {
                    assert(held@[p] != held@[q]);
                }
            }
            lemma_raw_closed_form(*kb, taken);
        }
        if k == kb.right {
            x = x + 1;
        } else if k == kb.left {
            x = x - 1;
        } else if k == kb.up {
            y = y + 1;
        } else if k == kb.down {
            y = y - 1;
        } else if k == kb.forward {
            z = z - 1;
        } else if k == kb.back {
            z = z + 1;
        }
        i = i + 1;
    }
    proof {
        assert(held@.take(held@.len() as int) =~= held@);
        lemma_unit_scale(x as int, 1);
        lemma_unit_scale(y as int, 1);
        lemma_unit_scale(z as int, 1);
    }
    let k2 = x * x + y * y + z * z;
    let f: i64 = if k2 == 1 {
        UNIT
    } else if k2 == 2 {
        INV_SQRT_2
    } else {
        INV_SQRT_3
    };
    proof {
        lemma_normalized_length(x as int, y as int, z as int);
    }
    if k2 == 0 {
        Vec3 { x: 0, y: 0, z: 0 }
    } else {
        proof {
            let ghost fs = inv_len_factor(x * x + y * y + z * z);
            lemma_unit_scale(x as int, fs);
            lemma_unit_scale(y as int, fs);
            lemma_unit_scale(z as int, fs);
        }
        Vec3 { x: x * f, y: y * f, z: z * f }
    }
}

/// Law: for every duplicate-free combination of held keys, the sampled
/// intent is either the zero vector or within one micro-unit of unit length.
pub proof fn lemma_sampled_intent_normalized(kb: PlayerKeybindings, keys: Seq<u32>)
    requires
        keys.no_duplicates(),
    ensures
        sampled_intent(kb, keys).is_zero() || (UNIT - 1) * (UNIT - 1) < sampled_intent(
            kb,
            keys,
        ).len2() < (UNIT + 1) * (UNIT + 1),
{
    lemma_raw_closed_form(kb, keys);
    let x = raw_x(kb, keys);
    let y = raw_y(kb, keys);
    let z = raw_z(kb, keys);
    let f = inv_len_factor(x * x + y * y + z * z);
    lemma_normalized_length(x, y, z);
    lemma_unit_scale(x, f);
    lemma_unit_scale(y, f);
    lemma_unit_scale(z, f);
}

/// Law: keys bound to opposite directions cancel. If the two keys of an
/// opposite pair are distinct from each other (and not shadowed by an
/// earlier action in the dispatch order), holding both zeroes that axis of
/// the sampled intent, whatever else is held.
pub proof fn lemma_opposite_keys_cancel(kb: PlayerKeybindings, keys: Seq<u32>)
    requires
        keys.no_duplicates(),
    ensures
        kb.right != kb.left && keys.contains(kb.right) && keys.contains(kb.left) ==> raw_x(
            kb,
            keys,
        ) == 0 && sampled_intent(kb, keys).x == 0,
        kb.up != kb.down && kb.up != kb.right && kb.up != kb.left && kb.down != kb.right
            && kb.down != kb.left && keys.contains(kb.up) && keys.contains(kb.down) ==> raw_y(
            kb,
            keys,
        ) == 0 && sampled_intent(kb, keys).y == 0,
        kb.forward != kb.back && kb.forward != kb.right && kb.forward != kb.left && kb.forward
            != kb.up && kb.forward != kb.down && kb.back != kb.right && kb.back != kb.left
            && kb.back != kb.up && kb.back != kb.down && keys.contains(kb.forward)
            && keys.contains(kb.back) ==> raw_z(kb, keys) == 0 && sampled_intent(kb, keys).z == 0,
{
    lemma_raw_closed_form(kb, keys);
}

/// A factor scaled by a component in {-1, 0, 1} is 0, the factor, or its
/// negation, and the component's square is 0 or 1.
proof fn lemma_unit_scale(x: int, f: int)
    requires
        -1 <= x <= 1,
    ensures
        x * x == (if x == 0 { 0int } else { 1int }),
        x * f == (if x == 0 { 0int } else if x == 1 { f } else { -f }),
        (x * f) * (x * f) == (if x == 0 { 0int } else { f * f }),
{
    assert(x == -1 || x == 0 || x == 1);
    if x == -1 {
        assert(x * x == 1) by (nonlinear_arith)
            requires x == -1;
        assert(x * f == -f) by (nonlinear_arith)
            requires x == -1;
        assert((-f) * (-f) == f * f) by (nonlinear_arith);
    } else if x == 1 {
        assert(x * x == 1) by (nonlinear_arith)
            requires x == 1;
        assert(x * f == f) by (nonlinear_arith)
            requires x == 1;
    } else {
        assert(x * x == 0) by (nonlinear_arith)
            requires x == 0;
        assert(x * f == 0) by (nonlinear_arith)
            requires x == 0;
    }
}

/// For raw components in {-1, 0, 1}, the normalized vector is either zero or
/// within one micro-unit of unit length.
proof fn lemma_normalized_length(x: int, y: int, z: int)
    requires
        -1 <= x <= 1,
        -1 <= y <= 1,
        -1 <= z <= 1,
    ensures
        ({
            let f = inv_len_factor(x * x + y * y + z * z);
            let l2 = (x * f) * (x * f) + (y * f) * (y * f) + (z * f) * (z * f);
            (x == 0 && y == 0 && z == 0) || (UNIT - 1) * (UNIT - 1) < l2 < (UNIT + 1) * (UNIT + 1)
        }),
{
    let k2 = x * x + y * y + z * z;
    let f = inv_len_factor(k2);
    let l2 = (x * f) * (x * f) + (y * f) * (y * f) + (z * f) * (z * f);
    lemma_unit_scale(x, f);
    lemma_unit_scale(y, f);
    lemma_unit_scale(z, f);
    if !(x == 0 && y == 0 && z == 0) {
        assert(k2 == 1 || k2 == 2 || k2 == 3);
        if k2 == 1 {
            assert(l2 == f * f);
            assert(f == 1_000_000);
            assert(999_999int * 999_999 < 1_000_000int * 1_000_000 < 1_000_001int * 1_000_001)
                by (nonlinear_arith);
        } else if k2 == 2 {
            assert(l2 == f * f + f * f);
            assert(f == 707_107);
            assert(999_999int * 999_999 < 707_107int * 707_107 + 707_107int * 707_107
                < 1_000_001int * 1_000_001) by (nonlinear_arith);
        } else {
            assert(l2 == f * f + f * f + f * f);
            assert(f == 577_350);
            assert(999_999int * 999_999 < 577_350int * 577_350 + 577_350int * 577_350
                + 577_350int * 577_350 < 1_000_001int * 1_000_001) by (nonlinear_arith);
        }
    }
}

} // verus!
