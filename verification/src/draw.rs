//! Sprite drawing: the display buffer is changed by XOR, row by row.
use vstd::prelude::*;
use crate::machine::{Machine, reg_x, reg_y, RAM_SIZE, SCREEN_START};

verus! {

/// Memory index of the byte that receives the left part of sprite row `r`.
pub open spec fn first_index(x: u8, y: u8, r: int) -> int {
    (y + r) * 8 + x / 8 + SCREEN_START
}

/// Memory index of the byte that receives the right part of sprite row `r`.
pub open spec fn second_index(x: u8, y: u8, r: int) -> int {
    (y + r) * 8 + ((x + 8) % 64) / 8 + SCREEN_START
}

/// The bits of a sprite byte that land in the first display byte.
pub open spec fn first_mask(byte: u8, x: u8) -> u8 {
    byte >> (x % 8)
}

/// The bits of a sprite byte that land in the second display byte.
pub open spec fn second_mask(byte: u8, x: u8) -> u8 {
    if x % 8 == 0 {
        0
    } else {
        byte << ((8 - x % 8) as u8)
    }
}

/// `ram[p] := ram[p] XOR m`
pub open spec fn xor_at(ram: Seq<u8>, p: int, m: u8) -> Seq<u8> {
    ram.update(p, ram[p] ^ m)
}

/// Draws one sprite row: the display after it, and whether it switched a lit pixel off.
pub open spec fn draw_row(ram: Seq<u8>, byte: u8, x: u8, y: u8, r: int) -> (Seq<u8>, bool) {
    let f = first_index(x, y, r);
    let s = second_index(x, y, r);
    let fm = first_mask(byte, x);
    let sm = second_mask(byte, x);
    let ram1 = xor_at(ram, f, fm);
    let ram2 = xor_at(ram1, s, sm);
    (ram2, (fm & ram[f]) != 0 || (sm & ram1[s]) != 0)
}

/// Draws the first `k` rows of `sprite`, top row first.
pub open spec fn draw_rows(ram: Seq<u8>, sprite: Seq<u8>, x: u8, y: u8, k: nat) -> (Seq<u8>, bool)
    decreases k,
{
    if k == 0 {
        (ram, false)
    } else {
        let prev = draw_rows(ram, sprite, x, y, (k - 1) as nat);
        let row = draw_row(prev.0, sprite[k - 1], x, y, k - 1);
        (row.0, prev.1 || row.1)
    }
}

impl Machine {
    /// Draws the `n`-byte sprite stored at `I` at position (`Vx`, `Vy`);
    /// `VF` becomes 1 when a lit pixel was switched off, 0 otherwise.
    pub open spec fn drw_vx_vy_nibble(self, inst: Seq<u8>) -> Machine {
        let x = self.v[reg_x(inst)];
        let y = self.v[reg_y(inst)];
        let n = inst[3];
        let sprite = self.ram.subrange(self.i as int, self.i + n);
        let drawn = draw_rows(self.ram, sprite, x, y, n as nat);
        Machine {
            ram: drawn.0,
            v: self.v.update(15, if drawn.1 { 1u8 } else { 0u8 }),
            ..self
        }
    }

    pub open spec fn drw_vx_vy_nibble_ok(self, inst: Seq<u8>) -> bool {
        let x = self.v[reg_x(inst)];
        let y = self.v[reg_y(inst)];
        let n = inst[3];
        &&& Self::xy_ok(inst)
        &&& self.i + n <= RAM_SIZE
        &&& n > 0 ==> {
            &&& x + 8 <= 255
            &&& (y + n - 1) * 8 + x / 8 <= 255
            &&& (y + n - 1) * 8 + ((x + 8) % 64) / 8 <= 255
        }
    }
}

/// Every display index that drawing the first `k` rows touches is in memory.
pub open spec fn rows_in_range(x: u8, y: u8, k: nat) -> bool {
    k > 0 ==> {
        &&& x + 8 <= 255
        &&& (y + k - 1) * 8 + x / 8 <= 255
        &&& (y + k - 1) * 8 + ((x + 8) % 64) / 8 <= 255
    }
}

/// One row drawn, as a map on memory.
pub open spec fn row_op(ram: Seq<u8>, byte: u8, x: u8, y: u8, r: int) -> Seq<u8> {
    draw_row(ram, byte, x, y, r).0
}

/// XOR into two positions commutes.
proof fn lemma_xor_at_commute(ram: Seq<u8>, p: int, a: u8, q: int, b: u8)
    requires
        0 <= p < ram.len(),
        0 <= q < ram.len(),
    ensures
        xor_at(xor_at(ram, p, a), q, b) =~= xor_at(xor_at(ram, q, b), p, a),
{
    if p == q {
        let v = ram[p];
        assert((v ^ a) ^ b == (v ^ b) ^ a) by (bit_vector);
    }
}

/// XOR into the same position twice with the same mask changes nothing.
proof fn lemma_xor_at_twice(ram: Seq<u8>, p: int, a: u8)
    requires
        0 <= p < ram.len(),
    ensures
        xor_at(xor_at(ram, p, a), p, a) =~= ram,
{
    let v = ram[p];
    assert((v ^ a) ^ a == v) by (bit_vector);
}

/// Row `r` lies in memory when the first `k` rows do and `r < k`.
proof fn lemma_row_indices(x: u8, y: u8, k: nat, r: int)
    requires
        rows_in_range(x, y, k),
        0 <= r < k,
    ensures
        SCREEN_START <= first_index(x, y, r) < RAM_SIZE,
        SCREEN_START <= second_index(x, y, r) < RAM_SIZE,
{
}

/// Drawing one row commutes with an XOR into any position.
proof fn lemma_row_commutes_xor(ram: Seq<u8>, byte: u8, x: u8, y: u8, r: int, p: int, m: u8)
    requires
        ram.len() == RAM_SIZE,
        0 <= p < RAM_SIZE,
        SCREEN_START <= first_index(x, y, r) < RAM_SIZE,
        SCREEN_START <= second_index(x, y, r) < RAM_SIZE,
    ensures
        row_op(xor_at(ram, p, m), byte, x, y, r) =~= xor_at(row_op(ram, byte, x, y, r), p, m),
{
    let f = first_index(x, y, r);
    let s = second_index(x, y, r);
    let fm = first_mask(byte, x);
    let sm = second_mask(byte, x);
    lemma_xor_at_commute(ram, p, m, f, fm);
    lemma_xor_at_commute(xor_at(ram, f, fm), p, m, s, sm);
}

/// Drawing one row twice changes nothing.
proof fn lemma_row_twice(ram: Seq<u8>, byte: u8, x: u8, y: u8, r: int)
    requires
        ram.len() == RAM_SIZE,
        SCREEN_START <= first_index(x, y, r) < RAM_SIZE,
        SCREEN_START <= second_index(x, y, r) < RAM_SIZE,
    ensures
        row_op(row_op(ram, byte, x, y, r), byte, x, y, r) =~= ram,
{
    let f = first_index(x, y, r);
    let s = second_index(x, y, r);
    let fm = first_mask(byte, x);
    let sm = second_mask(byte, x);
    let z = xor_at(ram, f, fm);
    // s(f(s(f(ram)))) = s(s(f(f(ram))))
    lemma_xor_at_commute(z, f, fm, s, sm);
    lemma_xor_at_twice(xor_at(z, f, fm), s, sm);
    lemma_xor_at_twice(ram, f, fm);
}

/// Drawing keeps the size of memory and every byte below the display buffer.
pub proof fn lemma_draw_rows_frame(ram: Seq<u8>, sprite: Seq<u8>, x: u8, y: u8, k: nat)
    requires
        ram.len() == RAM_SIZE,
        rows_in_range(x, y, k),
    ensures
        draw_rows(ram, sprite, x, y, k).0.len() == RAM_SIZE,
        forall|a: int|
            0 <= a < SCREEN_START ==> #[trigger] draw_rows(ram, sprite, x, y, k).0[a] == ram[a],
    decreases k,
{
    if k > 0 {
        lemma_draw_rows_frame(ram, sprite, x, y, (k - 1) as nat);
        lemma_row_indices(x, y, k, k - 1);
    }
}

/// Drawing the first `k` rows commutes with an XOR into any position.
proof fn lemma_draw_rows_commutes_xor(
    ram: Seq<u8>,
    sprite: Seq<u8>,
    x: u8,
    y: u8,
    k: nat,
    p: int,
    m: u8,
)
    requires
        ram.len() == RAM_SIZE,
        rows_in_range(x, y, k),
        0 <= p < RAM_SIZE,
    ensures
        draw_rows(xor_at(ram, p, m), sprite, x, y, k).0 =~= xor_at(
            draw_rows(ram, sprite, x, y, k).0,
            p,
            m,
        ),
    decreases k,
{
    if k > 0 {
        let k1 = (k - 1) as nat;
        lemma_draw_rows_commutes_xor(ram, sprite, x, y, k1, p, m);
        lemma_draw_rows_frame(ram, sprite, x, y, k1);
        lemma_row_indices(x, y, k, k - 1);
        lemma_row_commutes_xor(draw_rows(ram, sprite, x, y, k1).0, sprite[k - 1], x, y, k - 1, p, m);
    }
}

/// Drawing the first `k` rows commutes with drawing any row that lies in the display buffer.
proof fn lemma_draw_rows_commutes_row(
    ram: Seq<u8>,
    sprite: Seq<u8>,
    x: u8,
    y: u8,
    k: nat,
    byte: u8,
    r: int,
)
    requires
        ram.len() == RAM_SIZE,
        rows_in_range(x, y, k),
        SCREEN_START <= first_index(x, y, r) < RAM_SIZE,
        SCREEN_START <= second_index(x, y, r) < RAM_SIZE,
    ensures
        draw_rows(row_op(ram, byte, x, y, r), sprite, x, y, k).0 =~= row_op(
            draw_rows(ram, sprite, x, y, k).0,
            byte,
            x,
            y,
            r,
        ),
{
    let f = first_index(x, y, r);
    let s = second_index(x, y, r);
    let fm = first_mask(byte, x);
    let sm = second_mask(byte, x);
    lemma_draw_rows_commutes_xor(ram, sprite, x, y, k, f, fm);
    lemma_draw_rows_commutes_xor(xor_at(ram, f, fm), sprite, x, y, k, s, sm);
    lemma_draw_rows_frame(ram, sprite, x, y, k);
}

/// Drawing the same rows twice leaves memory as it was.
pub proof fn lemma_draw_rows_twice(ram: Seq<u8>, sprite: Seq<u8>, x: u8, y: u8, k: nat)
    requires
        ram.len() == RAM_SIZE,
        rows_in_range(x, y, k),
    ensures
        draw_rows(draw_rows(ram, sprite, x, y, k).0, sprite, x, y, k).0 =~= ram,
    decreases k,
{
    if k > 0 {
        let k1 = (k - 1) as nat;
        let byte = sprite[k - 1];
        let once = draw_rows(ram, sprite, x, y, k1).0;
        assert(rows_in_range(x, y, k1));
        lemma_draw_rows_frame(ram, sprite, x, y, k1);
        lemma_row_indices(x, y, k, k - 1);
        // D_k(D_k(ram)) = R(D_{k-1}(R(D_{k-1}(ram)))) = R(R(D_{k-1}(D_{k-1}(ram))))
        lemma_draw_rows_commutes_row(once, sprite, x, y, k1, byte, k - 1);
        lemma_draw_rows_frame(once, sprite, x, y, k1);
        lemma_row_twice(draw_rows(once, sprite, x, y, k1).0, byte, x, y, k - 1);
        lemma_draw_rows_twice(ram, sprite, x, y, k1);
    }
}

/// No row `r < k` lands on byte `a`.
pub open spec fn untouched(x: u8, y: u8, k: int, a: int) -> bool {
    forall|r: int|
        #![trigger first_index(x, y, r)]
        #![trigger second_index(x, y, r)]
        0 <= r < k ==> a != first_index(x, y, r) && a != second_index(x, y, r)
}

/// Row `r` of the sprite switches off a lit pixel of `ram`.
pub open spec fn row_hit(ram: Seq<u8>, sprite: Seq<u8>, x: u8, y: u8, r: int) -> bool {
    ||| (first_mask(sprite[r], x) & ram[first_index(x, y, r)]) != 0
    ||| (second_mask(sprite[r], x) & ram[second_index(x, y, r)]) != 0
}

/// No two rows, and no two halves of rows, land on the same display byte.
pub proof fn lemma_row_indices_distinct(x: u8, y: u8, r1: int, r2: int)
    requires
        x + 8 <= 255,
    ensures
        first_index(x, y, r1) == first_index(x, y, r2) ==> r1 == r2,
        second_index(x, y, r1) == second_index(x, y, r2) ==> r1 == r2,
        first_index(x, y, r1) != second_index(x, y, r2),
{
    let q = x / 8;
    assert(((x + 8) % 64) / 8 == ((x / 8) + 1) % 8) by (bit_vector)
        requires
            x + 8 <= 255,
    ;
    assert(q == 8 * (q / 8) + q % 8);
    if q % 8 == 7 {
        assert((q + 1) % 8 == 0);
    } else {
        assert((q + 1) % 8 == q % 8 + 1);
    }
}

/// Drawing `k` rows, stated byte by byte: for each row `r < k`, the byte at
/// `first_index` is XORed with the row's left part and the byte at
/// `second_index` with its right part, and every other byte is unchanged.
pub proof fn lemma_draw_rows_bytewise(ram: Seq<u8>, sprite: Seq<u8>, x: u8, y: u8, k: nat)
    requires
        ram.len() == RAM_SIZE,
        rows_in_range(x, y, k),
    ensures
        draw_rows(ram, sprite, x, y, k).0.len() == RAM_SIZE,
        forall|r: int|
            0 <= r < k ==> draw_rows(ram, sprite, x, y, k).0[#[trigger] first_index(x, y, r)]
                == ram[first_index(x, y, r)] ^ first_mask(sprite[r], x),
        forall|r: int|
            0 <= r < k ==> draw_rows(ram, sprite, x, y, k).0[#[trigger] second_index(x, y, r)]
                == ram[second_index(x, y, r)] ^ second_mask(sprite[r], x),
        forall|a: int|
            0 <= a < RAM_SIZE && untouched(x, y, k as int, a) ==> #[trigger] draw_rows(
                ram,
                sprite,
                x,
                y,
                k,
            ).0[a] == ram[a],
    decreases k,
{
    if k > 0 {
        let k1 = (k - 1) as nat;
        let r0 = k - 1;
        assert(rows_in_range(x, y, k1));
        lemma_draw_rows_bytewise(ram, sprite, x, y, k1);
        lemma_draw_rows_frame(ram, sprite, x, y, k1);
        lemma_row_indices(x, y, k, r0);
        let prev = draw_rows(ram, sprite, x, y, k1).0;
        let f = first_index(x, y, r0);
        let sx = second_index(x, y, r0);
        let fm = first_mask(sprite[r0], x);
        let sm = second_mask(sprite[r0], x);
        let cur = draw_rows(ram, sprite, x, y, k).0;
        lemma_row_indices_distinct(x, y, r0, r0);
        assert(cur == xor_at(xor_at(prev, f, fm), sx, sm));
        assert(untouched(x, y, k1 as int, f)) by {
            assert forall|r: int| 0 <= r < k1 implies f != #[trigger] first_index(x, y, r) && f
                != second_index(x, y, r) by {
                lemma_row_indices_distinct(x, y, r0, r);
            }
        }
        assert(untouched(x, y, k1 as int, sx)) by {
            assert forall|r: int| 0 <= r < k1 implies sx != #[trigger] first_index(x, y, r) && sx
                != second_index(x, y, r) by {
                lemma_row_indices_distinct(x, y, r, r0);
            }
        }
        assert forall|r: int| 0 <= r < k implies cur[#[trigger] first_index(x, y, r)]
            == ram[first_index(x, y, r)] ^ first_mask(sprite[r], x) by {
            if r < k1 {
                lemma_row_indices(x, y, k, r);
                lemma_row_indices_distinct(x, y, r, r0);
            }
        }
        assert forall|r: int| 0 <= r < k implies cur[#[trigger] second_index(x, y, r)]
            == ram[second_index(x, y, r)] ^ second_mask(sprite[r], x) by {
            if r < k1 {
                lemma_row_indices(x, y, k, r);
                lemma_row_indices_distinct(x, y, r0, r);
                lemma_row_indices_distinct(x, y, r, r0);
            }
        }
        assert forall|a: int| 0 <= a < RAM_SIZE && untouched(x, y, k as int, a) implies #[trigger] cur[a]
            == ram[a] by {
            lemma_draw_rows_untouched(ram, sprite, x, y, k, a);
        }
    }
}

/// A byte that no drawn row lands on keeps its value.
proof fn lemma_draw_rows_untouched(ram: Seq<u8>, sprite: Seq<u8>, x: u8, y: u8, k: nat, a: int)
    requires
        ram.len() == RAM_SIZE,
        rows_in_range(x, y, k),
        0 <= a < RAM_SIZE,
        untouched(x, y, k as int, a),
    ensures
        draw_rows(ram, sprite, x, y, k).0[a] == ram[a],
    decreases k,
{
    if k > 0 {
        let k1 = (k - 1) as nat;
        let r0 = k - 1;
        assert(rows_in_range(x, y, k1));
        assert(untouched(x, y, k1 as int, a));
        lemma_draw_rows_untouched(ram, sprite, x, y, k1, a);
        lemma_draw_rows_frame(ram, sprite, x, y, k1);
        lemma_row_indices(x, y, k, r0);
        assert(a != first_index(x, y, r0));
        assert(a != second_index(x, y, r0));
    }
}

/// The collision flag of drawing `k` rows is set exactly when some row
/// switched off a lit pixel of memory as it was before drawing.
pub proof fn lemma_draw_rows_collision(ram: Seq<u8>, sprite: Seq<u8>, x: u8, y: u8, k: nat)
    requires
        ram.len() == RAM_SIZE,
        rows_in_range(x, y, k),
    ensures
        draw_rows(ram, sprite, x, y, k).1 <==> exists|r: int|
            0 <= r < k && #[trigger] row_hit(ram, sprite, x, y, r),
    decreases k,
{
    if k > 0 {
        let k1 = (k - 1) as nat;
        let r0 = k - 1;
        assert(rows_in_range(x, y, k1));
        lemma_draw_rows_collision(ram, sprite, x, y, k1);
        lemma_row_indices(x, y, k, r0);
        lemma_draw_rows_bytewise(ram, sprite, x, y, k1);
        let prev = draw_rows(ram, sprite, x, y, k1);
        let f = first_index(x, y, r0);
        let sx = second_index(x, y, r0);
        let fm = first_mask(sprite[r0], x);
        let sm = second_mask(sprite[r0], x);
        lemma_row_indices_distinct(x, y, r0, r0);
        assert(untouched(x, y, k1 as int, f)) by {
            assert forall|r: int| 0 <= r < k1 implies f != #[trigger] first_index(x, y, r) && f
                != second_index(x, y, r) by {
                lemma_row_indices_distinct(x, y, r0, r);
            }
        }
        assert(untouched(x, y, k1 as int, sx)) by {
            assert forall|r: int| 0 <= r < k1 implies sx != #[trigger] first_index(x, y, r) && sx
                != second_index(x, y, r) by {
                lemma_row_indices_distinct(x, y, r, r0);
            }
        }
        assert(prev.0[f] == ram[f]);
        assert(prev.0[sx] == ram[sx]);
        assert(xor_at(prev.0, f, fm)[sx] == ram[sx]);
        let cur = draw_rows(ram, sprite, x, y, k);
        assert(cur.1 == (prev.1 || row_hit(ram, sprite, x, y, r0)));
        if cur.1 {
            if prev.1 {
                let w = choose|r: int| 0 <= r < k1 && #[trigger] row_hit(ram, sprite, x, y, r);
                assert(0 <= w < k && row_hit(ram, sprite, x, y, w));
            } else {
                assert(row_hit(ram, sprite, x, y, r0));
            }
        }
        if exists|r: int| 0 <= r < k && #[trigger] row_hit(ram, sprite, x, y, r) {
            let w = choose|r: int| 0 <= r < k && #[trigger] row_hit(ram, sprite, x, y, r);
            if w < k1 {
                assert(prev.1);
            }
        }
    }
}

} // verus!
