//! The specification of XOR sprite drawing.
//!
//! A sprite is `lines` consecutive memory bytes starting at the address
//! register; each byte is one row of eight pixels, most significant bit
//! leftmost. Drawing walks the rows and bits in order; step `k` (with
//! `k / 8` the row and `k % 8` the bit) targets the framebuffer cell at
//! `base + 64 * (k / 8) + (k % 8)`, where `base` is the linear cell index
//! of the sprite's top-left corner. The row does not wrap at the right
//! screen edge: a sprite placed near the edge bleeds into the next row's
//! cells, exactly as a linear framebuffer lays them out. Only set bits
//! touch cells, so only they are bounded: a set bit whose target cell
//! would fall beyond the framebuffer, or a row that would be read past
//! the end of memory, is a fatal error and the state does not move; zero
//! bits may fall anywhere.
//!
//! A set sprite bit flips the target cell; a collision is recorded when a
//! set bit lands on a cell that is already lit.
use vstd::prelude::*;
use crate::chip8::Chip8;
use crate::chip8::RAM_SIZE;
use crate::chip8::SCREEN_SIZE;
use crate::chip8::SCREEN_WIDTH;

verus! {

/// A one-bit framebuffer cell, flipped.
pub open spec fn flip(c: u8) -> u8 {
    if c == 1 {
        0u8
    } else {
        1u8
    }
}

/// Bit `b` of a sprite row byte, counting the most significant bit as
/// bit 0, the leftmost pixel.
pub open spec fn bit_at(byte: u8, b: int) -> u8 {
    (byte >> ((7 - b) as u8)) & 1
}

/// The framebuffer cell targeted by draw step `k`.
pub open spec fn step_pos(base: int, k: int) -> int {
    base + SCREEN_WIDTH * (k / 8) + (k % 8)
}

/// The sprite bit consumed by draw step `k`: bit `k % 8` of row `k / 8`.
pub open spec fn step_bit(ram: Seq<u8>, ireg: int, k: int) -> u8 {
    bit_at(ram[ireg + k / 8], k % 8)
}

/// The framebuffer after the first `k` draw steps.
pub open spec fn screen_after(s: Seq<u8>, ram: Seq<u8>, ireg: int, base: int, k: int) -> Seq<u8>
    decreases k,
{
    if k <= 0 {
        s
    } else {
        let prev = screen_after(s, ram, ireg, base, k - 1);
        if step_bit(ram, ireg, k - 1) == 1 {
            prev.update(step_pos(base, k - 1), flip(prev[step_pos(base, k - 1)]))
        } else {
            prev
        }
    }
}

/// Whether any of the first `k` draw steps put a set bit on a lit cell.
pub open spec fn collision_after(s: Seq<u8>, ram: Seq<u8>, ireg: int, base: int, k: int) -> bool
    decreases k,
{
    if k <= 0 {
        false
    } else {
        collision_after(s, ram, ireg, base, k - 1) || (step_bit(ram, ireg, k - 1) == 1
            && screen_after(s, ram, ireg, base, k - 1)[step_pos(base, k - 1)] == 1)
    }
}

/// Every one of the first `kmax` draw steps whose sprite bit is set
/// lands inside a framebuffer of `s`'s size; steps with a zero bit touch
/// nothing and are unconstrained.
pub open spec fn steps_in_range(s: Seq<u8>, ram: Seq<u8>, ireg: int, base: int, kmax: int) -> bool {
    forall|k: int|
        0 <= k < kmax && #[trigger] step_bit(ram, ireg, k) == 1 ==> 0 <= step_pos(base, k)
            < s.len()
}

/// Distinct draw steps target distinct framebuffer cells: the row
/// stride is wider than a row's eight cells.
pub proof fn lemma_step_pos_injective(base: int, k1: int, k2: int)
    requires
        0 <= k1,
        0 <= k2,
        step_pos(base, k1) == step_pos(base, k2),
    ensures
        k1 == k2,
{
    let q1 = k1 / 8;
    let r1 = k1 % 8;
    let q2 = k2 / 8;
    let r2 = k2 % 8;
    assert(k1 == 8 * q1 + r1 && 0 <= r1 < 8) by (nonlinear_arith)
        requires
            0 <= k1,
            q1 == k1 / 8,
            r1 == k1 % 8,
    ;
    assert(k2 == 8 * q2 + r2 && 0 <= r2 < 8) by (nonlinear_arith)
        requires
            0 <= k2,
            q2 == k2 / 8,
            r2 == k2 % 8,
    ;
    assert(64 * q1 + r1 == 64 * q2 + r2);
    assert(q1 == q2 && r1 == r2) by (nonlinear_arith)
        requires
            64 * q1 + r1 == 64 * q2 + r2,
            0 <= r1 < 8,
            0 <= r2 < 8,
    ;
}

/// A draw whose every set bit targets a cell below `SCREEN_SIZE` has
/// every set-bit step in range of a framebuffer of that size.
pub proof fn lemma_steps_in_range(s: Seq<u8>, ram: Seq<u8>, ireg: int, base: int, lines: int)
    requires
        s.len() == SCREEN_SIZE,
        0 <= base,
        forall|k: int|
            0 <= k < 8 * lines && #[trigger] step_bit(ram, ireg, k) == 1 ==> step_pos(base, k)
                < SCREEN_SIZE,
    ensures
        steps_in_range(s, ram, ireg, base, 8 * lines),
{
    assert forall|k: int|
        0 <= k < 8 * lines && #[trigger] step_bit(ram, ireg, k) == 1 implies 0 <= step_pos(
        base,
        k,
    ) < s.len() by {
        assert(0 <= k / 8 && 0 <= k % 8) by (nonlinear_arith)
            requires
                0 <= k,
        ;
    };
}

/// Drawing never changes the framebuffer's size.
pub proof fn lemma_screen_after_len(s: Seq<u8>, ram: Seq<u8>, ireg: int, base: int, kmax: int)
    requires
        steps_in_range(s, ram, ireg, base, kmax),
    ensures
        screen_after(s, ram, ireg, base, kmax).len() == s.len(),
    decreases kmax,
{
    if kmax > 0 {
        lemma_screen_after_len(s, ram, ireg, base, kmax - 1);
    }
}

/// A cell no set-bit step targets keeps its value through the whole
/// draw: zero bits touch nothing.
pub proof fn lemma_screen_after_frame(
    s: Seq<u8>,
    ram: Seq<u8>,
    ireg: int,
    base: int,
    kmax: int,
    j: int,
)
    requires
        steps_in_range(s, ram, ireg, base, kmax),
        0 <= j < s.len(),
        forall|k: int|
            0 <= k < kmax && #[trigger] step_bit(ram, ireg, k) == 1 ==> step_pos(base, k) != j,
    ensures
        screen_after(s, ram, ireg, base, kmax)[j] == s[j],
    decreases kmax,
{
    if kmax > 0 {
        lemma_screen_after_frame(s, ram, ireg, base, kmax - 1, j);
        lemma_screen_after_len(s, ram, ireg, base, kmax - 1);
    }
}

/// What the draw leaves in the cell step `k` targets: the original
/// value, flipped exactly when the step's sprite bit is set.
pub proof fn lemma_screen_after_at(
    s: Seq<u8>,
    ram: Seq<u8>,
    ireg: int,
    base: int,
    kmax: int,
    k: int,
)
    requires
        steps_in_range(s, ram, ireg, base, kmax),
        0 <= k < kmax,
        0 <= step_pos(base, k) < s.len(),
    ensures
        screen_after(s, ram, ireg, base, kmax)[step_pos(base, k)] == (if step_bit(ram, ireg, k)
            == 1 {
            flip(s[step_pos(base, k)])
        } else {
            s[step_pos(base, k)]
        }),
    decreases kmax,
{
    lemma_screen_after_len(s, ram, ireg, base, kmax - 1);
    if k == kmax - 1 {
        assert forall|k2: int|
            0 <= k2 < k && #[trigger] step_bit(ram, ireg, k2) == 1 implies step_pos(base, k2)
            != step_pos(base, k) by {
            if step_pos(base, k2) == step_pos(base, k) {
                lemma_step_pos_injective(base, k2, k);
            }
        };
        lemma_screen_after_frame(s, ram, ireg, base, k, step_pos(base, k));
    } else {
        lemma_screen_after_at(s, ram, ireg, base, kmax - 1, k);
        assert(step_pos(base, kmax - 1) != step_pos(base, k)) by {
            if step_pos(base, kmax - 1) == step_pos(base, k) {
                lemma_step_pos_injective(base, kmax - 1, k);
            }
        };
    }
}

/// A collision is reported exactly when some step's set sprite bit
/// targets a cell that was lit before the draw began: steps target
/// distinct cells, so the evolving framebuffer and the original one
/// agree at each step's own cell.
pub proof fn lemma_collision_char(s: Seq<u8>, ram: Seq<u8>, ireg: int, base: int, kmax: int)
    requires
        steps_in_range(s, ram, ireg, base, kmax),
    ensures
        collision_after(s, ram, ireg, base, kmax) <==> exists|k: int|
            0 <= k < kmax && #[trigger] step_bit(ram, ireg, k) == 1 && s[step_pos(base, k)] == 1,
    decreases kmax,
{
    if kmax > 0 {
        lemma_collision_char(s, ram, ireg, base, kmax - 1);
        if step_bit(ram, ireg, kmax - 1) == 1 {
            assert forall|k2: int|
                0 <= k2 < kmax - 1 && #[trigger] step_bit(ram, ireg, k2) == 1 implies step_pos(
                base,
                k2,
            ) != step_pos(base, kmax - 1) by {
                if step_pos(base, k2) == step_pos(base, kmax - 1) {
                    lemma_step_pos_injective(base, k2, kmax - 1);
                }
            };
            lemma_screen_after_frame(s, ram, ireg, base, kmax - 1, step_pos(base, kmax - 1));
        }
        if collision_after(s, ram, ireg, base, kmax) {
            if collision_after(s, ram, ireg, base, kmax - 1) {
                let k = choose|k: int|
                    0 <= k < kmax - 1 && #[trigger] step_bit(ram, ireg, k) == 1 && s[step_pos(
                        base,
                        k,
                    )] == 1;
                assert(0 <= k < kmax && step_bit(ram, ireg, k) == 1 && s[step_pos(base, k)] == 1);
            } else {
                assert(step_bit(ram, ireg, kmax - 1) == 1 && s[step_pos(base, kmax - 1)] == 1);
            }
        }
        if exists|k: int|
            0 <= k < kmax && #[trigger] step_bit(ram, ireg, k) == 1 && s[step_pos(base, k)] == 1 {
            let k = choose|k: int|
                0 <= k < kmax && #[trigger] step_bit(ram, ireg, k) == 1 && s[step_pos(base, k)]
                    == 1;
            if k < kmax - 1 {
                assert(collision_after(s, ram, ireg, base, kmax - 1));
            } else {
                assert(screen_after(s, ram, ireg, base, kmax - 1)[step_pos(base, kmax - 1)] == s[
                    step_pos(base, kmax - 1)
                ]);
            }
        }
    }
}

/// A zero sprite row byte has no set bits.
pub proof fn lemma_zero_row_bits(b: int)
    requires
        0 <= b < 8,
    ensures
        bit_at(0u8, b) == 0,
{
    let sh = (7 - b) as u8;
    assert(((0u8 >> sh) & 1u8) == 0u8) by (bit_vector);
}

/// A nonzero sprite row byte has at least one set bit.
pub proof fn lemma_nonzero_row_has_set_bit(byte: u8)
    requires
        byte != 0,
    ensures
        exists|b: int| 0 <= b < 8 && #[trigger] bit_at(byte, b) == 1,
{
    assert(((byte >> 7u8) & 1u8) == 1u8 || ((byte >> 6u8) & 1u8) == 1u8 || ((byte >> 5u8) & 1u8)
        == 1u8 || ((byte >> 4u8) & 1u8) == 1u8 || ((byte >> 3u8) & 1u8) == 1u8 || ((byte >> 2u8)
        & 1u8) == 1u8 || ((byte >> 1u8) & 1u8) == 1u8 || ((byte >> 0u8) & 1u8) == 1u8)
        by (bit_vector)
        requires
            byte != 0u8,
    ;
    if (byte >> 7u8) & 1u8 == 1u8 {
        assert(bit_at(byte, 0) == 1);
    } else if (byte >> 6u8) & 1u8 == 1u8 {
        assert(bit_at(byte, 1) == 1);
    } else if (byte >> 5u8) & 1u8 == 1u8 {
        assert(bit_at(byte, 2) == 1);
    } else if (byte >> 4u8) & 1u8 == 1u8 {
        assert(bit_at(byte, 3) == 1);
    } else if (byte >> 3u8) & 1u8 == 1u8 {
        assert(bit_at(byte, 4) == 1);
    } else if (byte >> 2u8) & 1u8 == 1u8 {
        assert(bit_at(byte, 5) == 1);
    } else if (byte >> 1u8) & 1u8 == 1u8 {
        assert(bit_at(byte, 6) == 1);
    } else {
        assert(bit_at(byte, 7) == 1);
    }
}

/// With no set bits, a draw changes nothing and collides with nothing.
pub proof fn lemma_draw_no_bits(s: Seq<u8>, ram: Seq<u8>, ireg: int, base: int, kmax: int)
    requires
        forall|k: int| 0 <= k < kmax ==> #[trigger] step_bit(ram, ireg, k) == 0,
    ensures
        screen_after(s, ram, ireg, base, kmax) == s,
        !collision_after(s, ram, ireg, base, kmax),
    decreases kmax,
{
    if kmax > 0 {
        lemma_draw_no_bits(s, ram, ireg, base, kmax - 1);
    }
}

/// The linear cell index of the sprite's top-left corner, taken from the
/// coordinate registers.
pub open spec fn draw_base(pre: Chip8, x: int, y: int) -> int {
    SCREEN_WIDTH * pre.V@[y] + pre.V@[x]
}

/// Every row byte lies inside memory, and every set sprite bit's target
/// cell lies inside the framebuffer. Zero bits never touch a cell, so
/// they are not bounded: a sprite may overhang the framebuffer's end as
/// long as its lit pixels stay inside.
pub open spec fn draw_in_bounds(pre: Chip8, x: int, y: int, lines: int) -> bool {
    &&& pre.I + lines <= RAM_SIZE
    &&& forall|k: int|
        0 <= k < 8 * lines && #[trigger] step_bit(pre.ram@, pre.I as int, k) == 1 ==> step_pos(
            draw_base(pre, x, y),
            k,
        ) < SCREEN_SIZE
}

/// What drawing does when it is in bounds: the framebuffer becomes the
/// one after all `8 * lines` steps, VF records whether any step collided
/// (written after the cells, so a coordinate register of VF reads its
/// pre-draw value), the program counter advances and the draw flag rises.
pub open spec fn draw_effect(pre: Chip8, post: Chip8, x: int, y: int, lines: int) -> bool {
    let base = draw_base(pre, x, y);
    &&& post.ram@ == pre.ram@
    &&& post.stack@ == pre.stack@
    &&& post.I == pre.I
    &&& post.SP == pre.SP
    &&& post.key@ == pre.key@
    &&& post.screen@ == screen_after(pre.screen@, pre.ram@, pre.I as int, base, 8 * lines)
    &&& post.V@ == pre.V@.update(
        15,
        if collision_after(pre.screen@, pre.ram@, pre.I as int, base, 8 * lines) {
            1u8
        } else {
            0u8
        },
    )
    &&& post.PC == pre.PC + 2
    &&& post.draw_flag == true
}

} // verus!
