//! The interpreter's algebraic properties, proved from the operation
//! relations in `effects` and `draw`.
use vstd::prelude::*;
use crate::chip8::Chip8;
use crate::chip8::NUM_REGISTERS;
use crate::chip8::RAM_SIZE;
use crate::chip8::SCREEN_SIZE;
use crate::chip8::STACK_SIZE;
use crate::draw::bit_at;
use crate::draw::collision_after;
use crate::draw::draw_base;
use crate::draw::draw_effect;
use crate::draw::draw_in_bounds;
use crate::draw::flip;
use crate::draw::lemma_collision_char;
use crate::draw::lemma_draw_no_bits;
use crate::draw::lemma_nonzero_row_has_set_bit;
use crate::draw::lemma_screen_after_at;
use crate::draw::lemma_screen_after_frame;
use crate::draw::lemma_screen_after_len;
use crate::draw::lemma_steps_in_range;
use crate::draw::lemma_zero_row_bits;
use crate::draw::step_bit;
use crate::draw::step_pos;
use crate::effects::bcd_effect;
use crate::effects::call_effect;
use crate::effects::carry_flag;
use crate::effects::clear_screen_effect;
use crate::effects::flag_last_effect;
use crate::effects::no_borrow_flag;
use crate::effects::return_effect;
use crate::effects::set_reg_effect;
use crate::effects::shl_effect;
use crate::effects::shr_effect;
use crate::effects::wrap_add;
use crate::effects::wrap_sub;

verus! {

/// A register load puts exactly the loaded byte in the register,
/// advances the program counter by exactly two, and touches no other
/// register.
pub proof fn lemma_load_sets_register(pre: Chip8, post: Chip8, x: int, n: u8)
    requires
        pre.wf(),
        0 <= x < NUM_REGISTERS,
        set_reg_effect(pre, post, x, n),
    ensures
        post.V@[x] == n,
        post.PC == pre.PC + 2,
        forall|i: int| 0 <= i < NUM_REGISTERS && i != x ==> post.V@[i] == pre.V@[i],
{
}

/// Adding Vy into Vx wraps modulo 256 and VF reports the carry: when
/// the true sum overflows eight bits VF is 1 and Vx holds the sum less
/// 256, otherwise VF is 0 and Vx holds the exact sum. Stated for an
/// operand register other than VF itself, which the trailing flag write
/// would overwrite.
pub proof fn lemma_add_carry(pre: Chip8, post: Chip8, x: int, y: int)
    requires
        pre.wf(),
        0 <= x < NUM_REGISTERS,
        0 <= y < NUM_REGISTERS,
        x != 15,
        flag_last_effect(
            pre,
            post,
            x,
            wrap_add(pre.V@[x], pre.V@[y]),
            carry_flag(pre.V@[x], pre.V@[y]),
        ),
    ensures
        pre.V@[x] + pre.V@[y] > 255 ==> post.V@[15] == 1 && post.V@[x] == pre.V@[x] + pre.V@[y]
            - 256,
        pre.V@[x] + pre.V@[y] <= 255 ==> post.V@[15] == 0 && post.V@[x] == pre.V@[x] + pre.V@[y],
{
}

/// Subtracting Vy from Vx wraps modulo 256 and VF reports the absence
/// of a borrow: when Vx is at least Vy VF is 1 and Vx holds the exact
/// difference, otherwise VF is 0 and Vx holds the difference plus 256.
/// Stated for an operand register other than VF itself.
pub proof fn lemma_sub_borrow(pre: Chip8, post: Chip8, x: int, y: int)
    requires
        pre.wf(),
        0 <= x < NUM_REGISTERS,
        0 <= y < NUM_REGISTERS,
        x != 15,
        flag_last_effect(
            pre,
            post,
            x,
            wrap_sub(pre.V@[x], pre.V@[y]),
            no_borrow_flag(pre.V@[x], pre.V@[y]),
        ),
    ensures
        pre.V@[x] >= pre.V@[y] ==> post.V@[15] == 1 && post.V@[x] == pre.V@[x] - pre.V@[y],
        pre.V@[x] < pre.V@[y] ==> post.V@[15] == 0 && post.V@[x] == pre.V@[x] - pre.V@[y] + 256,
{
}

/// A right shift leaves the pre-shift low bit in VF, for every 8-bit
/// value and every operand register, VF included: the flag is the last
/// write. The halved value lands in the operand register unless that
/// register is VF itself, where the flag wins.
pub proof fn lemma_shr_flag(pre: Chip8, post: Chip8, x: int)
    requires
        pre.wf(),
        0 <= x < NUM_REGISTERS,
        shr_effect(pre, post, x),
    ensures
        post.V@[15] == pre.V@[x] % 2,
        x != 15 ==> post.V@[x] == pre.V@[x] / 2,
{
}

/// A left shift leaves the pre-shift high bit in VF, for every 8-bit
/// value and every operand register, VF included: the flag is the last
/// write. The doubled value modulo 256 lands in the operand register
/// unless that register is VF itself, where the flag wins.
pub proof fn lemma_shl_flag(pre: Chip8, post: Chip8, x: int)
    requires
        pre.wf(),
        0 <= x < NUM_REGISTERS,
        shl_effect(pre, post, x),
    ensures
        post.V@[15] == pre.V@[x] / 128,
        x != 15 ==> post.V@[x] == (pre.V@[x] * 2) % 256,
{
    assert(wrap_add(pre.V@[x], pre.V@[x]) == (pre.V@[x] * 2) % 256) by (nonlinear_arith)
        requires
            wrap_add(pre.V@[x], pre.V@[x]) == (if pre.V@[x] + pre.V@[x] <= 255 {
                (pre.V@[x] + pre.V@[x]) as u8
            } else {
                (pre.V@[x] + pre.V@[x] - 256) as u8
            }),
            pre.V@[x] < 256,
    ;
}

/// A call followed by a return restores the stack pointer and leaves
/// the program counter on the instruction after the call, for any
/// target address and any stack depth with room for the call.
pub proof fn lemma_call_then_return(pre: Chip8, mid: Chip8, post: Chip8, addr: int)
    requires
        pre.wf(),
        pre.SP < STACK_SIZE,
        pre.PC + 2 <= usize::MAX,
        call_effect(pre, mid, addr),
        return_effect(mid, post),
    ensures
        post.PC == pre.PC + 2,
        post.SP == pre.SP,
{
}

/// Clearing the screen and then drawing a sprite of all-zero bytes, at
/// any placement, leaves every framebuffer cell zero and reports no
/// collision in VF: a sprite with no set bits touches no cell, so it is
/// in bounds wherever it stands.
pub proof fn lemma_clear_then_zero_sprite(
    pre: Chip8,
    mid: Chip8,
    post: Chip8,
    x: int,
    y: int,
    lines: int,
)
    requires
        pre.wf(),
        0 <= x < NUM_REGISTERS,
        0 <= y < NUM_REGISTERS,
        0 <= lines < NUM_REGISTERS,
        clear_screen_effect(pre, mid),
        forall|r: int| 0 <= r < lines ==> #[trigger] mid.ram@[mid.I + r] == 0,
        draw_effect(mid, post, x, y, lines),
    ensures
        forall|i: int| 0 <= i < SCREEN_SIZE ==> post.screen@[i] == 0,
        post.V@[15] == 0,
{
    let base = draw_base(mid, x, y);
    let ireg = mid.I as int;
    assert(mid.screen@.len() == SCREEN_SIZE);
    assert forall|k: int| 0 <= k < 8 * lines implies #[trigger] step_bit(mid.ram@, ireg, k)
        == 0 by {
        assert(0 <= k / 8 < lines && 0 <= k % 8 < 8) by (nonlinear_arith)
            requires
                0 <= k < 8 * lines,
        ;
        assert(mid.ram@[ireg + k / 8] == 0);
        lemma_zero_row_bits(k % 8);
    };
    lemma_draw_no_bits(mid.screen@, mid.ram@, ireg, base, 8 * lines);
}

/// Drawing the same sprite twice at the same coordinates restores the
/// framebuffer: flipping a one-bit cell is its own inverse. Stated for
/// coordinate registers other than VF, which the first draw's flag
/// write would move.
pub proof fn lemma_draw_twice_restores(
    pre: Chip8,
    mid: Chip8,
    post: Chip8,
    x: int,
    y: int,
    lines: int,
)
    requires
        pre.wf(),
        0 <= x < NUM_REGISTERS,
        0 <= y < NUM_REGISTERS,
        0 <= lines < NUM_REGISTERS,
        x != 15,
        y != 15,
        draw_in_bounds(pre, x, y, lines),
        draw_effect(pre, mid, x, y, lines),
        draw_effect(mid, post, x, y, lines),
    ensures
        post.screen@ == pre.screen@,
{
    let base = draw_base(pre, x, y);
    let ireg = pre.I as int;
    let ram = pre.ram@;
    let s0 = pre.screen@;
    let s1 = mid.screen@;
    let s2 = post.screen@;
    assert(mid.V@[x] == pre.V@[x]);
    assert(mid.V@[y] == pre.V@[y]);
    assert(draw_base(mid, x, y) == base);
    lemma_steps_in_range(s0, ram, ireg, base, lines);
    lemma_screen_after_len(s0, ram, ireg, base, 8 * lines);
    assert(s1.len() == SCREEN_SIZE);
    lemma_steps_in_range(s1, ram, ireg, base, lines);
    lemma_screen_after_len(s1, ram, ireg, base, 8 * lines);
    assert forall|j: int| 0 <= j < SCREEN_SIZE implies s2[j] == s0[j] by {
        if exists|k: int|
            0 <= k < 8 * lines && #[trigger] step_bit(ram, ireg, k) == 1 && step_pos(base, k)
                == j {
            let k = choose|k: int|
                0 <= k < 8 * lines && #[trigger] step_bit(ram, ireg, k) == 1 && step_pos(base, k)
                    == j;
            lemma_screen_after_at(s0, ram, ireg, base, 8 * lines, k);
            lemma_screen_after_at(s1, ram, ireg, base, 8 * lines, k);
            assert(s0[j] <= 1);
        } else {
            assert forall|k: int|
                0 <= k < 8 * lines && #[trigger] step_bit(ram, ireg, k) == 1 implies step_pos(
                base,
                k,
            ) != j by {}
            lemma_screen_after_frame(s0, ram, ireg, base, 8 * lines, j);
            lemma_screen_after_frame(s1, ram, ireg, base, 8 * lines, j);
        }
    };
    assert(s2 =~= s0);
}

/// Starting from an all-zero framebuffer, the second of two identical
/// draws of a sprite with at least one set bit reports a collision in
/// VF: the first draw lit exactly the sprite's cells, and the second
/// hits them again. Stated for coordinate registers other than VF.
pub proof fn lemma_second_draw_collides(
    pre: Chip8,
    mid: Chip8,
    post: Chip8,
    x: int,
    y: int,
    lines: int,
)
    requires
        pre.wf(),
        0 <= x < NUM_REGISTERS,
        0 <= y < NUM_REGISTERS,
        0 <= lines < NUM_REGISTERS,
        x != 15,
        y != 15,
        forall|i: int| 0 <= i < SCREEN_SIZE ==> pre.screen@[i] == 0,
        exists|r: int| 0 <= r < lines && #[trigger] pre.ram@[pre.I + r] != 0,
        draw_in_bounds(pre, x, y, lines),
        draw_effect(pre, mid, x, y, lines),
        draw_effect(mid, post, x, y, lines),
    ensures
        post.V@[15] == 1,
{
    let base = draw_base(pre, x, y);
    let ireg = pre.I as int;
    let ram = pre.ram@;
    let s0 = pre.screen@;
    let s1 = mid.screen@;
    assert(mid.V@[x] == pre.V@[x]);
    assert(mid.V@[y] == pre.V@[y]);
    assert(draw_base(mid, x, y) == base);
    let r = choose|r: int| 0 <= r < lines && #[trigger] pre.ram@[pre.I + r] != 0;
    lemma_nonzero_row_has_set_bit(ram[ireg + r]);
    let b = choose|b: int| 0 <= b < 8 && #[trigger] bit_at(ram[ireg + r], b) == 1;
    let k = 8 * r + b;
    assert(k / 8 == r && k % 8 == b) by (nonlinear_arith)
        requires
            k == 8 * r + b,
            0 <= b < 8,
            0 <= r,
    ;
    assert(step_bit(ram, ireg, k) == 1);
    assert(0 <= k < 8 * lines) by (nonlinear_arith)
        requires
            k == 8 * r + b,
            0 <= b < 8,
            0 <= r < lines,
    ;
    lemma_steps_in_range(s0, ram, ireg, base, lines);
    lemma_screen_after_len(s0, ram, ireg, base, 8 * lines);
    assert(s1.len() == SCREEN_SIZE);
    lemma_steps_in_range(s1, ram, ireg, base, lines);
    assert(0 <= step_pos(base, k) < s0.len());
    lemma_screen_after_at(s0, ram, ireg, base, 8 * lines, k);
    assert(s0[step_pos(base, k)] == 0);
    assert(s1[step_pos(base, k)] == flip(s0[step_pos(base, k)]));
    assert(s1[step_pos(base, k)] == 1);
    lemma_collision_char(s1, ram, ireg, base, 8 * lines);
    assert(collision_after(s1, ram, ireg, base, 8 * lines));
    assert(post.V@[15] == 1);
}

/// The decimal store leaves exactly the hundreds, tens and units digits
/// of Vx at the address register and the two bytes after it.
pub proof fn lemma_bcd_digits(pre: Chip8, post: Chip8, x: int)
    requires
        pre.wf(),
        0 <= x < NUM_REGISTERS,
        pre.I + 2 < RAM_SIZE,
        bcd_effect(pre, post, x),
    ensures
        post.ram@[pre.I as int] == pre.V@[x] / 100,
        post.ram@[pre.I + 1] == (pre.V@[x] % 100) / 10,
        post.ram@[pre.I + 2] == pre.V@[x] % 10,
{
}

} // verus!
