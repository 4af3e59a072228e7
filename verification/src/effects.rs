//! What each operation does to the machine state.
//!
//! Every relation here speaks of a pre-state and a post-state and pins
//! the post-state completely, except that none of them mentions the two
//! timers: no operation touches them, and the timer stage, which touches
//! nothing else, is specified separately. Flag order matters and is
//! stated exactly: every operation that writes VF as a flag computes
//! its result from the pre-state operands and writes the flag last, so
//! when VF is also the operand register the flag wins.
use vstd::prelude::*;
use crate::chip8::Chip8;
use crate::chip8::Chip8Error;
use crate::chip8::RAM_SIZE;
use crate::chip8::STACK_SIZE;
use crate::decode::Instr;
use crate::draw::draw_effect;
use crate::draw::draw_in_bounds;

verus! {

/// All fields equal: the machine did not move.
pub open spec fn state_unchanged(pre: Chip8, post: Chip8) -> bool {
    &&& post.ram@ == pre.ram@
    &&& post.screen@ == pre.screen@
    &&& post.stack@ == pre.stack@
    &&& post.V@ == pre.V@
    &&& post.I == pre.I
    &&& post.PC == pre.PC
    &&& post.SP == pre.SP
    &&& post.delay_timer == pre.delay_timer
    &&& post.sound_timer == pre.sound_timer
    &&& post.key@ == pre.key@
    &&& post.draw_flag == pre.draw_flag
}

/// The two timers did not move.
pub open spec fn timers_unchanged(pre: Chip8, post: Chip8) -> bool {
    &&& post.delay_timer == pre.delay_timer
    &&& post.sound_timer == pre.sound_timer
}

/// Everything except the registers, the program counter and the timers
/// stayed as it was.
pub open spec fn only_v_pc_differ(pre: Chip8, post: Chip8) -> bool {
    &&& post.ram@ == pre.ram@
    &&& post.screen@ == pre.screen@
    &&& post.stack@ == pre.stack@
    &&& post.I == pre.I
    &&& post.SP == pre.SP
    &&& post.key@ == pre.key@
    &&& post.draw_flag == pre.draw_flag
}

/// Addition modulo 256.
pub open spec fn wrap_add(a: u8, b: u8) -> u8 {
    if a + b <= 255 {
        (a + b) as u8
    } else {
        (a + b - 256) as u8
    }
}

/// 1 when `a + b` overflows eight bits, else 0: the carry flag.
pub open spec fn carry_flag(a: u8, b: u8) -> u8 {
    if a + b > 255 {
        1u8
    } else {
        0u8
    }
}

/// Subtraction modulo 256.
pub open spec fn wrap_sub(a: u8, b: u8) -> u8 {
    if a >= b {
        (a - b) as u8
    } else {
        (a - b + 256) as u8
    }
}

/// 1 when `a - b` needs no borrow (`a >= b`), else 0.
pub open spec fn no_borrow_flag(a: u8, b: u8) -> u8 {
    if a >= b {
        1u8
    } else {
        0u8
    }
}

/// Register `x` takes `val`, the program counter advances by two.
pub open spec fn set_reg_effect(pre: Chip8, post: Chip8, x: int, val: u8) -> bool {
    &&& only_v_pc_differ(pre, post)
    &&& post.V@ == pre.V@.update(x, val)
    &&& post.PC == pre.PC + 2
}

/// Register `x` takes `val`, then VF takes `flag` as the last write, and
/// the program counter advances by two.
pub open spec fn flag_last_effect(pre: Chip8, post: Chip8, x: int, val: u8, flag: u8) -> bool {
    &&& only_v_pc_differ(pre, post)
    &&& post.V@ == pre.V@.update(x, val).update(15, flag)
    &&& post.PC == pre.PC + 2
}

/// A right shift: the operand register is halved, then VF takes the
/// pre-shift low bit as the last write, so when the operand register is
/// VF the flag wins.
pub open spec fn shr_effect(pre: Chip8, post: Chip8, x: int) -> bool {
    &&& only_v_pc_differ(pre, post)
    &&& post.V@ == pre.V@.update(x, (pre.V@[x] / 2) as u8).update(15, (pre.V@[x] % 2) as u8)
    &&& post.PC == pre.PC + 2
}

/// A left shift: the operand register is doubled modulo 256, then VF
/// takes the pre-shift high bit as the last write, so when the operand
/// register is VF the flag wins.
pub open spec fn shl_effect(pre: Chip8, post: Chip8, x: int) -> bool {
    &&& only_v_pc_differ(pre, post)
    &&& post.V@ == pre.V@.update(x, wrap_add(pre.V@[x], pre.V@[x])).update(
        15,
        (pre.V@[x] / 128) as u8,
    )
    &&& post.PC == pre.PC + 2
}

/// The program counter skips the next instruction when `taken` holds,
/// else steps over this one; nothing else moves.
pub open spec fn skip_effect(pre: Chip8, post: Chip8, taken: bool) -> bool {
    &&& only_v_pc_differ(pre, post)
    &&& post.V@ == pre.V@
    &&& post.PC == pre.PC + (if taken {
        4int
    } else {
        2int
    })
}

/// The program counter is assigned `target`; nothing else moves.
pub open spec fn jump_effect(pre: Chip8, post: Chip8, target: int) -> bool {
    &&& only_v_pc_differ(pre, post)
    &&& post.V@ == pre.V@
    &&& post.PC == target
}

/// The return address (the instruction after this one) is pushed and the
/// program counter jumps to `addr`. Assumes the stack is not full.
pub open spec fn call_effect(pre: Chip8, post: Chip8, addr: int) -> bool {
    &&& post.ram@ == pre.ram@
    &&& post.screen@ == pre.screen@
    &&& post.V@ == pre.V@
    &&& post.I == pre.I
    &&& post.key@ == pre.key@
    &&& post.draw_flag == pre.draw_flag
    &&& post.stack@ == pre.stack@.update(pre.SP as int, (pre.PC + 2) as usize)
    &&& post.SP == pre.SP + 1
    &&& post.PC == addr
}

/// The stack pointer steps down and the program counter takes the
/// youngest live return address. Assumes the stack is not empty.
pub open spec fn return_effect(pre: Chip8, post: Chip8) -> bool {
    &&& post.ram@ == pre.ram@
    &&& post.screen@ == pre.screen@
    &&& post.stack@ == pre.stack@
    &&& post.V@ == pre.V@
    &&& post.I == pre.I
    &&& post.key@ == pre.key@
    &&& post.draw_flag == pre.draw_flag
    &&& post.SP == pre.SP - 1
    &&& post.PC == pre.stack@[pre.SP - 1]
}

/// The address register takes `value`, the program counter advances.
pub open spec fn set_i_effect(pre: Chip8, post: Chip8, value: int) -> bool {
    &&& post.ram@ == pre.ram@
    &&& post.screen@ == pre.screen@
    &&& post.stack@ == pre.stack@
    &&& post.V@ == pre.V@
    &&& post.SP == pre.SP
    &&& post.key@ == pre.key@
    &&& post.draw_flag == pre.draw_flag
    &&& post.I == value
    &&& post.PC == pre.PC + 2
}

/// The framebuffer is wholly zeroed, the draw flag rises, the program
/// counter advances; nothing else moves.
pub open spec fn clear_screen_effect(pre: Chip8, post: Chip8) -> bool {
    &&& post.ram@ == pre.ram@
    &&& post.stack@ == pre.stack@
    &&& post.V@ == pre.V@
    &&& post.I == pre.I
    &&& post.SP == pre.SP
    &&& post.key@ == pre.key@
    &&& post.screen@.len() == pre.screen@.len()
    &&& forall|i: int| 0 <= i < post.screen@.len() ==> post.screen@[i] == 0
    &&& post.PC == pre.PC + 2
    &&& post.draw_flag == true
}

/// The three decimal digits of register `x`, most significant first, are
/// stored at the address register and the two bytes after it. Assumes
/// all three writes land inside memory.
pub open spec fn bcd_effect(pre: Chip8, post: Chip8, x: int) -> bool {
    let v = pre.V@[x];
    &&& post.screen@ == pre.screen@
    &&& post.stack@ == pre.stack@
    &&& post.V@ == pre.V@
    &&& post.I == pre.I
    &&& post.SP == pre.SP
    &&& post.key@ == pre.key@
    &&& post.draw_flag == pre.draw_flag
    &&& post.ram@ == pre.ram@.update(pre.I as int, (v / 100) as u8).update(
        pre.I + 1,
        ((v % 100) / 10) as u8,
    ).update(pre.I + 2, (v % 10) as u8)
    &&& post.PC == pre.PC + 2
}

/// Register `x` takes some byte masked with `n`; which byte is not
/// determined, only that the operation behaves as a register load of a
/// masked value.
pub open spec fn masked_random_effect(pre: Chip8, post: Chip8, x: int, n: u8) -> bool {
    exists|b: u8| set_reg_effect(pre, post, x, b & n)
}

/// The timer stage: each timer steps down once, stopping at zero;
/// nothing else moves.
pub open spec fn timer_tick_effect(pre: Chip8, post: Chip8) -> bool {
    &&& post.ram@ == pre.ram@
    &&& post.screen@ == pre.screen@
    &&& post.stack@ == pre.stack@
    &&& post.V@ == pre.V@
    &&& post.I == pre.I
    &&& post.PC == pre.PC
    &&& post.SP == pre.SP
    &&& post.key@ == pre.key@
    &&& post.draw_flag == pre.draw_flag
    &&& post.delay_timer == (if pre.delay_timer > 0 {
        (pre.delay_timer - 1) as u8
    } else {
        0u8
    })
    &&& post.sound_timer == (if pre.sound_timer > 0 {
        (pre.sound_timer - 1) as u8
    } else {
        0u8
    })
}

/// The timers alone, stepped down once each, stopping at zero.
pub open spec fn timers_stepped(pre: Chip8, post: Chip8) -> bool {
    &&& post.delay_timer == (if pre.delay_timer > 0 {
        (pre.delay_timer - 1) as u8
    } else {
        0u8
    })
    &&& post.sound_timer == (if pre.sound_timer > 0 {
        (pre.sound_timer - 1) as u8
    } else {
        0u8
    })
}

/// The fatal condition an operation hits in `pre`, if any: a return with
/// an empty stack, a call with a full one, a draw out of bounds, or a
/// decimal store past the end of memory.
pub open spec fn op_fatal(pre: Chip8, op: Instr) -> Option<Chip8Error> {
    match op {
        Instr::Return => if pre.SP == 0 {
            Some(Chip8Error::StackUnderflow)
        } else {
            None
        },
        Instr::Call { .. } => if pre.SP >= STACK_SIZE {
            Some(Chip8Error::StackOverflow)
        } else {
            None
        },
        Instr::DrawSprite { x, y, lines } => if !draw_in_bounds(
            pre,
            x as int,
            y as int,
            lines as int,
        ) {
            Some(Chip8Error::DrawOutOfBounds)
        } else {
            None
        },
        Instr::StoreBcd { x } => if pre.I + 2 >= RAM_SIZE {
            Some(Chip8Error::BcdOutOfBounds)
        } else {
            None
        },
        _ => None,
    }
}

/// What each instruction does to the state when its fatal condition does
/// not hold; the timers are not mentioned, no instruction touches them.
pub open spec fn op_core_effect(pre: Chip8, post: Chip8, op: Instr) -> bool {
    match op {
        Instr::ClearScreen => clear_screen_effect(pre, post),
        Instr::Return => return_effect(pre, post),
        Instr::Goto { addr } => jump_effect(pre, post, addr as int),
        Instr::Call { addr } => call_effect(pre, post, addr as int),
        Instr::SkipIfVxEqN { x, n } => skip_effect(pre, post, pre.V@[x as int] == n),
        Instr::SkipIfVxNeN { x, n } => skip_effect(pre, post, pre.V@[x as int] != n),
        Instr::SkipIfVxEqVy { x, y } => skip_effect(
            pre,
            post,
            pre.V@[x as int] == pre.V@[y as int],
        ),
        Instr::SetVxN { x, n } => set_reg_effect(pre, post, x as int, n),
        Instr::AddNToVx { x, n } => set_reg_effect(pre, post, x as int, wrap_add(pre.V@[x as int], n)),
        Instr::SetVxVy { x, y } => set_reg_effect(pre, post, x as int, pre.V@[y as int]),
        Instr::OrVxVy { x, y } => set_reg_effect(
            pre,
            post,
            x as int,
            pre.V@[x as int] | pre.V@[y as int],
        ),
        Instr::AndVxVy { x, y } => set_reg_effect(
            pre,
            post,
            x as int,
            pre.V@[x as int] & pre.V@[y as int],
        ),
        Instr::XorVxVy { x, y } => set_reg_effect(
            pre,
            post,
            x as int,
            pre.V@[x as int] ^ pre.V@[y as int],
        ),
        Instr::AddVyToVx { x, y } => flag_last_effect(
            pre,
            post,
            x as int,
            wrap_add(pre.V@[x as int], pre.V@[y as int]),
            carry_flag(pre.V@[x as int], pre.V@[y as int]),
        ),
        Instr::SubVyFromVx { x, y } => flag_last_effect(
            pre,
            post,
            x as int,
            wrap_sub(pre.V@[x as int], pre.V@[y as int]),
            no_borrow_flag(pre.V@[x as int], pre.V@[y as int]),
        ),
        Instr::ShrVx { x } => shr_effect(pre, post, x as int),
        Instr::SetVxVyMinusVx { x, y } => flag_last_effect(
            pre,
            post,
            x as int,
            wrap_sub(pre.V@[y as int], pre.V@[x as int]),
            no_borrow_flag(pre.V@[y as int], pre.V@[x as int]),
        ),
        Instr::ShlVx { x } => shl_effect(pre, post, x as int),
        Instr::SkipIfVxNeVy { x, y } => skip_effect(
            pre,
            post,
            pre.V@[x as int] != pre.V@[y as int],
        ),
        Instr::SetI { addr } => set_i_effect(pre, post, addr as int),
        Instr::GotoPlusV0 { addr } => jump_effect(pre, post, addr + pre.V@[0]),
        Instr::MaskedRandom { x, n } => masked_random_effect(pre, post, x as int, n),
        Instr::DrawSprite { x, y, lines } => draw_effect(pre, post, x as int, y as int, lines as int),
        Instr::StoreBcd { x } => bcd_effect(pre, post, x as int),
    }
}

/// An instruction's effect does not mention the timers, so it is
/// unaffected by the timer stage that follows it: if `mid` is the state
/// right after the instruction and `post` differs from `mid` only in the
/// timers, the effect also relates `pre` to `post`.
pub proof fn lemma_op_core_effect_timer_frame(pre: Chip8, mid: Chip8, post: Chip8, op: Instr)
    requires
        op_core_effect(pre, mid, op),
        timer_tick_effect(mid, post),
    ensures
        op_core_effect(pre, post, op),
{
    match op {
        Instr::MaskedRandom { x, n } => {
            let b = choose|b: u8| set_reg_effect(pre, mid, x as int, b & n);
            assert(set_reg_effect(pre, post, x as int, b & n));
        },
        _ => {},
    }
}

} // verus!
