//! Execution of the individual instructions.
//!
//! Each method performs exactly one state transition and is specified by
//! the matching relation in `effects`. The ones that can hit a fatal
//! condition (return, call, draw, decimal store) report it as an error
//! and leave the state untouched; none of them panics.
use vstd::prelude::*;
use crate::chip8::Chip8;
use crate::chip8::Chip8Error;
use crate::chip8::NUM_KEYS;
use crate::chip8::NUM_REGISTERS;
use crate::chip8::RAM_SIZE;
use crate::chip8::SCREEN_SIZE;
use crate::chip8::STACK_SIZE;
use crate::effects::call_effect;
use crate::effects::carry_flag;
use crate::effects::clear_screen_effect;
use crate::effects::flag_last_effect;
use crate::effects::jump_effect;
use crate::effects::masked_random_effect;
use crate::effects::no_borrow_flag;
use crate::effects::return_effect;
use crate::effects::set_i_effect;
use crate::effects::set_reg_effect;
use crate::effects::shl_effect;
use crate::effects::shr_effect;
use crate::effects::skip_effect;
use crate::effects::state_unchanged;
use crate::effects::timers_unchanged;
use crate::effects::wrap_add;
use crate::effects::wrap_sub;
use crate::chip8::zeroed_bytes;
use crate::chip8::SCREEN_WIDTH;
use crate::draw::collision_after;
use crate::draw::draw_effect;
use crate::draw::draw_in_bounds;
use crate::draw::screen_after;
use crate::draw::step_bit;
use crate::draw::step_pos;

verus! {

impl Chip8 {
    /// Clear screen: every framebuffer cell to zero; raises the draw flag.
    pub fn execute_clear_screen(&mut self)
        requires
            old(self).wf(),
            old(self).PC + 2 <= usize::MAX,
        ensures
            final(self).wf(),
            clear_screen_effect(*old(self), *final(self)),
            timers_unchanged(*old(self), *final(self)),
    {
        self.screen = zeroed_bytes(SCREEN_SIZE);
        self.PC += 2;
        self.draw_flag = true;
    }

    /// Return from subroutine: pops the youngest return address into the
    /// program counter. An empty stack is a fatal condition.
    pub fn execute_return_from_subroutine(&mut self) -> (r: Result<(), Chip8Error>)
        requires
            old(self).wf(),
        ensures
            final(self).wf(),
            old(self).SP == 0 ==> r == Err::<(), Chip8Error>(Chip8Error::StackUnderflow)
                && state_unchanged(*old(self), *final(self)),
            old(self).SP > 0 ==> r == Ok::<(), Chip8Error>(()) && return_effect(
                *old(self),
                *final(self),
            ),
            timers_unchanged(*old(self), *final(self)),
    {
        if self.SP == 0 {
            return Err(Chip8Error::StackUnderflow);
        }
        self.SP -= 1;
        self.PC = self.stack[self.SP];
        Ok(())
    }

    /// Jump: the program counter is assigned the literal address.
    pub fn execute_goto(&mut self, address: usize)
        requires
            old(self).wf(),
        ensures
            final(self).wf(),
            jump_effect(*old(self), *final(self), address as int),
            timers_unchanged(*old(self), *final(self)),
    {
        self.PC = address;
    }

    /// Call subroutine: pushes the address of the next instruction and
    /// jumps. A full stack is a fatal condition.
    pub fn execute_call_subroutine(&mut self, address: usize) -> (r: Result<(), Chip8Error>)
        requires
            old(self).wf(),
            old(self).PC + 2 <= usize::MAX,
        ensures
            final(self).wf(),
            old(self).SP >= STACK_SIZE ==> r == Err::<(), Chip8Error>(Chip8Error::StackOverflow)
                && state_unchanged(*old(self), *final(self)),
            old(self).SP < STACK_SIZE ==> r == Ok::<(), Chip8Error>(()) && call_effect(
                *old(self),
                *final(self),
                address as int,
            ),
            timers_unchanged(*old(self), *final(self)),
    {
        if self.SP >= STACK_SIZE {
            return Err(Chip8Error::StackOverflow);
        }
        let ret = self.PC + 2;
        self.stack[self.SP] = ret;
        self.SP += 1;
        self.PC = address;
        Ok(())
    }

    /// Skip the next instruction when Vx equals the literal.
    pub fn execute_skip_next_instruction_if_Vx_equals_n(&mut self, Vx: usize, n: u8)
        requires
            old(self).wf(),
            Vx < NUM_REGISTERS,
            old(self).PC + 4 <= usize::MAX,
        ensures
            final(self).wf(),
            skip_effect(*old(self), *final(self), old(self).V@[Vx as int] == n),
            timers_unchanged(*old(self), *final(self)),
    {
        if self.V[Vx] == n {
            self.PC += 4;
        } else {
            self.PC += 2;
        }
    }

    /// Skip the next instruction when Vx differs from the literal.
    pub fn execute_skip_next_instruction_if_Vx_not_equals_n(&mut self, Vx: usize, n: u8)
        requires
            old(self).wf(),
            Vx < NUM_REGISTERS,
            old(self).PC + 4 <= usize::MAX,
        ensures
            final(self).wf(),
            skip_effect(*old(self), *final(self), old(self).V@[Vx as int] != n),
            timers_unchanged(*old(self), *final(self)),
    {
        if self.V[Vx] != n {
            self.PC += 4;
        } else {
            self.PC += 2;
        }
    }

    /// Skip the next instruction when Vx equals Vy.
    pub fn execute_skip_next_instruction_if_Vx_equals_Vy(&mut self, Vx: usize, Vy: usize)
        requires
            old(self).wf(),
            Vx < NUM_REGISTERS,
            Vy < NUM_REGISTERS,
            old(self).PC + 4 <= usize::MAX,
        ensures
            final(self).wf(),
            skip_effect(
                *old(self),
                *final(self),
                old(self).V@[Vx as int] == old(self).V@[Vy as int],
            ),
            timers_unchanged(*old(self), *final(self)),
    {
        if self.V[Vx] == self.V[Vy] {
            self.PC += 4;
        } else {
            self.PC += 2;
        }
    }

    /// Skip the next instruction when Vx differs from Vy.
    pub fn execute_skip_next_instruction_if_Vx_not_equals_Vy(&mut self, Vx: usize, Vy: usize)
        requires
            old(self).wf(),
            Vx < NUM_REGISTERS,
            Vy < NUM_REGISTERS,
            old(self).PC + 4 <= usize::MAX,
        ensures
            final(self).wf(),
            skip_effect(
                *old(self),
                *final(self),
                old(self).V@[Vx as int] != old(self).V@[Vy as int],
            ),
            timers_unchanged(*old(self), *final(self)),
    {
        if self.V[Vx] != self.V[Vy] {
            self.PC += 4;
        } else {
            self.PC += 2;
        }
    }

    /// Load the literal into Vx.
    pub fn execute_set_Vx_to_n(&mut self, Vx: usize, n: u8)
        requires
            old(self).wf(),
            Vx < NUM_REGISTERS,
            old(self).PC + 2 <= usize::MAX,
        ensures
            final(self).wf(),
            set_reg_effect(*old(self), *final(self), Vx as int, n),
            timers_unchanged(*old(self), *final(self)),
    {
        self.V[Vx] = n;
        self.PC += 2;
    }

    /// Add the literal to Vx, wrapping; the flag register is not written.
    pub fn execute_add_n_to_Vx(&mut self, Vx: usize, n: u8)
        requires
            old(self).wf(),
            Vx < NUM_REGISTERS,
            old(self).PC + 2 <= usize::MAX,
        ensures
            final(self).wf(),
            set_reg_effect(
                *old(self),
                *final(self),
                Vx as int,
                wrap_add(old(self).V@[Vx as int], n),
            ),
            timers_unchanged(*old(self), *final(self)),
    {
        let a = self.V[Vx];
        let sum: u16 = a as u16 + n as u16;
        let res: u8 = if sum > 255 {
            (sum - 256) as u8
        } else {
            sum as u8
        };
        self.V[Vx] = res;
        self.PC += 2;
    }

    /// Copy Vy into Vx.
    pub fn execute_set_Vx_to_Vy(&mut self, Vx: usize, Vy: usize)
        requires
            old(self).wf(),
            Vx < NUM_REGISTERS,
            Vy < NUM_REGISTERS,
            old(self).PC + 2 <= usize::MAX,
        ensures
            final(self).wf(),
            set_reg_effect(*old(self), *final(self), Vx as int, old(self).V@[Vy as int]),
            timers_unchanged(*old(self), *final(self)),
    {
        let v = self.V[Vy];
        self.V[Vx] = v;
        self.PC += 2;
    }

    /// Bitwise or of Vy into Vx.
    pub fn execute_set_Vx_to_Vx_or_Vy(&mut self, Vx: usize, Vy: usize)
        requires
            old(self).wf(),
            Vx < NUM_REGISTERS,
            Vy < NUM_REGISTERS,
            old(self).PC + 2 <= usize::MAX,
        ensures
            final(self).wf(),
            set_reg_effect(
                *old(self),
                *final(self),
                Vx as int,
                old(self).V@[Vx as int] | old(self).V@[Vy as int],
            ),
            timers_unchanged(*old(self), *final(self)),
    {
        let v = self.V[Vx] | self.V[Vy];
        self.V[Vx] = v;
        self.PC += 2;
    }

    /// Bitwise and of Vy into Vx.
    pub fn execute_set_Vx_to_Vx_and_Vy(&mut self, Vx: usize, Vy: usize)
        requires
            old(self).wf(),
            Vx < NUM_REGISTERS,
            Vy < NUM_REGISTERS,
            old(self).PC + 2 <= usize::MAX,
        ensures
            final(self).wf(),
            set_reg_effect(
                *old(self),
                *final(self),
                Vx as int,
                old(self).V@[Vx as int] & old(self).V@[Vy as int],
            ),
            timers_unchanged(*old(self), *final(self)),
    {
        let v = self.V[Vx] & self.V[Vy];
        self.V[Vx] = v;
        self.PC += 2;
    }

    /// Bitwise exclusive or of Vy into Vx.
    pub fn execute_set_Vx_to_Vx_xor_Vy(&mut self, Vx: usize, Vy: usize)
        requires
            old(self).wf(),
            Vx < NUM_REGISTERS,
            Vy < NUM_REGISTERS,
            old(self).PC + 2 <= usize::MAX,
        ensures
            final(self).wf(),
            set_reg_effect(
                *old(self),
                *final(self),
                Vx as int,
                old(self).V@[Vx as int] ^ old(self).V@[Vy as int],
            ),
            timers_unchanged(*old(self), *final(self)),
    {
        let v = self.V[Vx] ^ self.V[Vy];
        self.V[Vx] = v;
        self.PC += 2;
    }

    /// Add Vy to Vx, wrapping; VF takes the carry, written last, so when
    /// Vx is VF the flag wins.
    pub fn execute_add_Vy_to_Vx(&mut self, Vx: usize, Vy: usize)
        requires
            old(self).wf(),
            Vx < NUM_REGISTERS,
            Vy < NUM_REGISTERS,
            old(self).PC + 2 <= usize::MAX,
        ensures
            final(self).wf(),
            flag_last_effect(
                *old(self),
                *final(self),
                Vx as int,
                wrap_add(old(self).V@[Vx as int], old(self).V@[Vy as int]),
                carry_flag(old(self).V@[Vx as int], old(self).V@[Vy as int]),
            ),
            timers_unchanged(*old(self), *final(self)),
    {
        let a = self.V[Vx];
        let b = self.V[Vy];
        let sum: u16 = a as u16 + b as u16;
        let res: u8 = if sum > 255 {
            (sum - 256) as u8
        } else {
            sum as u8
        };
        let carry: u8 = if sum > 255 {
            1
        } else {
            0
        };
        self.V[Vx] = res;
        self.V[15] = carry;
        self.PC += 2;
    }

    /// Subtract Vy from Vx, wrapping; VF takes 1 when no borrow was
    /// needed, written last.
    pub fn execute_subtract_Vy_from_Vx(&mut self, Vx: usize, Vy: usize)
        requires
            old(self).wf(),
            Vx < NUM_REGISTERS,
            Vy < NUM_REGISTERS,
            old(self).PC + 2 <= usize::MAX,
        ensures
            final(self).wf(),
            flag_last_effect(
                *old(self),
                *final(self),
                Vx as int,
                wrap_sub(old(self).V@[Vx as int], old(self).V@[Vy as int]),
                no_borrow_flag(old(self).V@[Vx as int], old(self).V@[Vy as int]),
            ),
            timers_unchanged(*old(self), *final(self)),
    {
        let a = self.V[Vx];
        let b = self.V[Vy];
        let (res, no_borrow): (u8, u8) = if a >= b {
            (a - b, 1)
        } else {
            ((a as u16 + 256 - b as u16) as u8, 0)
        };
        self.V[Vx] = res;
        self.V[15] = no_borrow;
        self.PC += 2;
    }

    /// Set Vx to Vy minus Vx, wrapping; VF takes 1 when no borrow was
    /// needed, written last.
    pub fn execute_set_Vx_to_Vy_minus_Vx(&mut self, Vx: usize, Vy: usize)
        requires
            old(self).wf(),
            Vx < NUM_REGISTERS,
            Vy < NUM_REGISTERS,
            old(self).PC + 2 <= usize::MAX,
        ensures
            final(self).wf(),
            flag_last_effect(
                *old(self),
                *final(self),
                Vx as int,
                wrap_sub(old(self).V@[Vy as int], old(self).V@[Vx as int]),
                no_borrow_flag(old(self).V@[Vy as int], old(self).V@[Vx as int]),
            ),
            timers_unchanged(*old(self), *final(self)),
    {
        let a = self.V[Vx];
        let b = self.V[Vy];
        let (res, no_borrow): (u8, u8) = if b >= a {
            (b - a, 1)
        } else {
            ((b as u16 + 256 - a as u16) as u8, 0)
        };
        self.V[Vx] = res;
        self.V[15] = no_borrow;
        self.PC += 2;
    }

    /// Shift Vx right by one; VF takes the pre-shift low bit, written
    /// last, so when Vx is VF the flag wins.
    pub fn execute_shift_right_Vx(&mut self, Vx: usize)
        requires
            old(self).wf(),
            Vx < NUM_REGISTERS,
            old(self).PC + 2 <= usize::MAX,
        ensures
            final(self).wf(),
            shr_effect(*old(self), *final(self), Vx as int),
            timers_unchanged(*old(self), *final(self)),
    {
        let a = self.V[Vx];
        self.V[Vx] = a / 2;
        self.V[15] = a % 2;
        self.PC += 2;
    }

    /// Shift Vx left by one; VF takes the pre-shift high bit, written
    /// last, so when Vx is VF the flag wins.
    pub fn execute_shift_left_Vx(&mut self, Vx: usize)
        requires
            old(self).wf(),
            Vx < NUM_REGISTERS,
            old(self).PC + 2 <= usize::MAX,
        ensures
            final(self).wf(),
            shl_effect(*old(self), *final(self), Vx as int),
            timers_unchanged(*old(self), *final(self)),
    {
        let a = self.V[Vx];
        let doubled: u16 = a as u16 + a as u16;
        let res: u8 = if doubled > 255 {
            (doubled - 256) as u8
        } else {
            doubled as u8
        };
        self.V[Vx] = res;
        self.V[15] = a / 128;
        self.PC += 2;
    }

    /// Load the literal address into the address register.
    pub fn execute_set_I(&mut self, value: usize)
        requires
            old(self).wf(),
            value < RAM_SIZE,
            old(self).PC + 2 <= usize::MAX,
        ensures
            final(self).wf(),
            set_i_effect(*old(self), *final(self), value as int),
            timers_unchanged(*old(self), *final(self)),
    {
        self.I = value;
        self.PC += 2;
    }

    /// Jump to the literal address plus V0.
    pub fn execute_goto_plus_V0(&mut self, address: usize)
        requires
            old(self).wf(),
            address < RAM_SIZE,
        ensures
            final(self).wf(),
            jump_effect(*old(self), *final(self), address + old(self).V@[0]),
            timers_unchanged(*old(self), *final(self)),
    {
        self.PC = address + (self.V[0] as usize);
    }

    /// Load a random byte masked with the literal into Vx.
    pub fn execute_set_Vx_to_masked_random(&mut self, Vx: usize, n: u8)
        requires
            old(self).wf(),
            Vx < NUM_REGISTERS,
            old(self).PC + 2 <= usize::MAX,
        ensures
            final(self).wf(),
            masked_random_effect(*old(self), *final(self), Vx as int, n),
            timers_unchanged(*old(self), *final(self)),
    {
        let r: u8 = rand::random::<u8>();
        let masked = r & n;
        self.V[Vx] = masked;
        self.PC += 2;
        proof {
            assert(set_reg_effect(*old(self), *self, Vx as int, r & n));
        }
    }

    /// Draw a sprite of `lines` rows read from the address register at
    /// the coordinates held in Vx and Vy. Set bits flip framebuffer
    /// cells; VF reports whether any set bit landed on a lit cell. Rows
    /// do not wrap at the right screen edge: cells past column 63 bleed
    /// into the next row of the linear framebuffer. Only set bits touch
    /// cells, so only they are bounded: a set bit whose cell would leave
    /// the framebuffer, or a row that would be read past the end of
    /// memory, is a fatal condition under which the state does not move.
    pub fn execute_draw_sprite(&mut self, Vx: usize, Vy: usize, lines: usize) -> (r: Result<
        (),
        Chip8Error,
    >)
        requires
            old(self).wf(),
            Vx < NUM_REGISTERS,
            Vy < NUM_REGISTERS,
            lines < NUM_REGISTERS,
            old(self).PC + 2 <= usize::MAX,
        ensures
            final(self).wf(),
            !draw_in_bounds(*old(self), Vx as int, Vy as int, lines as int) ==> r == Err::<
                (),
                Chip8Error,
            >(Chip8Error::DrawOutOfBounds) && state_unchanged(*old(self), *final(self)),
            draw_in_bounds(*old(self), Vx as int, Vy as int, lines as int) ==> r == Ok::<
                (),
                Chip8Error,
            >(()) && draw_effect(*old(self), *final(self), Vx as int, Vy as int, lines as int),
            timers_unchanged(*old(self), *final(self)),
    {
        let x = self.V[Vx] as usize;
        let y = self.V[Vy] as usize;
        let base = SCREEN_WIDTH * y + x;
        if self.I + lines > RAM_SIZE {
            return Err(Chip8Error::DrawOutOfBounds);
        }
        let ghost pre: Chip8 = *old(self);
        let ghost base_g: int = base as int;
        let ghost i0: int = pre.I as int;
        let mut scan_row: usize = 0;
        while scan_row < lines
            invariant
                pre.wf(),
                scan_row <= lines,
                lines < NUM_REGISTERS,
                Vx < NUM_REGISTERS,
                Vy < NUM_REGISTERS,
                base == base_g,
                base_g == SCREEN_WIDTH * pre.V@[Vy as int] + pre.V@[Vx as int],
                i0 == pre.I as int,
                pre.I + lines <= RAM_SIZE,
                *self == pre,
                forall|k: int|
                    0 <= k < 8 * scan_row && #[trigger] step_bit(pre.ram@, i0, k) == 1
                        ==> step_pos(base_g, k) < SCREEN_SIZE,
            decreases lines - scan_row,
        {
            let row_byte = self.ram[self.I + scan_row];
            let mut sb: usize = 0;
            while sb < 8
                invariant
                    pre.wf(),
                    sb <= 8,
                    scan_row < lines,
                    lines < NUM_REGISTERS,
                    Vx < NUM_REGISTERS,
                    Vy < NUM_REGISTERS,
                    base == base_g,
                    base_g == SCREEN_WIDTH * pre.V@[Vy as int] + pre.V@[Vx as int],
                    i0 == pre.I as int,
                    pre.I + lines <= RAM_SIZE,
                    row_byte == pre.ram@[i0 + scan_row],
                    *self == pre,
                    forall|k: int|
                        0 <= k < 8 * scan_row + sb && #[trigger] step_bit(pre.ram@, i0, k) == 1
                            ==> step_pos(base_g, k) < SCREEN_SIZE,
                decreases 8 - sb,
            {
                proof {
                    let k = 8 * scan_row + sb;
                    assert(k / 8 == scan_row as int && k % 8 == sb as int) by (nonlinear_arith)
                        requires
                            k == 8 * (scan_row as int) + sb,
                            0 <= sb < 8,
                            0 <= scan_row,
                    ;
                    assert(step_bit(pre.ram@, i0, k) == (row_byte >> ((7 - sb) as u8)) & 1);
                    assert(step_pos(base_g, k) == base_g + SCREEN_WIDTH * scan_row + sb);
                }
                let bit = (row_byte >> ((7 - sb) as u8)) & 1u8;
                if bit == 1 && base + SCREEN_WIDTH * scan_row + sb >= SCREEN_SIZE {
                    proof {
                        let k = 8 * scan_row + sb;
                        assert(0 <= k < 8 * lines);
                        assert(!draw_in_bounds(pre, Vx as int, Vy as int, lines as int));
                    }
                    return Err(Chip8Error::DrawOutOfBounds);
                }
                sb += 1;
            }
            scan_row += 1;
            proof {
                assert(8 * (scan_row as int - 1) + 8 == 8 * scan_row);
            }
        }
        assert(draw_in_bounds(pre, Vx as int, Vy as int, lines as int));
        let mut collided: u8 = 0;
        let mut row: usize = 0;
        while row < lines
            invariant
                pre.wf(),
                row <= lines,
                lines < NUM_REGISTERS,
                Vx < NUM_REGISTERS,
                Vy < NUM_REGISTERS,
                base == base_g,
                base_g == SCREEN_WIDTH * pre.V@[Vy as int] + pre.V@[Vx as int],
                i0 == pre.I as int,
                pre.I + lines <= RAM_SIZE,
                forall|k: int|
                    0 <= k < 8 * lines && #[trigger] step_bit(pre.ram@, i0, k) == 1 ==> step_pos(
                        base_g,
                        k,
                    ) < SCREEN_SIZE,
                self.ram@ == pre.ram@,
                self.stack@ == pre.stack@,
                self.V@ == pre.V@,
                self.I == pre.I,
                self.PC == pre.PC,
                self.SP == pre.SP,
                self.key@ == pre.key@,
                self.draw_flag == pre.draw_flag,
                self.delay_timer == pre.delay_timer,
                self.sound_timer == pre.sound_timer,
                self.ram@.len() == RAM_SIZE,
                self.stack@.len() == STACK_SIZE,
                self.V@.len() == NUM_REGISTERS,
                self.key@.len() == NUM_KEYS,
                self.SP <= STACK_SIZE,
                self.I < RAM_SIZE,
                forall|i: int| 0 <= i < NUM_KEYS ==> self.key@[i] <= 1,
                self.screen@.len() == SCREEN_SIZE,
                forall|i: int| 0 <= i < SCREEN_SIZE ==> self.screen@[i] <= 1,
                self.screen@ == screen_after(pre.screen@, pre.ram@, i0, base_g, 8 * row),
                collided <= 1,
                collided == 1 <==> collision_after(pre.screen@, pre.ram@, i0, base_g, 8 * row),
            decreases lines - row,
        {
            let row_byte = self.ram[self.I + row];
            let mut b: usize = 0;
            while b < 8
                invariant
                    pre.wf(),
                    b <= 8,
                    row < lines,
                    lines < NUM_REGISTERS,
                    Vx < NUM_REGISTERS,
                    Vy < NUM_REGISTERS,
                    base == base_g,
                    base_g == SCREEN_WIDTH * pre.V@[Vy as int] + pre.V@[Vx as int],
                    i0 == pre.I as int,
                    pre.I + lines <= RAM_SIZE,
                    forall|k: int|
                        0 <= k < 8 * lines && #[trigger] step_bit(pre.ram@, i0, k) == 1
                            ==> step_pos(base_g, k) < SCREEN_SIZE,
                    row_byte == pre.ram@[i0 + row],
                    self.ram@ == pre.ram@,
                    self.stack@ == pre.stack@,
                    self.V@ == pre.V@,
                    self.I == pre.I,
                    self.PC == pre.PC,
                    self.SP == pre.SP,
                    self.key@ == pre.key@,
                    self.draw_flag == pre.draw_flag,
                    self.delay_timer == pre.delay_timer,
                    self.sound_timer == pre.sound_timer,
                    self.ram@.len() == RAM_SIZE,
                    self.stack@.len() == STACK_SIZE,
                    self.V@.len() == NUM_REGISTERS,
                    self.key@.len() == NUM_KEYS,
                    self.SP <= STACK_SIZE,
                    self.I < RAM_SIZE,
                    forall|i: int| 0 <= i < NUM_KEYS ==> self.key@[i] <= 1,
                    self.screen@.len() == SCREEN_SIZE,
                    forall|i: int| 0 <= i < SCREEN_SIZE ==> self.screen@[i] <= 1,
                    self.screen@ == screen_after(pre.screen@, pre.ram@, i0, base_g, 8 * row + b),
                    collided <= 1,
                    collided == 1 <==> collision_after(
                        pre.screen@,
                        pre.ram@,
                        i0,
                        base_g,
                        8 * row + b,
                    ),
                decreases 8 - b,
            {
                proof {
                    let k = 8 * row + b;
                    assert(k / 8 == row as int && k % 8 == b as int) by (nonlinear_arith)
                        requires
                            k == 8 * (row as int) + b,
                            0 <= b < 8,
                            0 <= row,
                    ;
                    assert(step_bit(pre.ram@, i0, k) == (row_byte >> ((7 - b) as u8)) & 1);
                    assert(step_pos(base_g, k) == base_g + SCREEN_WIDTH * row + b);
                }
                let pos = base + SCREEN_WIDTH * row + b;
                let bit = (row_byte >> ((7 - b) as u8)) & 1u8;
                if bit == 1 {
                    proof {
                        assert(0 <= 8 * row + b < 8 * lines);
                        assert(pos < SCREEN_SIZE);
                    }
                    let cur = self.screen[pos];
                    if cur == 1 {
                        collided = 1;
                    }
                    self.screen[pos] = if cur == 1 {
                        0
                    } else {
                        1
                    };
                }
                b += 1;
            }
            row += 1;
            proof {
                assert(8 * (row as int - 1) + 8 == 8 * row);
            }
        }
        self.V[15] = collided;
        self.PC += 2;
        self.draw_flag = true;
        Ok(())
    }

    /// Store the decimal digits of Vx at the address register and the
    /// two bytes after it. A store past the end of memory is fatal.
    pub fn execute_store_Vx_bcd_representation(&mut self, Vx: usize) -> (r: Result<
        (),
        Chip8Error,
    >)
        requires
            old(self).wf(),
            Vx < NUM_REGISTERS,
            old(self).PC + 2 <= usize::MAX,
        ensures
            final(self).wf(),
            old(self).I + 2 >= RAM_SIZE ==> r == Err::<(), Chip8Error>(Chip8Error::BcdOutOfBounds)
                && state_unchanged(*old(self), *final(self)),
            old(self).I + 2 < RAM_SIZE ==> r == Ok::<(), Chip8Error>(()) && crate::effects::bcd_effect(
                *old(self),
                *final(self),
                Vx as int,
            ),
            timers_unchanged(*old(self), *final(self)),
    {
        if self.I + 2 >= RAM_SIZE {
            return Err(Chip8Error::BcdOutOfBounds);
        }
        let v = self.V[Vx];
        self.ram[self.I] = v / 100;
        self.ram[self.I + 1] = (v % 100) / 10;
        self.ram[self.I + 2] = v % 10;
        self.PC += 2;
        Ok(())
    }
}

} // verus!
