//! The main stages of one emulated cycle: fetch, decode/execute, the
//! timer stage, the input latch, and their composition.
use vstd::prelude::*;
use crate::chip8::Chip8;
use crate::chip8::Chip8Error;
use crate::chip8::NUM_KEYS;
use crate::chip8::RAM_SIZE;
use crate::decode::lemma_operand_bounds;
use crate::decode::spec_decode;
use crate::effects::op_core_effect;
use crate::effects::op_fatal;
use crate::effects::state_unchanged;
use crate::effects::timer_tick_effect;
use crate::effects::timers_stepped;
use crate::effects::timers_unchanged;

verus! {

/// The 16-bit big-endian word at the program counter: the byte there is
/// the high byte, the byte after it the low byte.
pub open spec fn fetch_word(s: Chip8) -> u16 {
    (s.ram@[s.PC as int] * 256 + s.ram@[s.PC + 1]) as u16
}

/// What one whole cycle does. A fetch past the end of memory, an
/// unrecognized instruction, or an instruction's own fatal condition
/// ends the cycle with that error and the state untouched — in
/// particular the timers do not tick. Otherwise the instruction's effect
/// holds, the timers step down once, and the result reports whether the
/// sound timer just ran out.
pub open spec fn cycle_spec(pre: Chip8, post: Chip8, r: Result<bool, Chip8Error>) -> bool {
    if pre.PC + 1 >= RAM_SIZE {
        r == Err::<bool, Chip8Error>(Chip8Error::OutOfBoundsFetch) && state_unchanged(pre, post)
    } else {
        match spec_decode(fetch_word(pre)) {
            Option::None => r == Err::<bool, Chip8Error>(Chip8Error::InvalidInstruction)
                && state_unchanged(pre, post),
            Option::Some(op) => match op_fatal(pre, op) {
                Option::Some(e) => r == Err::<bool, Chip8Error>(e) && state_unchanged(pre, post),
                Option::None => r == Ok::<bool, Chip8Error>(pre.sound_timer == 1)
                    && op_core_effect(pre, post, op) && timers_stepped(pre, post),
            },
        }
    }
}

impl Chip8 {
    /// Fetch: the instruction word at the program counter. A counter
    /// that does not point at two readable bytes is a fatal condition.
    pub fn cycle_fetch(&self) -> (r: Result<u16, Chip8Error>)
        requires
            self.wf(),
        ensures
            self.PC + 1 < RAM_SIZE ==> r == Ok::<u16, Chip8Error>(fetch_word(*self)),
            self.PC + 1 >= RAM_SIZE ==> r == Err::<u16, Chip8Error>(Chip8Error::OutOfBoundsFetch),
    {
        if self.PC >= RAM_SIZE - 1 {
            return Err(Chip8Error::OutOfBoundsFetch);
        }
        let hi = self.ram[self.PC] as u16;
        let lo = self.ram[self.PC + 1] as u16;
        Ok(hi * 256 + lo)
    }

    /// Decode and execute one instruction word: exactly one state
    /// transition, as `op_core_effect` describes it. A word that decodes
    /// to nothing, or an instruction that hits its fatal condition,
    /// leaves the state untouched and reports the error.
    pub fn cycle_decode_execute(&mut self, instruction: u16) -> (r: Result<(), Chip8Error>)
        requires
            old(self).wf(),
            old(self).PC + 4 <= usize::MAX,
        ensures
            final(self).wf(),
            timers_unchanged(*old(self), *final(self)),
            match spec_decode(instruction) {
                Option::None => r == Err::<(), Chip8Error>(Chip8Error::InvalidInstruction)
                    && state_unchanged(*old(self), *final(self)),
                Option::Some(op) => match op_fatal(*old(self), op) {
                    Option::Some(e) => r == Err::<(), Chip8Error>(e) && state_unchanged(
                        *old(self),
                        *final(self),
                    ),
                    Option::None => r == Ok::<(), Chip8Error>(()) && op_core_effect(
                        *old(self),
                        *final(self),
                        op,
                    ),
                },
            },
    {
        proof {
            lemma_operand_bounds();
        }
        let x = ((instruction & 0x0F00) >> 8) as usize;
        let y = ((instruction & 0x00F0) >> 4) as usize;
        let n = (instruction & 0x00FF) as u8;
        let addr = (instruction & 0x0FFF) as usize;
        let low = instruction & 0x000F;
        if instruction == 0x00E0 {
            self.execute_clear_screen();
            Ok(())
        } else if instruction == 0x00EE {
            self.execute_return_from_subroutine()
        } else if 0x1000 <= instruction && instruction <= 0x1FFF {
            self.execute_goto(addr);
            Ok(())
        } else if 0x2000 <= instruction && instruction <= 0x2FFF {
            self.execute_call_subroutine(addr)
        } else if 0x3000 <= instruction && instruction <= 0x3FFF {
            self.execute_skip_next_instruction_if_Vx_equals_n(x, n);
            Ok(())
        } else if 0x4000 <= instruction && instruction <= 0x4FFF {
            self.execute_skip_next_instruction_if_Vx_not_equals_n(x, n);
            Ok(())
        } else if 0x5000 <= instruction && instruction <= 0x5FFF && low == 0x0 {
            self.execute_skip_next_instruction_if_Vx_equals_Vy(x, y);
            Ok(())
        } else if 0x6000 <= instruction && instruction <= 0x6FFF {
            self.execute_set_Vx_to_n(x, n);
            Ok(())
        } else if 0x7000 <= instruction && instruction <= 0x7FFF {
            self.execute_add_n_to_Vx(x, n);
            Ok(())
        } else if 0x8000 <= instruction && instruction <= 0x8FFF && low == 0x0 {
            self.execute_set_Vx_to_Vy(x, y);
            Ok(())
        } else if 0x8000 <= instruction && instruction <= 0x8FFF && low == 0x1 {
            self.execute_set_Vx_to_Vx_or_Vy(x, y);
            Ok(())
        } else if 0x8000 <= instruction && instruction <= 0x8FFF && low == 0x2 {
            self.execute_set_Vx_to_Vx_and_Vy(x, y);
            Ok(())
        } else if 0x8000 <= instruction && instruction <= 0x8FFF && low == 0x3 {
            self.execute_set_Vx_to_Vx_xor_Vy(x, y);
            Ok(())
        } else if 0x8000 <= instruction && instruction <= 0x8FFF && low == 0x4 {
            self.execute_add_Vy_to_Vx(x, y);
            Ok(())
        } else if 0x8000 <= instruction && instruction <= 0x8FFF && low == 0x5 {
            self.execute_subtract_Vy_from_Vx(x, y);
            Ok(())
        } else if 0x8000 <= instruction && instruction <= 0x8FFF && low == 0x6 {
            self.execute_shift_right_Vx(x);
            Ok(())
        } else if 0x8000 <= instruction && instruction <= 0x8FFF && low == 0x7 {
            self.execute_set_Vx_to_Vy_minus_Vx(x, y);
            Ok(())
        } else if 0x8000 <= instruction && instruction <= 0x8FFF && low == 0xE {
            self.execute_shift_left_Vx(x);
            Ok(())
        } else if 0x9000 <= instruction && instruction <= 0x9FFF && low == 0x0 {
            self.execute_skip_next_instruction_if_Vx_not_equals_Vy(x, y);
            Ok(())
        } else if 0xA000 <= instruction && instruction <= 0xAFFF {
            self.execute_set_I(addr);
            Ok(())
        } else if 0xB000 <= instruction && instruction <= 0xBFFF {
            self.execute_goto_plus_V0(addr);
            Ok(())
        } else if 0xC000 <= instruction && instruction <= 0xCFFF {
            self.execute_set_Vx_to_masked_random(x, n);
            Ok(())
        } else if 0xD000 <= instruction && instruction <= 0xDFFF {
            self.execute_draw_sprite(x, y, low as usize)
        } else if 0xF000 <= instruction && (instruction & 0x00FF) == 0x33 {
            self.execute_store_Vx_bcd_representation(x)
        } else {
            Err(Chip8Error::InvalidInstruction)
        }
    }

    /// Timer stage: each timer steps down once, stopping at zero. The
    /// result reports whether the sound timer just went from one to
    /// zero, the signal to stop the tone.
    pub fn cycle_update_timers(&mut self) -> (tone_stop: bool)
        requires
            old(self).wf(),
        ensures
            final(self).wf(),
            timer_tick_effect(*old(self), *final(self)),
            tone_stop == (old(self).sound_timer == 1),
    {
        if self.delay_timer > 0 {
            self.delay_timer -= 1;
        }
        let tone_stop = self.sound_timer == 1;
        if self.sound_timer > 0 {
            self.sound_timer -= 1;
        }
        tone_stop
    }

    /// Overwrite the input latch wholesale with a snapshot from the
    /// input collaborator; nothing else moves.
    pub fn set_keys(&mut self, snapshot: &Vec<u8>)
        requires
            old(self).wf(),
            snapshot@.len() == NUM_KEYS,
            forall|i: int| 0 <= i < NUM_KEYS ==> snapshot@[i] <= 1,
        ensures
            final(self).wf(),
            final(self).key@ == snapshot@,
            final(self).ram@ == old(self).ram@,
            final(self).screen@ == old(self).screen@,
            final(self).stack@ == old(self).stack@,
            final(self).V@ == old(self).V@,
            final(self).I == old(self).I,
            final(self).PC == old(self).PC,
            final(self).SP == old(self).SP,
            final(self).draw_flag == old(self).draw_flag,
            timers_unchanged(*old(self), *final(self)),
    {
        let ghost pre: Chip8 = *old(self);
        let mut k: usize = 0;
        while k < NUM_KEYS
            invariant
                k <= NUM_KEYS,
                snapshot@.len() == NUM_KEYS,
                self.key@.len() == NUM_KEYS,
                forall|i: int| 0 <= i < k ==> self.key@[i] == snapshot@[i],
                forall|i: int| k <= i < NUM_KEYS ==> self.key@[i] == pre.key@[i],
                pre.wf(),
                self.ram@ == pre.ram@,
                self.screen@ == pre.screen@,
                self.stack@ == pre.stack@,
                self.V@ == pre.V@,
                self.I == pre.I,
                self.PC == pre.PC,
                self.SP == pre.SP,
                self.draw_flag == pre.draw_flag,
                self.delay_timer == pre.delay_timer,
                self.sound_timer == pre.sound_timer,
            decreases NUM_KEYS - k,
        {
            let v = snapshot[k];
            self.key[k] = v;
            k += 1;
        }
        proof {
            assert(self.key@ =~= snapshot@);
        }
    }

    /// Mark the framebuffer as delivered: the driver loop calls this
    /// after handing the framebuffer to the presentation collaborator.
    /// Only the draw flag moves.
    pub fn clear_draw_flag(&mut self)
        requires
            old(self).wf(),
        ensures
            final(self).wf(),
            final(self).draw_flag == false,
            final(self).ram@ == old(self).ram@,
            final(self).screen@ == old(self).screen@,
            final(self).stack@ == old(self).stack@,
            final(self).V@ == old(self).V@,
            final(self).I == old(self).I,
            final(self).PC == old(self).PC,
            final(self).SP == old(self).SP,
            final(self).key@ == old(self).key@,
            timers_unchanged(*old(self), *final(self)),
    {
        self.draw_flag = false;
    }

    /// One whole cycle: fetch, decode/execute, then the timer stage.
    /// A fatal condition in fetch or execution ends the cycle with the
    /// error and the state untouched; otherwise the result carries the
    /// tone-stop signal from the timer stage.
    pub fn emulate_cycle(&mut self) -> (r: Result<bool, Chip8Error>)
        requires
            old(self).wf(),
        ensures
            final(self).wf(),
            cycle_spec(*old(self), *final(self), r),
    {
        let instruction = match self.cycle_fetch() {
            Ok(w) => w,
            Err(e) => {
                return Err(e);
            },
        };
        match self.cycle_decode_execute(instruction) {
            Ok(u) => u,
            Err(e) => {
                return Err(e);
            },
        };
        let ghost mid: Chip8 = *self;
        let tone_stop = self.cycle_update_timers();
        proof {
            let pre = *old(self);
            let post = *self;
            let op = spec_decode(fetch_word(pre)).unwrap();
            crate::effects::lemma_op_core_effect_timer_frame(pre, mid, post, op);
        }
        Ok(tone_stop)
    }
}

} // verus!
