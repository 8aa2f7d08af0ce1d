//! The machine: registers, memory, stack and program counter, and the
//! execution of one instruction at a time.

use vstd::prelude::*;
use crate::word::{
    REGISTER_BASE, REGISTER_END, WORD_MODULUS, is_valid_operand, operand_value, written_registers,
    add_word, mult_word, mod_word, not_word,
};

verus! {

/// Number of words in the physical memory buffer. It is larger than the
/// 15-bit logical address space, so that every 16-bit direct address used by
/// `rmem` and `wmem` lands inside it.
pub const MEMORY_WORDS: usize = 0x1FFFFF;

/// The conditions that end a run. `Halted` is the normal end.
#[derive(PartialEq, Eq, Structural, Clone, Copy, Debug)]
pub enum SynacorErr {
    Halted,
    BadRegister,
    StackUnderflow,
    BadOptcode,
    /// The input source could not supply a byte.
    InputErr,
    /// `mod` with a zero divisor.
    DivideByZero,
}

/// What the host has to do after an instruction that did not fail.
#[derive(PartialEq, Eq, Structural, Clone, Copy, Debug)]
pub enum Action {
    /// Nothing: fetch the next instruction.
    Continue,
    /// Emit this byte on the output channel.
    Output(u8),
    /// Read one byte and hand it to `receive_input` with this raw destination.
    Input(u16),
}

/// The mathematical state of a machine.
pub ghost struct MachineState {
    pub registers: Seq<u16>,
    pub memory: Seq<u16>,
    pub stack: Seq<u16>,
    pub pc: u16,
}

impl MachineState {
    pub open spec fn wf(self) -> bool {
        &&& self.registers.len() == 8
        &&& self.memory.len() == MEMORY_WORDS
    }

    /// The word `k` places after the program counter; the counter wraps at 16 bits.
    pub open spec fn fetch(self, k: int) -> u16 {
        self.memory[(self.pc + k) % 65536]
    }

    /// The program counter moved past `k` words.
    pub open spec fn pc_after(self, k: int) -> u16 {
        ((self.pc + k) % 65536) as u16
    }

    pub open spec fn value(self, raw: u16) -> u16 {
        operand_value(self.registers, raw)
    }

    /// This state with `word` written through `dest` and the counter moved past `k` words.
    pub open spec fn stored(self, dest: u16, word: u16, k: int) -> MachineState {
        MachineState { registers: written_registers(self.registers, dest, word), pc: self.pc_after(k), ..self }
    }

    pub open spec fn moved(self, k: int) -> MachineState {
        MachineState { pc: self.pc_after(k), ..self }
    }

    pub open spec fn jumped(self, target: u16) -> MachineState {
        MachineState { pc: target, ..self }
    }
}

/// A failure that leaves the state as it was.
pub open spec fn failed(s: MachineState, e: SynacorErr) -> (Result<Action, SynacorErr>, MachineState) {
    (Err(e), s)
}

pub open spec fn continued(s: MachineState) -> (Result<Action, SynacorErr>, MachineState) {
    (Ok(Action::Continue), s)
}

/// A three-operand instruction that writes `word` (computed from the values
/// of its second and third operands) into its first.
pub open spec fn three_operand(s: MachineState, word: u16) -> (Result<Action, SynacorErr>, MachineState) {
    if is_valid_operand(s.fetch(1)) && is_valid_operand(s.fetch(2)) && is_valid_operand(s.fetch(3)) {
        continued(s.stored(s.fetch(1), word, 4))
    } else {
        failed(s, SynacorErr::BadRegister)
    }
}

/// A two-operand instruction that writes `word` (computed from the value of
/// its second operand) into its first.
pub open spec fn two_operand(s: MachineState, word: u16) -> (Result<Action, SynacorErr>, MachineState) {
    if is_valid_operand(s.fetch(1)) && is_valid_operand(s.fetch(2)) {
        continued(s.stored(s.fetch(1), word, 3))
    } else {
        failed(s, SynacorErr::BadRegister)
    }
}

/// `jt` (`jump_if_nonzero`) or `jf`: jumps to the value of the second
/// operand when the test value is nonzero, respectively zero.
pub open spec fn conditional_jump(s: MachineState, jump_if_nonzero: bool) -> (Result<Action, SynacorErr>, MachineState) {
    let (a, b) = (s.fetch(1), s.fetch(2));
    if !is_valid_operand(a) {
        failed(s, SynacorErr::BadRegister)
    } else if (s.value(a) != 0) == jump_if_nonzero {
        if is_valid_operand(b) {
            continued(s.jumped(s.value(b)))
        } else {
            failed(s, SynacorErr::BadRegister)
        }
    } else {
        continued(s.moved(3))
    }
}

/// One instruction: what it reports and the state it leaves. The opcode is
/// fetched first, so `halt` leaves the counter just past it. Every other failure
/// leaves the state unchanged.
pub open spec fn step(s: MachineState) -> (Result<Action, SynacorErr>, MachineState) {
    let (a, b, c) = (s.fetch(1), s.fetch(2), s.fetch(3));
    let (va, vb, vc) = (s.value(a), s.value(b), s.value(c));
    match s.fetch(0) {
        0 => (Err(SynacorErr::Halted), s.moved(1)),
        1 => two_operand(s, vb),
        2 => if is_valid_operand(a) {
            continued(MachineState { stack: s.stack.push(va), ..s.moved(2) })
        } else {
            failed(s, SynacorErr::BadRegister)
        },
        3 => if s.stack.len() == 0 {
            failed(s, SynacorErr::StackUnderflow)
        } else if is_valid_operand(a) {
            continued(MachineState { stack: s.stack.drop_last(), ..s }.stored(a, s.stack.last(), 2))
        } else {
            failed(s, SynacorErr::BadRegister)
        },
        4 => three_operand(s, if vb == vc { 1 } else { 0 }),
        5 => three_operand(s, if vb > vc { 1 } else { 0 }),
        6 => if is_valid_operand(a) {
            continued(s.jumped(va))
        } else {
            failed(s, SynacorErr::BadRegister)
        },
        7 => conditional_jump(s, true),
        8 => conditional_jump(s, false),
        9 => three_operand(s, add_word(vb, vc)),
        10 => three_operand(s, mult_word(vb, vc)),
        11 => if is_valid_operand(a) && is_valid_operand(b) && is_valid_operand(c) && vc == 0 {
            failed(s, SynacorErr::DivideByZero)
        } else {
            three_operand(s, mod_word(vb, vc))
        },
        12 => three_operand(s, vb & vc),
        13 => three_operand(s, vb | vc),
        14 => two_operand(s, not_word(vb)),
        15 => two_operand(s, s.memory[vb as int]),
        16 => if is_valid_operand(a) && is_valid_operand(b) {
            continued(MachineState { memory: s.memory.update(va as int, vb), ..s.moved(3) })
        } else {
            failed(s, SynacorErr::BadRegister)
        },
        17 => if is_valid_operand(a) {
            continued(MachineState { stack: s.stack.push(s.pc_after(2)), pc: va, ..s })
        } else {
            failed(s, SynacorErr::BadRegister)
        },
        18 => if s.stack.len() == 0 {
            failed(s, SynacorErr::StackUnderflow)
        } else {
            continued(MachineState { stack: s.stack.drop_last(), pc: s.stack.last(), ..s })
        },
        19 => if is_valid_operand(a) {
            (Ok(Action::Output((va % 256) as u8)), s.moved(2))
        } else {
            failed(s, SynacorErr::BadRegister)
        },
        20 => if is_valid_operand(a) {
            (Ok(Action::Input(a)), s.moved(2))
        } else {
            failed(s, SynacorErr::BadRegister)
        },
        21 => continued(s.moved(1)),
        _ => failed(s, SynacorErr::BadOptcode),
    }
}

/// Handing the byte read for `in` (or the lack of one) to the machine.
pub open spec fn receive(s: MachineState, dest: u16, input: Option<u8>) -> (Result<(), SynacorErr>, MachineState) {
    match input {
        None => (Err(SynacorErr::InputErr), s),
        Some(byte) => if is_valid_operand(dest) {
            (Ok(()), MachineState { registers: written_registers(s.registers, dest, byte as u16), ..s })
        } else {
            (Err(SynacorErr::BadRegister), s)
        },
    }
}

/// The little-endian word made of a low and a high byte.
pub open spec fn le_word(low: u8, high: u8) -> u16 {
    (low as int + 256 * high as int) as u16
}

/// Memory after installing an image: word `i` for `i < len / 2` pairs bytes
/// `2i` and `2i + 1`; a trailing odd byte is ignored, the rest is kept.
pub open spec fn loaded_memory(memory: Seq<u16>, bytes: Seq<u8>) -> Seq<u16> {
    Seq::new(
        memory.len(),
        |i: int|
            if i < bytes.len() / 2 {
                le_word(bytes[2 * i], bytes[2 * i + 1])
            } else {
                memory[i]
            },
    )
}

/// One instruction's execution from `before` ended in `r` and `after`: as
/// `step` says for success and `halt`; on any other failure only the
/// program counter may differ from `before`.
pub open spec fn executed(before: MachineState, r: Result<Action, SynacorErr>, after: MachineState) -> bool {
    &&& (r is Ok || r == Err::<Action, SynacorErr>(SynacorErr::Halted)) ==> (r, after) == step(before)
    &&& r is Err ==> r == step(before).0 && after == before.jumped(after.pc)
}

pub struct Synacor {
    registers: [u16; 8],
    memory: Vec<u16>,
    stack: Vec<u16>,
    program_counter: u16,
}

impl View for Synacor {
    type V = MachineState;

    closed spec fn view(&self) -> MachineState {
        MachineState {
            registers: self.registers@,
            memory: self.memory@,
            stack: self.stack@,
            pc: self.program_counter,
        }
    }
}

impl Synacor {
    pub open spec fn wf(&self) -> bool {
        self@.wf()
    }

    /// A machine with zeroed registers and memory, an empty stack and the
    /// program counter at 0.
    pub fn new() -> (r: Synacor)
        ensures
            r.wf(),
            r@.registers == Seq::new(8, |i: int| 0u16),
            r@.memory == Seq::new(MEMORY_WORDS as nat, |i: int| 0u16),
            r@.stack == Seq::<u16>::empty(),
            r@.pc == 0,
    {
        let r = Synacor {
            registers: [0u16; 8],
            memory: vec![0u16; MEMORY_WORDS],
            stack: Vec::new(),
            program_counter: 0,
        };
        assert(r@.registers =~= Seq::new(8, |i: int| 0u16));
        assert(r@.memory =~= Seq::new(MEMORY_WORDS as nat, |i: int| 0u16));
        r
    }

    /// The word at the program counter; the counter moves past it, wrapping at 16 bits.
    pub fn read_word_code(&mut self) -> (r: u16)
        requires
            old(self).wf(),
        ensures
            final(self).wf(),
            r == old(self)@.fetch(0),
            final(self)@ == old(self)@.moved(1),
    {
        let word = self.memory[self.program_counter as usize];
        self.program_counter = self.program_counter.wrapping_add(1);
        word
    }

    /// Resolves a raw operand: a literal stands for itself, 32768..32775 read
    /// registers 0..7, and anything higher is `BadRegister`.
    pub fn read_word_data(&self, location: u16) -> (r: Result<u16, SynacorErr>)
        ensures
            is_valid_operand(location) ==> r == Ok::<u16, SynacorErr>(self@.value(location)),
            !is_valid_operand(location) ==> r == Err::<u16, SynacorErr>(SynacorErr::BadRegister),
    {
        if location < REGISTER_BASE {
            Ok(location)
        } else {
            let register = location % REGISTER_BASE;
            if register >= 8 {
                Err(SynacorErr::BadRegister)
            } else {
                Ok(self.registers[register as usize])
            }
        }
    }

    /// Writes `word` through the raw destination `location`: a literal
    /// destination discards the write, 32768..32775 write registers 0..7, and
    /// anything higher is `BadRegister` with nothing changed.
    pub fn write_word_data(&mut self, location: u16, word: u16) -> (r: Result<(), SynacorErr>)
        ensures
            is_valid_operand(location) ==> r == Ok::<(), SynacorErr>(()) && final(self)@ == (MachineState {
                registers: written_registers(old(self)@.registers, location, word),
                ..old(self)@
            }),
            !is_valid_operand(location) ==> r == Err::<(), SynacorErr>(SynacorErr::BadRegister)
                && final(self)@ == old(self)@,
    {
        if location < REGISTER_BASE {
            Ok(())
        } else {
            let register = location % REGISTER_BASE;
            if register >= 8 {
                Err(SynacorErr::BadRegister)
            } else {
                self.registers[register as usize] = word;
                Ok(())
            }
        }
    }

    /// Installs a program image: consecutive byte pairs become little-endian
    /// words from address 0 on.
    pub fn read_bytes_into_ram(&mut self, bytes: &[u8])
        requires
            old(self).wf(),
            bytes@.len() / 2 <= MEMORY_WORDS,
        ensures
            final(self).wf(),
            final(self)@ == (MachineState { memory: loaded_memory(old(self)@.memory, bytes@), ..old(self)@ }),
    {
        let words = bytes.len() / 2;
        let mut index: usize = 0;
        while index < words
            invariant
                words == bytes@.len() / 2,
                words <= MEMORY_WORDS,
                index <= words,
                self.wf(),
                self@.registers == old(self)@.registers,
                self@.stack == old(self)@.stack,
                self@.pc == old(self)@.pc,
                forall|i: int|
                    0 <= i < MEMORY_WORDS ==> #[trigger] self@.memory[i] == if i < index {
                        le_word(bytes@[2 * i], bytes@[2 * i + 1])
                    } else {
                        old(self)@.memory[i]
                    },
            decreases words - index,
        {
            let low = bytes[2 * index];
            let high = bytes[2 * index + 1];
            let word = low as u16 + 256 * (high as u16);
            self.memory[index] = word;
            index += 1;
        }
        assert(self@.memory =~= loaded_memory(old(self)@.memory, bytes@));
    }

    /// Reads the three operand words of an instruction whose opcode has been
    /// fetched, and resolves the last two.
    fn read_three_operands(&mut self) -> (r: Result<(u16, u16, u16), SynacorErr>)
        requires
            old(self).wf(),
        ensures
            final(self).wf(),
            final(self)@ == old(self)@.moved(3),
            ({
                let s = old(self)@;
                let (a, b, c) = (s.fetch(0), s.fetch(1), s.fetch(2));
                if is_valid_operand(b) && is_valid_operand(c) {
                    r == Ok::<(u16, u16, u16), SynacorErr>((a, s.value(b), s.value(c)))
                } else {
                    r == Err::<(u16, u16, u16), SynacorErr>(SynacorErr::BadRegister)
                }
            }),
    {
        let a = self.read_word_code();
        let b = self.read_word_code();
        let c = self.read_word_code();
        let vb = match self.read_word_data(b) {
            Ok(v) => v,
            Err(e) => return Err(e),
        };
        let vc = match self.read_word_data(c) {
            Ok(v) => v,
            Err(e) => return Err(e),
        };
        Ok((a, vb, vc))
    }

    /// Writes an instruction's result through its destination operand.
    fn write_result(&mut self, location: u16, word: u16) -> (r: Result<Action, SynacorErr>)
        ensures
            is_valid_operand(location) ==> r == Ok::<Action, SynacorErr>(Action::Continue)
                && final(self)@ == (MachineState {
                registers: written_registers(old(self)@.registers, location, word),
                ..old(self)@
            }),
            !is_valid_operand(location) ==> r == Err::<Action, SynacorErr>(SynacorErr::BadRegister)
                && final(self)@ == old(self)@,
    {
        match self.write_word_data(location, word) {
            Ok(()) => Ok(Action::Continue),
            Err(e) => Err(e),
        }
    }

    /// Executes one instruction. On failure only the program counter may
    /// have moved.
    fn execute(&mut self) -> (r: Result<Action, SynacorErr>)
        requires
            old(self).wf(),
        ensures
            final(self).wf(),
            executed(old(self)@, r, final(self)@),
    {
        let ghost before = self@;
        let opcode = self.read_word_code();
        match opcode {
            0 => Err(SynacorErr::Halted),
            1 | 14 | 15 => self.execute_two_operand(opcode, Ghost(before)),
            2 | 3 => self.execute_stack(opcode, Ghost(before)),
            4 | 5 | 9 | 10 | 11 | 12 | 13 => self.execute_three_operand(opcode, Ghost(before)),
            6 | 7 | 8 | 17 | 18 => self.execute_control(opcode, Ghost(before)),
            16 => self.execute_wmem(Ghost(before)),
            19 | 20 => self.execute_io(opcode, Ghost(before)),
            21 => Ok(Action::Continue),
            _ => Err(SynacorErr::BadOptcode),
        }
    }

    fn execute_two_operand(&mut self, opcode: u16, Ghost(before): Ghost<MachineState>) -> (r: Result<Action, SynacorErr>)
        requires
            old(self).wf(),
            old(self)@ == before.moved(1),
            opcode == before.fetch(0),
            opcode == 1 || opcode == 14 || opcode == 15,
        ensures
            final(self).wf(),
            executed(before, r, final(self)@),
    {
        let a = self.read_word_code();
        let b = self.read_word_code();
        let vb = match self.read_word_data(b) {
            Ok(v) => v,
            Err(e) => return Err(e),
        };
        let word = if opcode == 1 {
            vb
        } else if opcode == 14 {
            vb ^ 0x7FFF
        } else {
            self.memory[vb as usize]
        };
        self.write_result(a, word)
    }

    fn execute_stack(&mut self, opcode: u16, Ghost(before): Ghost<MachineState>) -> (r: Result<Action, SynacorErr>)
        requires
            old(self).wf(),
            old(self)@ == before.moved(1),
            opcode == before.fetch(0),
            opcode == 2 || opcode == 3,
        ensures
            final(self).wf(),
            executed(before, r, final(self)@),
    {
        if opcode == 2 {
            let a = self.read_word_code();
            let va = match self.read_word_data(a) {
                Ok(v) => v,
                Err(e) => return Err(e),
            };
            self.stack.push(va);
            Ok(Action::Continue)
        } else {
            if self.stack.len() == 0 {
                return Err(SynacorErr::StackUnderflow);
            }
            let a = self.read_word_code();
            if a >= REGISTER_END {
                return Err(SynacorErr::BadRegister);
            }
            let word = self.stack.pop().unwrap();
            self.write_result(a, word)
        }
    }

    fn execute_three_operand(&mut self, opcode: u16, Ghost(before): Ghost<MachineState>) -> (r: Result<Action, SynacorErr>)
        requires
            old(self).wf(),
            old(self)@ == before.moved(1),
            opcode == before.fetch(0),
            opcode == 4 || opcode == 5 || 9 <= opcode <= 13,
        ensures
            final(self).wf(),
            executed(before, r, final(self)@),
    {
        let (a, b, c) = match self.read_three_operands() {
            Ok(t) => t,
            Err(e) => return Err(e),
        };
        let word = match opcode {
            4 => if b == c { 1 } else { 0 },
            5 => if b > c { 1 } else { 0 },
            9 => b.wrapping_add(c) % WORD_MODULUS,
            10 => b.wrapping_mul(c) % WORD_MODULUS,
            11 => {
                if c == 0 {
                    if a >= REGISTER_END {
                        return Err(SynacorErr::BadRegister);
                    }
                    return Err(SynacorErr::DivideByZero);
                }
                (b % c) % WORD_MODULUS
            },
            12 => b & c,
            _ => b | c,
        };
        self.write_result(a, word)
    }

    fn execute_control(&mut self, opcode: u16, Ghost(before): Ghost<MachineState>) -> (r: Result<Action, SynacorErr>)
        requires
            old(self).wf(),
            old(self)@ == before.moved(1),
            opcode == before.fetch(0),
            6 <= opcode <= 8 || opcode == 17 || opcode == 18,
        ensures
            final(self).wf(),
            executed(before, r, final(self)@),
    {
        if opcode == 18 {
            return match self.stack.pop() {
                Some(target) => {
                    self.program_counter = target;
                    Ok(Action::Continue)
                },
                None => Err(SynacorErr::StackUnderflow),
            };
        }
        let a = self.read_word_code();
        let va = match self.read_word_data(a) {
            Ok(v) => v,
            Err(e) => return Err(e),
        };
        if opcode == 6 {
            self.program_counter = va;
        } else if opcode == 17 {
            self.stack.push(self.program_counter);
            self.program_counter = va;
        } else {
            let b = self.read_word_code();
            if (va != 0) == (opcode == 7) {
                let target = match self.read_word_data(b) {
                    Ok(v) => v,
                    Err(e) => return Err(e),
                };
                self.program_counter = target;
            }
        }
        Ok(Action::Continue)
    }

    fn execute_wmem(&mut self, Ghost(before): Ghost<MachineState>) -> (r: Result<Action, SynacorErr>)
        requires
            old(self).wf(),
            old(self)@ == before.moved(1),
            before.fetch(0) == 16,
        ensures
            final(self).wf(),
            executed(before, r, final(self)@),
    {
        let a = self.read_word_code();
        let b = self.read_word_code();
        let address = match self.read_word_data(a) {
            Ok(v) => v,
            Err(e) => return Err(e),
        };
        let word = match self.read_word_data(b) {
            Ok(v) => v,
            Err(e) => return Err(e),
        };
        self.memory.set(address as usize, word);
        Ok(Action::Continue)
    }

    fn execute_io(&mut self, opcode: u16, Ghost(before): Ghost<MachineState>) -> (r: Result<Action, SynacorErr>)
        requires
            old(self).wf(),
            old(self)@ == before.moved(1),
            opcode == before.fetch(0),
            opcode == 19 || opcode == 20,
        ensures
            final(self).wf(),
            executed(before, r, final(self)@),
    {
        let a = self.read_word_code();
        if opcode == 19 {
            let va = match self.read_word_data(a) {
                Ok(v) => v,
                Err(e) => return Err(e),
            };
            Ok(Action::Output((va % 256) as u8))
        } else {
            if a >= REGISTER_END {
                return Err(SynacorErr::BadRegister);
            }
            Ok(Action::Input(a))
        }
    }

    /// Executes the instruction at the program counter, as `step` describes.
    /// `halt` moves the counter past itself; any other failure leaves the
    /// machine unchanged.
    pub fn run_optcode(&mut self) -> (r: Result<Action, SynacorErr>)
        requires
            old(self).wf(),
        ensures
            final(self).wf(),
            (r, final(self)@) == step(old(self)@),
    {
        let start = self.program_counter;
        let r = self.execute();
        match r {
            Ok(_) | Err(SynacorErr::Halted) => {},
            Err(_) => {
                self.program_counter = start;
            },
        }
        r
    }

    /// Completes an `in` instruction: `input` is the byte read from the input
    /// channel, or `None` where the channel could not supply one.
    pub fn receive_input(&mut self, location: u16, input: Option<u8>) -> (r: Result<(), SynacorErr>)
        requires
            old(self).wf(),
        ensures
            final(self).wf(),
            (r, final(self)@) == receive(old(self)@, location, input),
    {
        match input {
            None => Err(SynacorErr::InputErr),
            Some(byte) => self.write_word_data(location, byte as u16),
        }
    }

    /// The content of register `index`.
    pub fn register(&self, index: usize) -> (r: u16)
        requires
            index < 8,
        ensures
            r == self@.registers[index as int],
    {
        self.registers[index]
    }

    /// The word at physical memory address `address`.
    pub fn memory_word(&self, address: usize) -> (r: u16)
        requires
            self.wf(),
            address < MEMORY_WORDS,
        ensures
            r == self@.memory[address as int],
    {
        self.memory[address]
    }

    /// The stack, bottom first.
    pub fn stack(&self) -> (r: &[u16])
        ensures
            r@ == self@.stack,
    {
        self.stack.as_slice()
    }

    pub fn program_counter(&self) -> (r: u16)
        ensures
            r == self@.pc,
    {
        self.program_counter
    }
}

impl SynacorErr {
    /// A one-line description of how a run ended.
    pub fn message(&self) -> (r: &'static str)
        ensures
            r@ == self.message_spec(),
    {
        match self {
            SynacorErr::Halted => "The synacor halted.",
            SynacorErr::BadRegister => "The synacor accessed a bad register.",
            SynacorErr::StackUnderflow => "The synacor's stack underflowed.",
            SynacorErr::BadOptcode => "The synacor's optcode is not implemented.",
            SynacorErr::InputErr => "The synacor could not read its input.",
            SynacorErr::DivideByZero => "The synacor divided by zero.",
        }
    }

    pub open spec fn message_spec(&self) -> Seq<char> {
        match self {
            SynacorErr::Halted => "The synacor halted."@,
            SynacorErr::BadRegister => "The synacor accessed a bad register."@,
            SynacorErr::StackUnderflow => "The synacor's stack underflowed."@,
            SynacorErr::BadOptcode => "The synacor's optcode is not implemented."@,
            SynacorErr::InputErr => "The synacor could not read its input."@,
            SynacorErr::DivideByZero => "The synacor divided by zero."@,
        }
    }
}

} // verus!
