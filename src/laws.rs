//! Properties of the instruction set that hold of every machine state.

use vstd::prelude::*;
use crate::word::{is_literal, is_register, is_valid_operand, REGISTER_END};
use crate::machine::{Action, MachineState, SynacorErr, le_word, loaded_memory, step};
use crate::session::run;

verus! {

/// A `halt` at the program counter ends the run with `Halted`: only the
/// counter moves, past the `halt`; nothing is emitted and no input is consumed, whatever the
/// input and step budget.
pub proof fn lemma_halt_ends_run(s: MachineState, input: Seq<u8>, fuel: nat)
    requires
        s.wf(),
        s.fetch(0) == 0,
        fuel >= 1,
    ensures
        step(s) == (Err::<Action, SynacorErr>(SynacorErr::Halted), s.moved(1)),
        run(s, input, fuel) == (Some(SynacorErr::Halted), s.moved(1), Seq::<u8>::empty(), 0nat),
{
}

/// After `set a b`, reading `a` as a data operand yields the value `b` had:
/// a register destination now holds it, and a literal destination discards
/// the write, leaving every register as it was.
pub proof fn lemma_set_then_read(s: MachineState)
    requires
        s.wf(),
        s.fetch(0) == 1,
        is_valid_operand(s.fetch(1)),
        is_valid_operand(s.fetch(2)),
    ensures
        step(s).0 == Ok::<Action, SynacorErr>(Action::Continue),
        is_register(s.fetch(1)) ==> step(s).1.value(s.fetch(1)) == s.value(s.fetch(2)),
        is_literal(s.fetch(1)) ==> step(s).1.registers == s.registers,
        step(s).1.pc == s.pc_after(3),
{
}

/// `push x` followed by `pop d` leaves the stack as it was and, where `d`
/// is a register, puts the value of `x` there.
pub proof fn lemma_push_then_pop(s: MachineState)
    requires
        s.wf(),
        s.fetch(0) == 2,
        is_valid_operand(s.fetch(1)),
        s.fetch(2) == 3,
        is_valid_operand(s.fetch(3)),
    ensures
        step(s).0 == Ok::<Action, SynacorErr>(Action::Continue),
        step(step(s).1).0 == Ok::<Action, SynacorErr>(Action::Continue),
        step(step(s).1).1.stack == s.stack,
        is_register(s.fetch(3)) ==> step(step(s).1).1.value(s.fetch(3)) == s.value(s.fetch(1)),
        step(step(s).1).1.pc == s.pc_after(4),
{
    let t = step(s).1;
    assert(t.stack.drop_last() =~= s.stack);
    assert(t.fetch(0) == s.fetch(2) && t.fetch(1) == s.fetch(3));
}

/// `pop` and `ret` on an empty stack fail with `StackUnderflow` and change
/// nothing.
pub proof fn lemma_empty_stack_underflows(s: MachineState)
    requires
        s.wf(),
        s.fetch(0) == 3 || s.fetch(0) == 18,
        s.stack.len() == 0,
    ensures
        step(s) == (Err::<Action, SynacorErr>(SynacorErr::StackUnderflow), s),
{
}

/// `call` then `ret`: once the callee has left the stack as the call made
/// it (however deeply it nested calls of its own), `ret` resumes at the
/// word after the `call` with the caller's stack.
pub proof fn lemma_call_then_ret(s: MachineState, callee: MachineState)
    requires
        s.wf(),
        s.fetch(0) == 17,
        is_valid_operand(s.fetch(1)),
        callee.stack == step(s).1.stack,
        callee.fetch(0) == 18,
    ensures
        step(s).0 == Ok::<Action, SynacorErr>(Action::Continue),
        step(s).1.pc == s.value(s.fetch(1)),
        step(callee).0 == Ok::<Action, SynacorErr>(Action::Continue),
        step(callee).1.pc == s.pc_after(2),
        step(callee).1.stack == s.stack,
        step(callee).1.registers == callee.registers,
        step(callee).1.memory == callee.memory,
{
    assert(callee.stack.drop_last() =~= s.stack);
}

/// `jt` jumps exactly when its test value is nonzero and `jf` exactly when
/// it is zero; otherwise the program counter moves past the instruction.
/// Neither changes registers, memory or stack.
pub proof fn lemma_conditional_jumps(s: MachineState)
    requires
        s.wf(),
        s.fetch(0) == 7 || s.fetch(0) == 8,
        is_valid_operand(s.fetch(1)),
        is_valid_operand(s.fetch(2)),
    ensures
        step(s).0 == Ok::<Action, SynacorErr>(Action::Continue),
        step(s).1 == (MachineState { pc: step(s).1.pc, ..s }),
        s.fetch(0) == 7 && s.value(s.fetch(1)) != 0 ==> step(s).1.pc == s.value(s.fetch(2)),
        s.fetch(0) == 7 && s.value(s.fetch(1)) == 0 ==> step(s).1.pc == s.pc_after(3),
        s.fetch(0) == 8 && s.value(s.fetch(1)) == 0 ==> step(s).1.pc == s.value(s.fetch(2)),
        s.fetch(0) == 8 && s.value(s.fetch(1)) != 0 ==> step(s).1.pc == s.pc_after(3),
{
}

/// A data operand above the register range is never wrapped onto a
/// register: the instruction fails with `BadRegister` and changes nothing.
pub proof fn lemma_invalid_operand_fails(s: MachineState)
    requires
        s.wf(),
        ({
            let op = s.fetch(0);
            ||| (op == 2 || op == 6 || op == 17 || op == 19) && s.fetch(1) >= REGISTER_END
            ||| (op == 1 || op == 14 || op == 15) && s.fetch(2) >= REGISTER_END
        }),
    ensures
        step(s) == (Err::<Action, SynacorErr>(SynacorErr::BadRegister), s),
{
}

/// An image of odd length loads exactly `len / 2` words and ignores its
/// trailing byte: loading it is loading the image without that byte, and the
/// word after the loaded ones (where memory has one) keeps its content.
pub proof fn lemma_odd_image_ignores_last_byte(memory: Seq<u16>, bytes: Seq<u8>)
    requires
        bytes.len() % 2 == 1,
    ensures
        loaded_memory(memory, bytes) == loaded_memory(memory, bytes.drop_last()),
        loaded_memory(memory, bytes).len() == memory.len(),
        forall|i: int|
            0 <= i < bytes.len() / 2 && i < memory.len() ==> #[trigger] loaded_memory(memory, bytes)[i]
                == le_word(bytes[2 * i], bytes[2 * i + 1]),
        bytes.len() / 2 < memory.len() ==> loaded_memory(memory, bytes)[(bytes.len() / 2) as int] == memory[(bytes.len() / 2) as int],
{
    assert(loaded_memory(memory, bytes) =~= loaded_memory(memory, bytes.drop_last()));
}

} // verus!
