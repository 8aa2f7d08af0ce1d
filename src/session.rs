//! Running a machine against a scripted input source, collecting its output.

use vstd::prelude::*;
use crate::machine::{Action, MachineState, Synacor, SynacorErr, receive, step};

verus! {

/// How a bounded run ended: the terminal condition (or `None` where the step
/// budget ran out first), every byte emitted, and how many input bytes
/// were consumed.
pub struct RunReport {
    pub outcome: Option<SynacorErr>,
    pub output: Vec<u8>,
    pub consumed: usize,
}

/// At most `fuel` instructions from `s`, each `in` taking the next byte of
/// `input`: the terminal condition, the state left, the bytes emitted and the
/// number of input bytes consumed. An `in` with no byte left ends the run
/// with `InputErr` right after that instruction.
pub open spec fn run(s: MachineState, input: Seq<u8>, fuel: nat) -> (Option<SynacorErr>, MachineState, Seq<u8>, nat)
    decreases fuel,
{
    if fuel == 0 {
        (None, s, Seq::empty(), 0)
    } else {
        let (r, t) = step(s);
        match r {
            Err(e) => (Some(e), t, Seq::empty(), 0),
            Ok(Action::Continue) => run(t, input, (fuel - 1) as nat),
            Ok(Action::Output(byte)) => {
                let (e, f, out, n) = run(t, input, (fuel - 1) as nat);
                (e, f, seq![byte] + out, n)
            },
            Ok(Action::Input(dest)) => if input.len() == 0 {
                (Some(SynacorErr::InputErr), t, Seq::empty(), 0)
            } else {
                let (r2, u) = receive(t, dest, Some(input[0]));
                if r2 is Err {
                    (Some(r2->Err_0), u, Seq::empty(), 1)
                } else {
                    let (e, f, out, n) = run(u, input.drop_first(), (fuel - 1) as nat);
                    (e, f, out, n + 1)
                }
            },
        }
    }
}

impl Synacor {
    /// Runs at most `max_steps` instructions, feeding `in` from `input` and
    /// collecting what `out` emits.
    #[verifier::rlimit(50)]
    pub fn run_with_input(&mut self, input: &[u8], max_steps: usize) -> (r: RunReport)
        requires
            old(self).wf(),
        ensures
            final(self).wf(),
            (r.outcome, final(self)@, r.output@, r.consumed as nat) == run(old(self)@, input@, max_steps as nat),
    {
        let ghost whole = run(self@, input@, max_steps as nat);
        let mut output: Vec<u8> = Vec::new();
        let mut consumed: usize = 0;
        let mut left: usize = max_steps;
        assert(input@.skip(0) =~= input@);
        assert(output@ + whole.2 =~= whole.2);
        while left > 0
            invariant
                self.wf(),
                whole == run(old(self)@, input@, max_steps as nat),
                consumed <= input@.len(),
                ({
                    let (e, f, out, n) = run(self@, input@.skip(consumed as int), left as nat);
                    &&& whole.0 == e
                    &&& whole.1 == f
                    &&& whole.2 == output@ + out
                    &&& whole.3 == consumed + n
                }),
            decreases left,
        {
            let ghost here = self@;
            let ghost rest = input@.skip(consumed as int);
            let ghost fuel = left as nat;
            let r = self.run_optcode();
            left -= 1;
            match r {
                Err(e) => {
                    assert(run(here, rest, fuel) == (Some(e), self@, Seq::<u8>::empty(), 0nat));
                    assert(output@ + Seq::<u8>::empty() =~= output@);
                    return RunReport { outcome: Some(e), output, consumed };
                },
                Ok(Action::Continue) => {},
                Ok(Action::Output(byte)) => {
                    let ghost before = output@;
                    output.push(byte);
                    assert(before + (seq![byte] + run(self@, rest, left as nat).2) =~= output@ + run(self@, rest, left as nat).2);
                },
                Ok(Action::Input(dest)) => {
                    if consumed == input.len() {
                        assert(rest.len() == 0);
                        assert(run(here, rest, fuel) == (Some(SynacorErr::InputErr), self@, Seq::<u8>::empty(), 0nat));
                        assert(output@ + Seq::<u8>::empty() =~= output@);
                        return RunReport { outcome: Some(SynacorErr::InputErr), output, consumed };
                    }
                    let byte = input[consumed];
                    let received = self.receive_input(dest, Some(byte));
                    consumed += 1;
                    assert(rest.drop_first() =~= input@.skip(consumed as int));
                    if let Err(e) = received {
                        assert(output@ + Seq::<u8>::empty() =~= output@);
                        return RunReport { outcome: Some(e), output, consumed };
                    }
                },
            }
        }
        assert(output@ + Seq::<u8>::empty() =~= output@);
        RunReport { outcome: None, output, consumed }
    }
}

} // verus!
