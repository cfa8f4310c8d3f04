//! The schedule of a differential step: one instruction in this machine, one cycle in
//! `zk_evm`, from the same state, and then the two states side by side.
//!
//! Running the machines is up to the caller. The schedule says what to do next and is
//! told what was found.
use vstd::prelude::*;

use crate::machine::{lemma_says_far_call, says_far_call, VirtualMachine};
use crate::opcode::{decode, Instruction};

verus! {

/// What to do next.
#[derive(Clone, Copy, Debug, PartialEq, Eq, Structural)]
pub enum Action {
    /// Answer whether the machine is in a valid state.
    CheckValidBefore,
    /// Build a `zk_evm` in the machine's state, over a copy of the world.
    BuildZkEvm,
    /// Run one instruction in the machine.
    RunInstruction,
    /// Answer whether the machine is in a valid state.
    CheckValidAfter,
    /// Hand the machine's heap access to `zk_evm`.
    AddHeapToZkEvm,
    /// Run one cycle in `zk_evm`.
    CycleZkEvm,
    /// Answer whether `zk_evm` has an exception pending.
    ReadPendingException,
    /// Run one more instruction in the machine: the panic of a failed far call.
    RunPanic,
    /// Run one more cycle in `zk_evm`: the pending exception.
    CyclePanic,
    /// Project both machines to comparable states and put them [`side_by_side`]. This
    /// ends the step.
    ProjectStates,
    /// Panic: the machine was invalid before stepping. This ends the step.
    FailBefore,
    /// Panic: the machine is invalid after stepping. This ends the step.
    FailAfter,
}

/// A differential step under way.
#[derive(Clone, Copy, Debug, PartialEq, Eq, Structural)]
pub struct StepDiff {
    pub is_far_call: bool,
    pub action: Action,
}

impl Action {
    /// Whether nothing comes after the action.
    pub open spec fn ends_step(self) -> bool {
        self is ProjectStates || self is FailBefore || self is FailAfter
    }

    /// The action after this one in a step whose instruction is a far call or not,
    /// given the answer, if the action asks for one.
    pub open spec fn next(self, is_far_call: bool, answer: bool) -> Action {
        match self {
            Action::CheckValidBefore => if answer {
                Action::BuildZkEvm
            } else {
                Action::FailBefore
            },
            Action::BuildZkEvm => Action::RunInstruction,
            Action::RunInstruction => Action::CheckValidAfter,
            Action::CheckValidAfter => if answer {
                Action::AddHeapToZkEvm
            } else {
                Action::FailAfter
            },
            Action::AddHeapToZkEvm => Action::CycleZkEvm,
            Action::CycleZkEvm => if is_far_call {
                Action::ReadPendingException
            } else {
                Action::ProjectStates
            },
            Action::ReadPendingException => if answer {
                Action::RunPanic
            } else {
                Action::ProjectStates
            },
            Action::RunPanic => Action::CyclePanic,
            Action::CyclePanic => Action::ProjectStates,
            Action::ProjectStates => Action::ProjectStates,
            Action::FailBefore => Action::FailBefore,
            Action::FailAfter => Action::FailAfter,
        }
    }

    /// How many actions may still come after this one.
    pub open spec fn rank(self) -> nat {
        match self {
            Action::CheckValidBefore => 9,
            Action::BuildZkEvm => 8,
            Action::RunInstruction => 7,
            Action::CheckValidAfter => 6,
            Action::AddHeapToZkEvm => 5,
            Action::CycleZkEvm => 4,
            Action::ReadPendingException => 3,
            Action::RunPanic => 2,
            Action::CyclePanic => 1,
            Action::ProjectStates => 0,
            Action::FailBefore => 0,
            Action::FailAfter => 0,
        }
    }
}

/// Begins a differential step of `vm`.
pub fn step_diff(vm: &VirtualMachine) -> (step: StepDiff)
    ensures
        step == (StepDiff {
            is_far_call: says_far_call(vm@.state.current_frame.program.raw_first_instruction),
            action: Action::CheckValidBefore,
        }),
{
    StepDiff::new(vm.instruction_is_far_call())
}

impl StepDiff {
    /// Begins a step of an instruction that is a far call or not.
    pub fn new(is_far_call: bool) -> (step: StepDiff)
        ensures
            step == (StepDiff { is_far_call, action: Action::CheckValidBefore }),
    {
        StepDiff { is_far_call, action: Action::CheckValidBefore }
    }

    /// Goes on to the next action. `answer` is what was found, where the current action
    /// asks for an answer, and is not looked at elsewhere.
    pub fn advance(&mut self, answer: bool)
        ensures
            final(self).is_far_call == old(self).is_far_call,
            final(self).action == old(self).action.next(old(self).is_far_call, answer),
    {
        self.action = match self.action {
            Action::CheckValidBefore => if answer {
                Action::BuildZkEvm
            } else {
                Action::FailBefore
            },
            Action::BuildZkEvm => Action::RunInstruction,
            Action::RunInstruction => Action::CheckValidAfter,
            Action::CheckValidAfter => if answer {
                Action::AddHeapToZkEvm
            } else {
                Action::FailAfter
            },
            Action::AddHeapToZkEvm => Action::CycleZkEvm,
            Action::CycleZkEvm => if self.is_far_call {
                Action::ReadPendingException
            } else {
                Action::ProjectStates
            },
            Action::ReadPendingException => if answer {
                Action::RunPanic
            } else {
                Action::ProjectStates
            },
            Action::RunPanic => Action::CyclePanic,
            Action::CyclePanic => Action::ProjectStates,
            Action::ProjectStates => Action::ProjectStates,
            Action::FailBefore => Action::FailBefore,
            Action::FailAfter => Action::FailAfter,
        };
    }
}

/// The result of a step: the state that `zk_evm` came to, then the machine's own.
pub fn side_by_side<S>(zk_evm: S, vm2: S) -> (states: (S, S))
    ensures
        states == (zk_evm, vm2),
{
    (zk_evm, vm2)
}

/// What the machines answer during a step.
pub struct Findings {
    pub valid_before: bool,
    pub valid_after: bool,
    pub pending_exception: bool,
}

impl Findings {
    /// The answer to `action`.
    pub open spec fn answer(self, action: Action) -> bool {
        match action {
            Action::CheckValidBefore => self.valid_before,
            Action::CheckValidAfter => self.valid_after,
            Action::ReadPendingException => self.pending_exception,
            _ => true,
        }
    }
}

/// The actions of a step from `action` to its end.
pub open spec fn actions_from(action: Action, is_far_call: bool, findings: Findings) -> Seq<Action>
    decreases action.rank(),
{
    if action.ends_step() {
        seq![action]
    } else {
        seq![action] + actions_from(
            action.next(is_far_call, findings.answer(action)),
            is_far_call,
            findings,
        )
    }
}

/// The actions of a whole step.
pub open spec fn step_actions(is_far_call: bool, findings: Findings) -> Seq<Action> {
    actions_from(Action::CheckValidBefore, is_far_call, findings)
}

/// How many instructions `actions` run in the machine.
pub open spec fn instructions_run(actions: Seq<Action>) -> nat {
    actions.filter(|action: Action| action is RunInstruction || action is RunPanic).len()
}

/// How many cycles `actions` run in `zk_evm`.
pub open spec fn cycles_run(actions: Seq<Action>) -> nat {
    actions.filter(|action: Action| action is CycleZkEvm || action is CyclePanic).len()
}

/// The course of a step: a machine that is invalid before or after its instruction
/// ends it; otherwise each machine goes on by one instruction, and by a second one if
/// the first was a far call that left an exception pending.
pub proof fn lemma_step_actions(is_far_call: bool, findings: Findings)
    ensures
        step_actions(is_far_call, findings) == if !findings.valid_before {
            seq![Action::CheckValidBefore, Action::FailBefore]
        } else if !findings.valid_after {
            seq![
                Action::CheckValidBefore,
                Action::BuildZkEvm,
                Action::RunInstruction,
                Action::CheckValidAfter,
                Action::FailAfter,
            ]
        } else if !is_far_call {
            seq![
                Action::CheckValidBefore,
                Action::BuildZkEvm,
                Action::RunInstruction,
                Action::CheckValidAfter,
                Action::AddHeapToZkEvm,
                Action::CycleZkEvm,
                Action::ProjectStates,
            ]
        } else if !findings.pending_exception {
            seq![
                Action::CheckValidBefore,
                Action::BuildZkEvm,
                Action::RunInstruction,
                Action::CheckValidAfter,
                Action::AddHeapToZkEvm,
                Action::CycleZkEvm,
                Action::ReadPendingException,
                Action::ProjectStates,
            ]
        } else {
            seq![
                Action::CheckValidBefore,
                Action::BuildZkEvm,
                Action::RunInstruction,
                Action::CheckValidAfter,
                Action::AddHeapToZkEvm,
                Action::CycleZkEvm,
                Action::ReadPendingException,
                Action::RunPanic,
                Action::CyclePanic,
                Action::ProjectStates,
            ]
        },
{
    reveal_with_fuel(actions_from, 11);
}

/// A step that gets to compare states has run equally many instructions in both
/// machines: two if a far call left an exception pending, one otherwise.
pub proof fn lemma_machines_stay_in_step(is_far_call: bool, findings: Findings)
    requires
        findings.valid_before,
        findings.valid_after,
    ensures
        step_actions(is_far_call, findings).last() is ProjectStates,
        instructions_run(step_actions(is_far_call, findings)) == if is_far_call
            && findings.pending_exception {
            2nat
        } else {
            1nat
        },
        cycles_run(step_actions(is_far_call, findings)) == instructions_run(
            step_actions(is_far_call, findings),
        ),
{
    lemma_step_actions(is_far_call, findings);
    let actions = step_actions(is_far_call, findings);
    reveal_with_fuel(Seq::filter, 11);
    assert(actions.drop_last().len() == actions.len() - 1);
}

/// A step counts as a far call exactly if decoding the machine's instruction yields
/// one, and begins with the first validity check.
pub proof fn lemma_step_knows_far_calls(vm: VirtualMachine, step: StepDiff, decoded: Instruction)
    requires
        call_ensures(step_diff, (&vm,), step),
        call_ensures(
            decode,
            (vm.state.current_frame.program.raw_first_instruction,),
            decoded,
        ),
    ensures
        step.is_far_call <==> decoded.opcode is FarCall,
        step.action is CheckValidBefore,
{
    lemma_says_far_call(vm.state.current_frame.program.raw_first_instruction, decoded@);
}

/// A step of anything but a far call never asks for exceptions and runs one
/// instruction in each machine, whatever `zk_evm` has pending.
pub proof fn lemma_second_instruction_only_after_far_call(
    vm: VirtualMachine,
    step: StepDiff,
    decoded: Instruction,
    findings: Findings,
)
    requires
        call_ensures(step_diff, (&vm,), step),
        call_ensures(
            decode,
            (vm.state.current_frame.program.raw_first_instruction,),
            decoded,
        ),
        findings.valid_before,
        findings.valid_after,
    ensures
        instructions_run(actions_from(step.action, step.is_far_call, findings)) == if decoded.opcode is FarCall
            && findings.pending_exception {
            2nat
        } else {
            1nat
        },
        cycles_run(actions_from(step.action, step.is_far_call, findings)) == instructions_run(
            actions_from(step.action, step.is_far_call, findings),
        ),
        actions_from(step.action, step.is_far_call, findings).contains(
            Action::ReadPendingException,
        ) <==> decoded.opcode is FarCall,
{
    lemma_step_knows_far_calls(vm, step, decoded);
    lemma_machines_stay_in_step(step.is_far_call, findings);
    lemma_step_actions(step.is_far_call, findings);
    let actions = step_actions(step.is_far_call, findings);
    if step.is_far_call {
        assert(actions[6] is ReadPendingException);
    }
}

/// Answers matter only where the machines are asked: at the two validity checks and
/// where the pending exception is read. Whether the instruction is a far call matters
/// only after the first cycle. A step that has ended stays where it is.
pub proof fn lemma_what_the_next_action_depends_on(
    action: Action,
    a_far_call: bool,
    b_far_call: bool,
    a: bool,
    b: bool,
)
    ensures
        !(action is CheckValidBefore) && !(action is CheckValidAfter) && !(
        action is ReadPendingException) ==> action.next(a_far_call, a) == action.next(
            a_far_call,
            b,
        ),
        !(action is CycleZkEvm) ==> action.next(a_far_call, a) == action.next(b_far_call, a),
        action is ProjectStates || action is FailBefore || action is FailAfter ==> action.next(
            a_far_call,
            a,
        ) == action,
{
}

/// A step's result has the state of `zk_evm` first and the machine's second.
pub proof fn lemma_states_side_by_side<S>(zk_evm: S, vm2: S, states: (S, S))
    requires
        call_ensures(side_by_side::<S>, (zk_evm, vm2), states),
    ensures
        states.0 == zk_evm,
        states.1 == vm2,
{
}

} // verus!
