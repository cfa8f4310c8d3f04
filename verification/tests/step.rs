use vm2_testkit::heap::HeapId;
use vm2_testkit::machine::{Settings, VirtualMachine};
use vm2_testkit::numeric::{H160, U256};
use vm2_testkit::opcode::{Condition, FarCallOpcode, UMAOpcode};
use vm2_testkit::step::{side_by_side, step_diff, Action, StepDiff};
use vm2_testkit::testkit::{
    encode_far_call, encode_uma, CallframeSetup, SingleInstructionTestSetup,
};

fn machine_at(raw_instruction: u64) -> VirtualMachine {
    let setup = SingleInstructionTestSetup {
        current_frame: CallframeSetup {
            address: H160 { bytes: [0x11; 20] },
            code_address: H160 { bytes: [0x11; 20] },
            caller: H160::zero(),
            gas: 1_000_000_000,
            exception_handler: 0,
            context_u128: 0,
            is_static: false,
            raw_instruction,
            heap_size: 0,
            aux_heap_size: 0,
            sp: 0,
            base_page: 8,
            calldata_heap: HeapId::from_u32_unchecked(7),
        },
        registers: [U256::zero(); 16],
        register_pointer_flags: 0,
        lt_of_flag: false,
        eq_flag: false,
        gt_flag: false,
        transaction_number: 0,
        context_u128: 0,
        next_base_page: 12,
    };
    let settings = Settings {
        default_aa_code_hash: [1; 32],
        evm_interpreter_code_hash: [1; 32],
        hook_address: 0,
    };
    VirtualMachine::for_test_single_instruction(setup, settings)
}

fn far_call() -> u64 {
    encode_far_call(FarCallOpcode::Normal, 1, 2, 0, false, false, Condition::Always)
}

fn heap_read() -> u64 {
    encode_uma(UMAOpcode::HeapRead, 1, 0, 3, 2, true, Condition::Always)
}

/// Runs a step to its end, answering with what the machines are supposed to say.
fn course(
    mut step: StepDiff,
    valid_before: bool,
    valid_after: bool,
    pending_exception: bool,
) -> Vec<Action> {
    let mut actions = vec![step.action];
    while !matches!(
        step.action,
        Action::ProjectStates | Action::FailBefore | Action::FailAfter
    ) {
        let answer = match step.action {
            Action::CheckValidBefore => valid_before,
            Action::CheckValidAfter => valid_after,
            Action::ReadPendingException => pending_exception,
            _ => false,
        };
        step.advance(answer);
        actions.push(step.action);
    }
    actions
}

#[test]
fn step_begins_with_the_validity_check() {
    let step = step_diff(&machine_at(far_call()));
    assert_eq!(step, StepDiff { is_far_call: true, action: Action::CheckValidBefore });
    let step = step_diff(&machine_at(heap_read()));
    assert_eq!(step, StepDiff { is_far_call: false, action: Action::CheckValidBefore });
    assert!(!step_diff(&machine_at(0)).is_far_call);
}

#[test]
fn ordinary_instruction_steps_each_machine_once() {
    let expected = vec![
        Action::CheckValidBefore,
        Action::BuildZkEvm,
        Action::RunInstruction,
        Action::CheckValidAfter,
        Action::AddHeapToZkEvm,
        Action::CycleZkEvm,
        Action::ProjectStates,
    ];
    let step = step_diff(&machine_at(heap_read()));
    assert_eq!(course(step, true, true, false), expected);
    assert_eq!(course(step, true, true, true), expected);
}

#[test]
fn successful_far_call_steps_each_machine_once() {
    assert_eq!(
        course(step_diff(&machine_at(far_call())), true, true, false),
        vec![
            Action::CheckValidBefore,
            Action::BuildZkEvm,
            Action::RunInstruction,
            Action::CheckValidAfter,
            Action::AddHeapToZkEvm,
            Action::CycleZkEvm,
            Action::ReadPendingException,
            Action::ProjectStates,
        ]
    );
}

#[test]
fn failed_far_call_steps_each_machine_twice() {
    let actions = course(step_diff(&machine_at(far_call())), true, true, true);
    assert_eq!(
        actions,
        vec![
            Action::CheckValidBefore,
            Action::BuildZkEvm,
            Action::RunInstruction,
            Action::CheckValidAfter,
            Action::AddHeapToZkEvm,
            Action::CycleZkEvm,
            Action::ReadPendingException,
            Action::RunPanic,
            Action::CyclePanic,
            Action::ProjectStates,
        ]
    );
    let runs = actions
        .iter()
        .filter(|action| matches!(action, Action::RunInstruction | Action::RunPanic))
        .count();
    let cycles = actions
        .iter()
        .filter(|action| matches!(action, Action::CycleZkEvm | Action::CyclePanic))
        .count();
    assert_eq!((runs, cycles), (2, 2));
}

#[test]
fn invalid_machine_ends_the_step() {
    for word in [far_call(), heap_read()] {
        let step = step_diff(&machine_at(word));
        assert_eq!(
            course(step, false, true, true),
            vec![Action::CheckValidBefore, Action::FailBefore]
        );
        assert_eq!(
            course(step, true, false, true),
            vec![
                Action::CheckValidBefore,
                Action::BuildZkEvm,
                Action::RunInstruction,
                Action::CheckValidAfter,
                Action::FailAfter,
            ]
        );
    }
}

#[test]
fn ended_step_stays_ended() {
    for action in [Action::ProjectStates, Action::FailBefore, Action::FailAfter] {
        for answer in [false, true] {
            let mut step = StepDiff { is_far_call: true, action };
            step.advance(answer);
            assert_eq!(step, StepDiff { is_far_call: true, action });
        }
    }
}

#[test]
fn zk_evm_state_comes_first() {
    assert_eq!(side_by_side("zk_evm", "vm2"), ("zk_evm", "vm2"));
}
