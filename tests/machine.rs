use synacor::machine::{Action, Synacor, SynacorErr};

const R0: u16 = 32768;
const R1: u16 = 32769;
const R7: u16 = 32775;

fn image(words: &[u16]) -> Vec<u8> {
    let mut bytes = Vec::new();
    for w in words {
        bytes.push((*w & 0xFF) as u8);
        bytes.push((*w >> 8) as u8);
    }
    bytes
}

fn machine_with(words: &[u16]) -> Synacor {
    let mut m = Synacor::new();
    m.read_bytes_into_ram(&image(words));
    m
}

#[test]
fn halt_only_program_halts_without_io() {
    let mut m = machine_with(&[0, 0, 0]);
    let report = m.run_with_input(&[1, 2, 3], 100);
    assert_eq!(report.outcome, Some(SynacorErr::Halted));
    assert!(report.output.is_empty());
    assert_eq!(report.consumed, 0);
    assert_eq!(m.program_counter(), 1);
    assert_eq!(m.run_optcode(), Err(SynacorErr::Halted));
    assert_eq!(m.program_counter(), 2);
    for i in 0..8 {
        assert_eq!(m.register(i), 0);
    }
    assert!(m.stack().is_empty());
}

#[test]
fn set_register_then_read_back() {
    let mut m = machine_with(&[1, R0, 1234, 4, R1, R0, 1234, 0]);
    assert_eq!(m.run_optcode(), Ok(Action::Continue));
    assert_eq!(m.register(0), 1234);
    assert_eq!(m.program_counter(), 3);
    assert_eq!(m.run_optcode(), Ok(Action::Continue));
    assert_eq!(m.register(1), 1);
}

#[test]
fn set_copies_register_to_register() {
    let mut m = machine_with(&[1, R0, 77, 1, R7, R0, 0]);
    let report = m.run_with_input(&[], 10);
    assert_eq!(report.outcome, Some(SynacorErr::Halted));
    assert_eq!(m.register(7), 77);
}

#[test]
fn set_to_literal_destination_is_discarded() {
    let mut m = machine_with(&[1, 5, 99, 0]);
    assert_eq!(m.run_optcode(), Ok(Action::Continue));
    for i in 0..8 {
        assert_eq!(m.register(i), 0);
    }
    assert_eq!(m.memory_word(5), 0);
    assert_eq!(m.program_counter(), 3);
}

#[test]
fn add_and_mult_wrap_then_reduce() {
    let mut m = machine_with(&[9, R0, 32767, 32767, 10, R1, 32767, 32767, 0]);
    m.run_with_input(&[], 10);
    assert_eq!(m.register(0), 32766);
    assert_eq!(m.register(1), 1);
}

#[test]
fn add_and_mult_of_register_values_above_the_word_range() {
    // rmem loads 40000 from address 100 into r0 and r1.
    let mut words = vec![15, R0, 100, 15, R1, 100, 9, 32770, R0, R1, 10, 32771, R0, R1, 0];
    words.resize(100, 0);
    words.push(40000);
    let mut m = machine_with(&words);
    let report = m.run_with_input(&[], 10);
    assert_eq!(report.outcome, Some(SynacorErr::Halted));
    assert_eq!(m.register(0), 40000);
    assert_eq!(m.register(2), 14464);
    assert_eq!(m.register(3), ((40000u32 * 40000u32) % 65536 % 32768) as u16);
    assert!(m.register(2) < 32768 && m.register(3) < 32768);
}

#[test]
fn push_then_pop_returns_value() {
    let mut m = machine_with(&[1, R0, 4321, 2, R0, 3, R1, 0]);
    let report = m.run_with_input(&[], 10);
    assert_eq!(report.outcome, Some(SynacorErr::Halted));
    assert_eq!(m.register(1), 4321);
    assert!(m.stack().is_empty());
}

#[test]
fn pop_on_empty_stack_underflows() {
    let mut m = machine_with(&[3, R0]);
    assert_eq!(m.run_optcode(), Err(SynacorErr::StackUnderflow));
    assert_eq!(m.program_counter(), 0);
}

#[test]
fn ret_on_empty_stack_underflows() {
    let mut m = machine_with(&[18]);
    assert_eq!(m.run_optcode(), Err(SynacorErr::StackUnderflow));
}

#[test]
fn nested_calls_return_to_call_sites() {
    let mut words = vec![0u16; 40];
    words[0..3].copy_from_slice(&[17, 10, 0]);
    words[10..17].copy_from_slice(&[9, R0, R0, 1, 17, 20, 18]);
    words[20..27].copy_from_slice(&[9, R0, R0, 1, 17, 30, 18]);
    words[30..35].copy_from_slice(&[9, R0, R0, 1, 18]);
    let mut m = machine_with(&words);
    assert_eq!(m.run_optcode(), Ok(Action::Continue));
    assert_eq!(m.program_counter(), 10);
    assert_eq!(m.stack(), &[2u16][..]);
    let report = m.run_with_input(&[], 100);
    assert_eq!(report.outcome, Some(SynacorErr::Halted));
    assert_eq!(m.register(0), 3);
    assert_eq!(m.program_counter(), 3);
    assert!(m.stack().is_empty());
}

#[test]
fn jt_jumps_only_on_nonzero() {
    let mut m = machine_with(&[7, 1, 50]);
    m.run_optcode().unwrap();
    assert_eq!(m.program_counter(), 50);
    let mut m = machine_with(&[7, 0, 50]);
    m.run_optcode().unwrap();
    assert_eq!(m.program_counter(), 3);
}

#[test]
fn jf_jumps_only_on_zero() {
    let mut m = machine_with(&[8, 0, 50]);
    m.run_optcode().unwrap();
    assert_eq!(m.program_counter(), 50);
    let mut m = machine_with(&[8, R0, 50, 8, 9, 50]);
    m.run_optcode().unwrap();
    assert_eq!(m.program_counter(), 50);
    let mut m = machine_with(&[8, 9, 50]);
    m.run_optcode().unwrap();
    assert_eq!(m.program_counter(), 3);
}

#[test]
fn untaken_jump_ignores_invalid_target() {
    let mut m = machine_with(&[7, 0, 40000]);
    assert_eq!(m.run_optcode(), Ok(Action::Continue));
    assert_eq!(m.program_counter(), 3);
    let mut m = machine_with(&[7, 1, 40000]);
    assert_eq!(m.run_optcode(), Err(SynacorErr::BadRegister));
    assert_eq!(m.program_counter(), 0);
}

#[test]
fn invalid_operand_is_bad_register() {
    let mut m = machine_with(&[1, R0, 32776]);
    assert_eq!(m.run_optcode(), Err(SynacorErr::BadRegister));
    assert_eq!(m.register(0), 0);
    assert_eq!(m.program_counter(), 0);
    let mut m = machine_with(&[2, 65535]);
    assert_eq!(m.run_optcode(), Err(SynacorErr::BadRegister));
    assert!(m.stack().is_empty());
}

#[test]
fn invalid_write_target_is_bad_register() {
    let mut m = machine_with(&[2, 5, 3, 32776]);
    assert_eq!(m.run_optcode(), Ok(Action::Continue));
    assert_eq!(m.run_optcode(), Err(SynacorErr::BadRegister));
    assert_eq!(m.stack(), &[5u16][..]);
    assert_eq!(m.program_counter(), 2);
}

#[test]
fn operand_resolution_boundaries() {
    let mut m = machine_with(&[1, R7, 9]);
    m.run_optcode().unwrap();
    assert_eq!(m.read_word_data(32767), Ok(32767));
    assert_eq!(m.read_word_data(R7), Ok(9));
    assert_eq!(m.read_word_data(32776), Err(SynacorErr::BadRegister));
    assert_eq!(m.write_word_data(R1, 8), Ok(()));
    assert_eq!(m.register(1), 8);
    assert_eq!(m.write_word_data(100, 8), Ok(()));
    assert_eq!(m.write_word_data(32776, 8), Err(SynacorErr::BadRegister));
}

#[test]
fn odd_length_image_ignores_trailing_byte() {
    let mut m = Synacor::new();
    m.read_bytes_into_ram(&[0x34, 0x12, 0x78, 0x56, 0xAB]);
    assert_eq!(m.memory_word(0), 0x1234);
    assert_eq!(m.memory_word(1), 0x5678);
    assert_eq!(m.memory_word(2), 0);
}

#[test]
fn read_word_code_advances_counter() {
    let mut m = machine_with(&[21, 42]);
    assert_eq!(m.read_word_code(), 21);
    assert_eq!(m.read_word_code(), 42);
    assert_eq!(m.program_counter(), 2);
}

#[test]
fn set_add_out_then_eq_scenario() {
    let mut m = machine_with(&[1, R0, 5, 9, R0, R0, R0, 19, R0, 4, R1, R0, 10, 0]);
    let report = m.run_with_input(&[], 100);
    assert_eq!(report.outcome, Some(SynacorErr::Halted));
    assert_eq!(report.output, vec![10u8]);
    assert_eq!(m.register(0), 10);
    assert_eq!(m.register(1), 1);
    assert!(m.stack().is_empty());
    assert_eq!(m.program_counter(), 14);
}

#[test]
fn input_at_end_of_data_stops_run() {
    let mut m = machine_with(&[20, R0, 19, 65, 0]);
    let report = m.run_with_input(&[], 100);
    assert_eq!(report.outcome, Some(SynacorErr::InputErr));
    assert!(report.output.is_empty());
    assert_eq!(report.consumed, 0);
    assert_eq!(m.program_counter(), 2);
    assert_eq!(m.register(0), 0);
}

#[test]
fn input_byte_is_stored() {
    let mut m = machine_with(&[20, R0, 20, R1, 19, 65, 0]);
    let report = m.run_with_input(b"xyz", 100);
    assert_eq!(report.outcome, Some(SynacorErr::Halted));
    assert_eq!(report.consumed, 2);
    assert_eq!(report.output, vec![65u8]);
    assert_eq!(m.register(0), 120);
    assert_eq!(m.register(1), 121);
}

#[test]
fn in_reports_destination_and_receive_input_completes_it() {
    let mut m = machine_with(&[20, R1]);
    assert_eq!(m.run_optcode(), Ok(Action::Input(R1)));
    assert_eq!(m.program_counter(), 2);
    assert_eq!(m.receive_input(R1, None), Err(SynacorErr::InputErr));
    assert_eq!(m.receive_input(R1, Some(200)), Ok(()));
    assert_eq!(m.register(1), 200);
}

#[test]
fn in_with_bad_destination_reads_nothing() {
    let mut m = machine_with(&[20, 40000]);
    let report = m.run_with_input(b"a", 10);
    assert_eq!(report.outcome, Some(SynacorErr::BadRegister));
    assert_eq!(report.consumed, 0);
}

#[test]
fn out_emits_low_byte() {
    let mut m = machine_with(&[19, 0x141]);
    assert_eq!(m.run_optcode(), Ok(Action::Output(0x41)));
}

#[test]
fn comparison_and_bitwise_opcodes() {
    let mut m = machine_with(&[
        5, R0, 7, 3, 5, R1, 3, 7, 12, 32770, 0x0F0F, 0x00FF, 13, 32771, 0x0F00, 0x00F0, 14, 32772,
        0, 14, 32773, 0x7FFF, 0,
    ]);
    let report = m.run_with_input(&[], 100);
    assert_eq!(report.outcome, Some(SynacorErr::Halted));
    assert_eq!(m.register(0), 1);
    assert_eq!(m.register(1), 0);
    assert_eq!(m.register(2), 0x000F);
    assert_eq!(m.register(3), 0x0FF0);
    assert_eq!(m.register(4), 0x7FFF);
    assert_eq!(m.register(5), 0);
}

#[test]
fn mod_computes_remainder() {
    let mut m = machine_with(&[11, R0, 17, 5, 0]);
    m.run_optcode().unwrap();
    assert_eq!(m.register(0), 2);
}

#[test]
fn mod_by_zero_is_fatal() {
    let mut m = machine_with(&[11, R0, 17, 0]);
    assert_eq!(m.run_optcode(), Err(SynacorErr::DivideByZero));
    assert_eq!(m.program_counter(), 0);
}

#[test]
fn wmem_and_rmem_use_direct_addresses() {
    // r1 takes the address 40000 from memory word 100.
    let mut words = vec![15, R1, 100, 16, R1, 7, 15, R0, R1, 16, 3, 21, 0];
    words.resize(100, 0);
    words.push(40000);
    let mut m = machine_with(&words);
    let report = m.run_with_input(&[], 100);
    assert_eq!(report.outcome, Some(SynacorErr::Halted));
    assert_eq!(m.memory_word(40000), 7);
    assert_eq!(m.register(0), 7);
    assert_eq!(m.memory_word(3), 21);
}

#[test]
fn jmp_and_noop() {
    let mut m = machine_with(&[6, 3, 0, 21, 0]);
    let report = m.run_with_input(&[], 100);
    assert_eq!(report.outcome, Some(SynacorErr::Halted));
    assert_eq!(m.program_counter(), 5);
}

#[test]
fn unknown_opcode_is_bad_optcode() {
    let mut m = machine_with(&[22]);
    assert_eq!(m.run_optcode(), Err(SynacorErr::BadOptcode));
}

#[test]
fn step_budget_can_run_out() {
    let mut m = machine_with(&[6, 0]);
    let report = m.run_with_input(&[], 5);
    assert_eq!(report.outcome, None);
    assert_eq!(m.program_counter(), 0);
}

#[test]
fn error_messages() {
    assert_eq!(SynacorErr::Halted.message(), "The synacor halted.");
    assert_eq!(SynacorErr::BadRegister.message(), "The synacor accessed a bad register.");
    assert_eq!(SynacorErr::StackUnderflow.message(), "The synacor's stack underflowed.");
    assert_eq!(SynacorErr::BadOptcode.message(), "The synacor's optcode is not implemented.");
    assert_eq!(SynacorErr::InputErr.message(), "The synacor could not read its input.");
    assert_eq!(SynacorErr::DivideByZero.message(), "The synacor divided by zero.");
}
