use vm::{ErrorKind, Event, Fault, Operand, Operation, Status, VM};

fn bytes_of(words: &[u16]) -> Vec<u8> {
    let mut out = Vec::new();
    for w in words {
        out.push((w & 0xff) as u8);
        out.push((w >> 8) as u8);
    }
    out
}

fn loaded(words: &[u16]) -> VM {
    let mut vm = VM::new();
    assert_eq!(vm.load_memory(bytes_of(words)), Ok(()));
    vm
}

fn text(chars: &[char]) -> String {
    chars.iter().collect()
}

const R0: u16 = 32768;

#[test]
fn out_then_halt_prints_a() {
    let mut vm = loaded(&[19, 65, 0]);
    let run = vm.execute(100);
    assert_eq!(text(&run.output), "A");
    assert_eq!(run.status, Status::Halted);
}

#[test]
fn add_then_out_prints_code_ten() {
    let mut vm = loaded(&[9, R0, 4, 6, 19, R0, 0]);
    let run = vm.execute(100);
    assert_eq!(run.output, vec!['\n']);
    assert_eq!(run.output[0] as u32, 10);
    assert_eq!(run.status, Status::Halted);
}

#[test]
fn pop_on_empty_stack_underflows() {
    let mut vm = loaded(&[19, 66, 3, R0]);
    let run = vm.execute(100);
    assert_eq!(text(&run.output), "B");
    assert_eq!(run.status, Status::Faulted(Fault { kind: ErrorKind::StackUnderflow, pc: 2 }));
    assert_eq!(vm.pc(), 2);
}

#[test]
fn opcode_255_is_invalid() {
    let mut vm = loaded(&[19, 67, 255, 19, 68, 0]);
    let run = vm.execute(100);
    assert_eq!(text(&run.output), "C");
    assert_eq!(run.status, Status::Faulted(Fault { kind: ErrorKind::InvalidOpcode, pc: 2 }));
    assert_eq!(vm.pc(), 2);
}

#[test]
fn set_then_read_register() {
    let mut vm = loaded(&[1, R0 + 3, 1234, 0]);
    assert_eq!(vm.step(), Ok(Event::Continue));
    assert_eq!(vm.read(Operand::Register(3)), 1234);
    assert_eq!(vm.register(3), 1234);
    assert_eq!(vm.pc(), 3);
}

#[test]
fn set_with_literal_target_writes_memory() {
    let mut vm = loaded(&[1, 100, 77, 0]);
    assert_eq!(vm.step(), Ok(Event::Continue));
    assert_eq!(vm.word(100), 77);
}

#[test]
fn add_wraps_modulo_32768() {
    let mut vm = loaded(&[9, R0, 32767, 2, 9, R0 + 1, 32767, 32767, 0]);
    vm.step().unwrap();
    assert_eq!(vm.register(0), 1);
    vm.step().unwrap();
    assert_eq!(vm.register(1), 32766);
}

#[test]
fn mult_reduces_full_product() {
    let mut vm = loaded(&[10, R0, 300, 300, 10, R0 + 1, 32767, 32767, 0]);
    vm.step().unwrap();
    assert_eq!(vm.register(0), (90000 % 32768) as u16);
    vm.step().unwrap();
    assert_eq!(vm.register(1), ((32767u64 * 32767) % 32768) as u16);
}

#[test]
fn mod_of_values() {
    let mut vm = loaded(&[11, R0, 10, 3, 0]);
    vm.step().unwrap();
    assert_eq!(vm.register(0), 1);
}

#[test]
fn mod_by_zero_faults_and_leaves_state() {
    let mut vm = loaded(&[1, R0, 5, 11, R0 + 1, 10, 0, 0]);
    vm.step().unwrap();
    assert_eq!(
        vm.step(),
        Err(Fault { kind: ErrorKind::DivisionByZero, pc: 3 })
    );
    assert_eq!(vm.pc(), 3);
    assert_eq!(vm.register(1), 0);
}

#[test]
fn and_or_not_values() {
    let mut vm = loaded(&[12, R0, 0b1100, 0b1010, 13, R0 + 1, 0b1100, 0b1010, 14, R0 + 2, 0, 0]);
    vm.step().unwrap();
    vm.step().unwrap();
    vm.step().unwrap();
    assert_eq!(vm.register(0), 0b1000);
    assert_eq!(vm.register(1), 0b1110);
    assert_eq!(vm.register(2), 32767);
}

#[test]
fn not_twice_gives_back_the_value() {
    let mut vm = loaded(&[14, R0, 12345, 14, R0 + 1, R0, 0]);
    vm.step().unwrap();
    assert_eq!(vm.register(0), 32767 - 12345);
    vm.step().unwrap();
    assert_eq!(vm.register(1), 12345);
}

#[test]
fn eq_and_gt_store_flags() {
    let mut vm = loaded(&[4, R0, 7, 7, 4, R0 + 1, 7, 8, 5, R0 + 2, 8, 7, 5, R0 + 3, 7, 8, 0]);
    for _ in 0..4 {
        vm.step().unwrap();
    }
    assert_eq!(vm.register(0), 1);
    assert_eq!(vm.register(1), 0);
    assert_eq!(vm.register(2), 1);
    assert_eq!(vm.register(3), 0);
}

#[test]
fn push_then_pop_round_trip() {
    let mut vm = loaded(&[2, 4321, 3, R0 + 5, 0]);
    assert_eq!(vm.stack_depth(), 0);
    vm.step().unwrap();
    assert_eq!(vm.stack_depth(), 1);
    vm.step().unwrap();
    assert_eq!(vm.register(5), 4321);
    assert_eq!(vm.stack_depth(), 0);
    assert_eq!(vm.pc(), 4);
}

#[test]
fn call_then_ret_resumes_after_call() {
    let mut vm = loaded(&[17, 10, 0, 0, 0, 0, 0, 0, 0, 0, 18]);
    vm.step().unwrap();
    assert_eq!(vm.pc(), 10);
    assert_eq!(vm.stack_depth(), 1);
    vm.step().unwrap();
    assert_eq!(vm.pc(), 2);
    assert_eq!(vm.stack_depth(), 0);
}

#[test]
fn ret_on_empty_stack_underflows() {
    let mut vm = loaded(&[18]);
    assert_eq!(vm.step(), Err(Fault { kind: ErrorKind::StackUnderflow, pc: 0 }));
}

#[test]
fn jt_and_jf_are_complements() {
    // condition non-zero: Jt jumps, Jf falls through
    let mut vm = loaded(&[7, 1, 20]);
    vm.step().unwrap();
    assert_eq!(vm.pc(), 20);
    let mut vm = loaded(&[8, 1, 20]);
    vm.step().unwrap();
    assert_eq!(vm.pc(), 3);
    // condition zero: Jf jumps, Jt falls through
    let mut vm = loaded(&[7, 0, 20]);
    vm.step().unwrap();
    assert_eq!(vm.pc(), 3);
    let mut vm = loaded(&[8, 0, 20]);
    vm.step().unwrap();
    assert_eq!(vm.pc(), 20);
}

#[test]
fn jump_sets_pc() {
    let mut vm = loaded(&[6, 300]);
    vm.step().unwrap();
    assert_eq!(vm.pc(), 300);
}

#[test]
fn rmem_and_wmem_move_words() {
    // WMem 50, 99; RMem r0, 50; WMem r0 (= 99 as address), 7
    let mut vm = loaded(&[16, 50, 99, 15, R0, 50, 16, R0, 7, 0]);
    vm.step().unwrap();
    assert_eq!(vm.word(50), 99);
    vm.step().unwrap();
    assert_eq!(vm.register(0), 99);
    vm.step().unwrap();
    assert_eq!(vm.word(99), 7);
}

#[test]
fn noop_and_halt_events() {
    let mut vm = loaded(&[21, 0]);
    assert_eq!(vm.step(), Ok(Event::Continue));
    assert_eq!(vm.pc(), 1);
    assert_eq!(vm.step(), Ok(Event::Halted));
}

#[test]
fn out_event_carries_character() {
    let mut vm = loaded(&[19, 0x263A]);
    assert_eq!(vm.step(), Ok(Event::Output('\u{263A}')));
}

#[test]
fn invalid_operand_code() {
    let mut vm = loaded(&[1, 40000, 0]);
    assert_eq!(vm.step(), Err(Fault { kind: ErrorKind::InvalidOperand, pc: 0 }));
    assert_eq!(vm.pc(), 0);
}

#[test]
fn surrogate_value_is_invalid_codepoint() {
    // memory[10] holds 0xD800; RMem r0, 10; Out r0
    let mut vm = loaded(&[15, R0, 10, 19, R0, 0, 0, 0, 0, 0, 0xD800]);
    vm.step().unwrap();
    assert_eq!(vm.step(), Err(Fault { kind: ErrorKind::InvalidCodepoint, pc: 3 }));
}

#[test]
fn fetch_past_memory_end_is_out_of_range() {
    let mut vm = loaded(&[6, 32767]);
    vm.step().unwrap();
    // the word at 32767 is 0 (Halt) after loading
    assert_eq!(vm.step(), Ok(Event::Halted));
    assert_eq!(vm.pc(), 32768);
    assert_eq!(vm.step(), Err(Fault { kind: ErrorKind::AddressOutOfRange, pc: 32768 }));
}

#[test]
fn rmem_of_large_address_is_out_of_range() {
    // RMem r0, 6 loads 40000; RMem r1, r0 then reads past memory
    let mut vm = loaded(&[15, R0, 6, 15, R0 + 1, R0, 40000]);
    vm.step().unwrap();
    assert_eq!(vm.register(0), 40000);
    assert_eq!(vm.step(), Err(Fault { kind: ErrorKind::AddressOutOfRange, pc: 3 }));
}

#[test]
fn execute_stops_when_budget_is_spent() {
    let mut vm = loaded(&[19, 88, 6, 0]);
    let run = vm.execute(5);
    assert_eq!(run.status, Status::Running);
    assert_eq!(text(&run.output), "XXX");
    assert_eq!(vm.pc(), 2);
    let mut vm = loaded(&[0]);
    let run = vm.execute(0);
    assert_eq!(run.status, Status::Running);
    assert_eq!(vm.pc(), 0);
}

#[test]
fn operand_codes() {
    assert_eq!(Operand::new(0), Some(Operand::Literal(0)));
    assert_eq!(Operand::new(32767), Some(Operand::Literal(32767)));
    assert_eq!(Operand::new(32768), Some(Operand::Register(0)));
    assert_eq!(Operand::new(32775), Some(Operand::Register(7)));
    assert_eq!(Operand::new(32776), None);
    assert_eq!(Operand::new(65535), None);
}

#[test]
fn parse_op_advances_pc() {
    let mut vm = loaded(&[32770, 50000]);
    assert_eq!(vm.parse_op(), Ok(Operand::Register(2)));
    assert_eq!(vm.pc(), 1);
    assert_eq!(vm.parse_op(), Err(ErrorKind::InvalidOperand));
    assert_eq!(vm.pc(), 1);
}

#[test]
fn parse_operation_decodes_operands() {
    let mut vm = loaded(&[9, R0, 4, R0 + 7, 18]);
    assert_eq!(
        vm.parse_operation(),
        Ok(Operation::Add(Operand::Register(0), Operand::Literal(4), Operand::Register(7)))
    );
    assert_eq!(vm.pc(), 4);
    assert_eq!(vm.parse_operation(), Ok(Operation::Ret));
    assert_eq!(vm.pc(), 5);
}

#[test]
fn load_reads_little_endian_words() {
    let mut vm = VM::new();
    assert_eq!(vm.load_memory(vec![0x34, 0x12, 0xff, 0x00]), Ok(()));
    assert_eq!(vm.word(0), 0x1234);
    assert_eq!(vm.word(1), 0x00ff);
    assert_eq!(vm.word(2), 0);
}

#[test]
fn load_zero_fills_the_rest() {
    let mut vm = loaded(&[5, 6, 7, 8]);
    assert_eq!(vm.load_memory(vec![1, 0]), Ok(()));
    assert_eq!(vm.word(0), 1);
    assert_eq!(vm.word(1), 0);
    assert_eq!(vm.word(3), 0);
}

#[test]
fn load_rejects_odd_length() {
    let mut vm = loaded(&[19, 65]);
    assert_eq!(vm.load_memory(vec![1, 2, 3]), Err(ErrorKind::MalformedProgram));
    assert_eq!(vm.word(0), 19);
}

#[test]
fn load_rejects_too_large_program() {
    let mut vm = VM::new();
    assert_eq!(vm.load_memory(vec![0; 65538]), Err(ErrorKind::ProgramTooLarge));
    assert_eq!(vm.load_memory(vec![1; 65536]), Ok(()));
    assert_eq!(vm.word(32767), 0x0101);
}

#[test]
fn new_machine_is_zeroed() {
    let vm = VM::new();
    assert_eq!(vm.pc(), 0);
    assert_eq!(vm.stack_depth(), 0);
    for r in 0..8 {
        assert_eq!(vm.register(r), 0);
    }
    assert_eq!(vm.word(32767), 0);
}
