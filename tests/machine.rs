use stack_machine::instructions::{
    decode, Instruction, ADD, CALL, DEC, DSP, HALT, IIP, INC, ISP, JMP, JNZ, LSF, MUL, PIP, PSP,
    PUSH, RET, RSF, SSP, SUB,
};
use stack_machine::machine::{Exit, Fault, Flow, Machine, MEMORY_CELLS};
use stack_machine::output::halt_line;

fn run_program(words: Vec<u16>) -> (Machine, Option<Exit>) {
    let mut m = Machine::new();
    m.load_program(words);
    let r = m.run(10_000);
    (m, r)
}

#[test]
fn new_machine_is_zeroed() {
    let m = Machine::new();
    assert_eq!(m.stack.len(), MEMORY_CELLS);
    assert_eq!(m.program.len(), MEMORY_CELLS);
    assert!(m.stack.iter().all(|&c| c == 0));
    assert!(m.program.iter().all(|&c| c == 0));
    assert_eq!(m.sp, 0);
    assert_eq!(m.ip, 0);
}

#[test]
fn push_add_halt_prints_eight() {
    let (_, r) = run_program(vec![PUSH, 5, PUSH, 3, ADD, HALT]);
    let e = r.unwrap();
    assert_eq!(e, Exit::Halted(8));
    assert_eq!(e.output(), b"8\n".to_vec());
    assert_eq!(e.status(), 0);
}

#[test]
fn inc_wraps_to_zero() {
    let (_, r) = run_program(vec![PUSH, 0xFFFF, INC, HALT]);
    let e = r.unwrap();
    assert_eq!(e, Exit::Halted(0));
    assert_eq!(e.output(), b"0\n".to_vec());
    assert_eq!(e.status(), 0);
}

#[test]
fn empty_program_faults_after_ip_passes_last_cell() {
    let mut m = Machine::new();
    m.load_program(vec![]);
    assert_eq!(m.run(1024), None);
    assert_eq!(m.ip, 1024);
    assert_eq!(m.sp, 0);
    assert_eq!(m.step(), Err(Fault::ProgramRange));

    let mut m = Machine::new();
    m.load_program(vec![]);
    let e = m.run(100_000).unwrap();
    assert_eq!(e, Exit::Faulted(Fault::ProgramRange));
    assert_eq!(e.status(), 1);
    assert!(e.output().is_empty());
    assert_eq!(m.ip, 1025);
}

#[test]
fn halt_prints_exact_digits() {
    assert_eq!(halt_line(5), b"5\n".to_vec());
    assert_eq!(halt_line(0), b"0\n".to_vec());
    assert_eq!(halt_line(10), b"10\n".to_vec());
    assert_eq!(halt_line(65535), b"65535\n".to_vec());
    let (_, r) = run_program(vec![PUSH, 65535, HALT]);
    assert_eq!(r.unwrap().output(), b"65535\n".to_vec());
}

#[test]
fn fetch_past_program_faults_without_executing() {
    let mut m = Machine::new();
    m.load_program(vec![PUSH, 1, HALT]);
    m.ip = 1024;
    let stack = m.stack.clone();
    assert_eq!(m.step(), Err(Fault::ProgramRange));
    assert_eq!(m.ip, 1025);
    assert_eq!(m.sp, 0);
    assert_eq!(m.stack, stack);

    let mut m = Machine::new();
    m.ip = 40000;
    assert_eq!(m.run(5), Some(Exit::Faulted(Fault::ProgramRange)));
    assert_eq!(m.ip, 40001);
}

#[test]
fn fetch_reads_and_advances() {
    let mut m = Machine::new();
    m.load_program(vec![7, 8]);
    assert_eq!(m.fetch(), Ok(7));
    assert_eq!(m.fetch(), Ok(8));
    assert_eq!(m.ip, 2);
    m.ip = 0xFFFF;
    assert_eq!(m.fetch(), Err(Fault::ProgramRange));
    assert_eq!(m.ip, 0);
}

#[test]
fn sub_is_top_minus_second() {
    let (_, r) = run_program(vec![PUSH, 3, PUSH, 10, SUB, HALT]);
    assert_eq!(r, Some(Exit::Halted(7)));
    let (_, r) = run_program(vec![PUSH, 10, PUSH, 3, SUB, HALT]);
    assert_eq!(r, Some(Exit::Halted(65529)));
}

#[test]
fn add_and_mul_wrap() {
    let (_, r) = run_program(vec![PUSH, 65535, PUSH, 2, ADD, HALT]);
    assert_eq!(r, Some(Exit::Halted(1)));
    let (_, r) = run_program(vec![PUSH, 300, PUSH, 300, MUL, HALT]);
    assert_eq!(r, Some(Exit::Halted(24464)));
}

#[test]
fn dec_wraps_below_zero() {
    let (_, r) = run_program(vec![PUSH, 0, DEC, HALT]);
    assert_eq!(r, Some(Exit::Halted(65535)));
}

#[test]
fn shifts_take_amount_modulo_32() {
    let (_, r) = run_program(vec![PUSH, 1, PUSH, 4, LSF, HALT]);
    assert_eq!(r, Some(Exit::Halted(16)));
    let (_, r) = run_program(vec![PUSH, 0x8001, PUSH, 1, LSF, HALT]);
    assert_eq!(r, Some(Exit::Halted(2)));
    let (_, r) = run_program(vec![PUSH, 1, PUSH, 20, LSF, HALT]);
    assert_eq!(r, Some(Exit::Halted(0)));
    let (_, r) = run_program(vec![PUSH, 1, PUSH, 33, LSF, HALT]);
    assert_eq!(r, Some(Exit::Halted(2)));
    let (_, r) = run_program(vec![PUSH, 256, PUSH, 4, RSF, HALT]);
    assert_eq!(r, Some(Exit::Halted(16)));
    let (_, r) = run_program(vec![PUSH, 256, PUSH, 36, RSF, HALT]);
    assert_eq!(r, Some(Exit::Halted(16)));
    let (_, r) = run_program(vec![PUSH, 0xFFFF, PUSH, 16, RSF, HALT]);
    assert_eq!(r, Some(Exit::Halted(0)));
}

#[test]
fn call_then_ret_returns_after_call() {
    // arg 7, target 6; the callee increments its argument and returns.
    let mut m = Machine::new();
    m.load_program(vec![PUSH, 7, PUSH, 6, CALL, HALT, INC, RET]);
    assert_eq!(m.run(2), None);
    assert_eq!(m.sp, 2);
    assert_eq!(m.step(), Ok(Flow::Continue));
    assert_eq!(m.ip, 6);
    assert_eq!(m.sp, 2);
    assert_eq!(m.stack[2], 7);
    assert_eq!(m.stack[1], 5);
    assert_eq!(m.step(), Ok(Flow::Continue));
    assert_eq!(m.step(), Ok(Flow::Continue));
    assert_eq!(m.ip, 5);
    assert_eq!(m.sp, 1);
    assert_eq!(m.stack[1], 8);
    assert_eq!(m.step(), Ok(Flow::Halt(8)));
}

#[test]
fn call_with_empty_stack_faults() {
    let mut m = Machine::new();
    m.load_program(vec![CALL]);
    assert_eq!(m.step(), Err(Fault::StackRange));
}

#[test]
fn jnz_consumes_two_cells_either_way() {
    let mut m = Machine::new();
    m.load_program(vec![PUSH, 1, PUSH, 7, JNZ, PUSH, 9, HALT]);
    assert_eq!(m.run(2), None);
    assert_eq!(m.step(), Ok(Flow::Continue));
    assert_eq!(m.sp, 1);
    assert_eq!(m.ip, 7);
    assert_eq!(m.step(), Ok(Flow::Halt(1)));

    let mut m = Machine::new();
    m.load_program(vec![PUSH, 0, PUSH, 7, JNZ, PUSH, 9, HALT]);
    assert_eq!(m.run(2), None);
    assert_eq!(m.step(), Ok(Flow::Continue));
    assert_eq!(m.sp, 1);
    assert_eq!(m.ip, 5);
    assert_eq!(m.run(10), Some(Exit::Halted(9)));
}

#[test]
fn stack_underflow_faults() {
    let (m, r) = run_program(vec![DSP, HALT]);
    let e = r.unwrap();
    assert_eq!(e, Exit::Faulted(Fault::StackRange));
    assert_eq!(e.status(), 1);
    assert_eq!(m.sp, 0xFFFF);
}

#[test]
fn unknown_opcode_is_a_no_op() {
    let (_, r) = run_program(vec![0x99, PUSH, 4, 0xFFFF, HALT]);
    assert_eq!(r, Some(Exit::Halted(4)));
}

#[test]
fn pointer_pushes() {
    let (m, r) = run_program(vec![PSP, HALT]);
    assert_eq!(r, Some(Exit::Halted(1)));
    assert_eq!(m.sp, 1);
    let (_, r) = run_program(vec![PIP, HALT]);
    assert_eq!(r, Some(Exit::Halted(1)));
}

#[test]
fn pointer_moves() {
    let (_, r) = run_program(vec![PUSH, 2, IIP, DEC, HALT]);
    assert_eq!(r, Some(Exit::Halted(2)));
    let (m, r) = run_program(vec![PUSH, 5, SSP, HALT]);
    assert_eq!(r, Some(Exit::Halted(0)));
    assert_eq!(m.sp, 5);
    let (_, r) = run_program(vec![PUSH, 5, JMP, DEC, DEC, HALT]);
    assert_eq!(r, Some(Exit::Halted(5)));
    let (_, r) = run_program(vec![PUSH, 9, DSP, ISP, HALT]);
    assert_eq!(r, Some(Exit::Halted(9)));
}

#[test]
fn dip_moves_ip_back() {
    let mut m = Machine::new();
    m.load_program(vec![stack_machine::instructions::DIP]);
    assert_eq!(m.step(), Ok(Flow::Continue));
    assert_eq!(m.ip, 0);
}

#[test]
fn load_program_drops_words_past_the_buffer() {
    let mut m = Machine::new();
    let words: Vec<u16> = (0..2000u16).collect();
    m.load_program(words);
    assert_eq!(m.program.len(), MEMORY_CELLS);
    assert_eq!(m.program[1023], 1023);
    assert_eq!(m.program[5], 5);
}

#[test]
fn load_program_keeps_cells_past_the_words() {
    let mut m = Machine::new();
    m.load_program(vec![1, 2, 3]);
    m.load_program(vec![9]);
    assert_eq!(&m.program[0..4], &[9, 2, 3, 0]);
}

#[test]
fn limited_run_stops_when_budget_is_spent() {
    let mut m = Machine::new();
    m.load_program(vec![PUSH, 0, JMP]);
    assert_eq!(m.run(1000), None);
    assert_eq!(m.run(0), None);
}

#[test]
fn opcodes_decode_back() {
    for ins in [Instruction::Push, Instruction::Add, Instruction::Jnz, Instruction::Halt] {
        assert_eq!(decode(ins.opcode()), Some(ins));
    }
    assert_eq!(decode(0), None);
    assert_eq!(decode(RET), Some(Instruction::Ret));
}
