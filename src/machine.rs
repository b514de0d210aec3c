//! The machine state and the fetch-decode-execute cycle.
use vstd::prelude::*;
use vstd::arithmetic::power2::{pow2, lemma_pow2_adds, lemma_pow2_strictly_increases, lemma2_to64};
use vstd::arithmetic::div_mod::{
    lemma_fundamental_div_mod_converse_mod, lemma_mod_multiples_basic, lemma_small_mod,
};
use vstd::bits::{lemma_u32_shl_is_mul, lemma_u16_shr_is_div};
use crate::output::{decimal_spec, halt_line};
use crate::instructions::{decode, decode_spec, Instruction};

verus! {

/// Number of cells in the program buffer and in the stack.
pub const MEMORY_CELLS: usize = 1024;

/// Why execution stopped abnormally.
#[derive(Clone, Copy, Debug, PartialEq, Eq, Structural)]
pub enum Fault {
    /// An instruction was fetched from outside the program buffer.
    ProgramRange,
    /// The stack was accessed outside its buffer.
    StackRange,
}

/// What a successful step leads to.
#[derive(Clone, Copy, Debug, PartialEq, Eq, Structural)]
pub enum Flow {
    /// Execution goes on with the next instruction.
    Continue,
    /// `HALT` ran with this value on top of the stack.
    Halt(u16),
}

/// How a run ended.
#[derive(Clone, Copy, Debug, PartialEq, Eq, Structural)]
pub enum Exit {
    /// `HALT` ran with this value on top of the stack.
    Halted(u16),
    /// Execution stopped on a fault.
    Faulted(Fault),
}

/// The mathematical state of a machine.
pub struct MachineState {
    pub stack: Seq<u16>,
    pub program: Seq<u16>,
    pub sp: u16,
    pub ip: u16,
}

/// A stack machine: `program` is read at `ip`, `stack` is read and written at
/// `sp`, which points at the top cell. Both pointers wrap modulo 65536; an
/// access outside a buffer is a fault.
pub struct Machine {
    pub stack: Vec<u16>,
    pub program: Vec<u16>,
    pub sp: u16,
    pub ip: u16,
}

impl View for Machine {
    type V = MachineState;

    open spec fn view(&self) -> MachineState {
        MachineState { stack: self.stack@, program: self.program@, sp: self.sp, ip: self.ip }
    }
}

/// Reduction of an integer to a 16-bit word, modulo 65536.
pub open spec fn wrap(x: int) -> u16 {
    (x % 65536) as u16
}

/// Whether a pointer indexes a cell of a buffer.
pub open spec fn in_range(buf: Seq<u16>, i: u16) -> bool {
    (i as int) < buf.len()
}

impl MachineState {
    /// Both buffers have their fixed size.
    pub open spec fn wf(self) -> bool {
        self.stack.len() == MEMORY_CELLS && self.program.len() == MEMORY_CELLS
    }

    /// The stack pointer after `sp += 1`.
    pub open spec fn above(self) -> u16 {
        wrap(self.sp + 1)
    }

    /// The stack pointer after `sp -= 1`.
    pub open spec fn below(self) -> u16 {
        wrap(self.sp - 1)
    }

    pub open spec fn with_sp(self, sp: u16) -> MachineState {
        MachineState { sp, ..self }
    }

    pub open spec fn with_ip(self, ip: u16) -> MachineState {
        MachineState { ip, ..self }
    }

    pub open spec fn with_cell(self, i: u16, v: u16) -> MachineState {
        MachineState { stack: self.stack.update(i as int, v), ..self }
    }

    /// The state after the word at `ip` was fetched: `ip` advanced, wrapping.
    pub open spec fn fetched(self) -> MachineState {
        self.with_ip(wrap(self.ip + 1))
    }
}

/// The result that an arithmetic instruction stores, from the former top `a` and
/// the former second value `b`. Shift amounts are taken modulo 32.
pub open spec fn arith_spec(ins: Instruction, a: u16, b: u16) -> u16 {
    match ins {
        Instruction::Add => wrap(a + b),
        Instruction::Sub => wrap(a - b),
        Instruction::Mul => wrap(a * b),
        Instruction::Lsf => wrap(b * pow2((a % 32) as nat)),
        _ => (b as nat / pow2((a % 32) as nat)) as u16,
    }
}

pub open spec fn is_arith(ins: Instruction) -> bool {
    ins is Add || ins is Sub || ins is Mul || ins is Lsf || ins is Rsf
}

pub open spec fn stack_fault(s: MachineState) -> (MachineState, Result<Flow, Fault>) {
    (s, Err(Fault::StackRange))
}

pub open spec fn go_on(s: MachineState) -> (MachineState, Result<Flow, Fault>) {
    (s, Ok(Flow::Continue))
}

/// Raises `sp` and writes `v` to the new top.
pub open spec fn push_spec(s: MachineState, v: u16) -> (MachineState, Result<Flow, Fault>) {
    if in_range(s.stack, s.above()) {
        go_on(s.with_sp(s.above()).with_cell(s.above(), v))
    } else {
        stack_fault(s)
    }
}

/// Executes one decoded instruction, in the state after its opcode was fetched.
/// A faulting instruction leaves the state as it found it.
pub open spec fn execute_spec(s: MachineState, ins: Instruction) -> (MachineState, Result<Flow, Fault>) {
    let top = s.sp;
    let low = s.below();
    let both = in_range(s.stack, top) && in_range(s.stack, low);
    match ins {
        Instruction::Push => if in_range(s.program, s.ip) {
            push_spec(s.fetched(), s.program[s.ip as int])
        } else {
            (s.fetched(), Err(Fault::ProgramRange))
        },
        Instruction::Pip => push_spec(s, s.ip),
        Instruction::Psp => push_spec(s, s.above()),
        Instruction::Add | Instruction::Sub | Instruction::Mul | Instruction::Lsf
        | Instruction::Rsf => if both {
            go_on(s.with_sp(low).with_cell(low, arith_spec(ins, s.stack[top as int], s.stack[low as int])))
        } else {
            stack_fault(s)
        },
        Instruction::Inc => if in_range(s.stack, top) {
            go_on(s.with_cell(top, wrap(s.stack[top as int] + 1)))
        } else {
            stack_fault(s)
        },
        Instruction::Dec => if in_range(s.stack, top) {
            go_on(s.with_cell(top, wrap(s.stack[top as int] - 1)))
        } else {
            stack_fault(s)
        },
        Instruction::Iip => go_on(s.with_ip(wrap(s.ip + 1))),
        Instruction::Dip => go_on(s.with_ip(wrap(s.ip - 1))),
        Instruction::Isp => go_on(s.with_sp(s.above())),
        Instruction::Dsp => go_on(s.with_sp(low)),
        Instruction::Call => if both {
            go_on(s.with_cell(low, s.ip).with_cell(top, s.stack[low as int]).with_ip(s.stack[top as int]))
        } else {
            stack_fault(s)
        },
        Instruction::Ret => if both {
            go_on(s.with_sp(low).with_ip(s.stack[low as int]).with_cell(low, s.stack[top as int]))
        } else {
            stack_fault(s)
        },
        Instruction::Jnz => if both {
            if s.stack[low as int] != 0 {
                go_on(s.with_sp(low).with_ip(s.stack[top as int]))
            } else {
                go_on(s.with_sp(low))
            }
        } else {
            stack_fault(s)
        },
        Instruction::Ssp => if in_range(s.stack, top) {
            go_on(s.with_sp(s.stack[top as int]))
        } else {
            stack_fault(s)
        },
        Instruction::Jmp => if in_range(s.stack, top) {
            go_on(s.with_ip(s.stack[top as int]))
        } else {
            stack_fault(s)
        },
        Instruction::Halt => if in_range(s.stack, top) {
            (s, Ok(Flow::Halt(s.stack[top as int])))
        } else {
            stack_fault(s)
        },
    }
}

/// One step: fetch the opcode at `ip`, then execute it; a word that names no
/// instruction is a no-op.
pub open spec fn step_spec(s: MachineState) -> (MachineState, Result<Flow, Fault>) {
    if !in_range(s.program, s.ip) {
        (s.fetched(), Err(Fault::ProgramRange))
    } else {
        match decode_spec(s.program[s.ip as int]) {
            None => go_on(s.fetched()),
            Some(ins) => execute_spec(s.fetched(), ins),
        }
    }
}

/// At most `n` steps: the state reached and, if execution ended, how.
pub open spec fn run_spec(s: MachineState, n: nat) -> (MachineState, Option<Exit>)
    decreases n,
{
    if n == 0 {
        (s, None)
    } else {
        let (t, r) = step_spec(s);
        match r {
            Ok(Flow::Continue) => run_spec(t, (n - 1) as nat),
            Ok(Flow::Halt(v)) => (t, Some(Exit::Halted(v))),
            Err(f) => (t, Some(Exit::Faulted(f))),
        }
    }
}

/// The program buffer after `words` were copied over its first cells.
pub open spec fn loaded(program: Seq<u16>, words: Seq<u16>) -> Seq<u16> {
    Seq::new(program.len(), |i: int| if i < words.len() { words[i] } else { program[i] })
}

/// The value that an arithmetic instruction stores.
pub fn arith(ins: Instruction, a: u16, b: u16) -> (r: u16)
    requires
        is_arith(ins),
    ensures
        r == arith_spec(ins, a, b),
{
    match ins {
        Instruction::Add => {
            proof {
                if a + b >= 65536 {
                    lemma_fundamental_div_mod_converse_mod(a + b, 65536, 1, a + b - 65536);
                } else {
                    lemma_small_mod((a + b) as nat, 65536);
                }
            }
            let r = a.wrapping_add(b);
            r
        },
        Instruction::Sub => {
            proof {
                if a - b < 0 {
                    lemma_fundamental_div_mod_converse_mod(a - b, 65536, -1, a - b + 65536);
                } else {
                    lemma_small_mod((a - b) as nat, 65536);
                }
            }
            a.wrapping_sub(b)
        },
        Instruction::Mul => a.wrapping_mul(b),
        Instruction::Lsf => {
            let k: u16 = a % 32;
            if k >= 16 {
                proof {
                    lemma_pow2_adds(16, (k - 16) as nat);
                    lemma2_to64();
                    let p = pow2((k - 16) as nat);
                    assert(b * pow2(k as nat) == (b * p) * 65536) by (nonlinear_arith)
                        requires
                            pow2(k as nat) == 65536 * p,
                    ;
                    lemma_mod_multiples_basic(b * p, 65536);
                }
                0
            } else {
                proof {
                    lemma2_to64();
                    lemma_pow2_strictly_increases(k as nat, 16);
                    assert(b * pow2(k as nat) <= u32::MAX) by (nonlinear_arith)
                        requires
                            b < 65536,
                            pow2(k as nat) < 65536,
                    ;
                    lemma_u32_shl_is_mul(b as u32, k as u32);
                }
                let wide: u32 = (b as u32) << (k as u32);
                proof {
                    assert((wide as u16) == wide % 65536) by (bit_vector);
                }
                (#[verifier::truncate] (wide as u16))
            }
        },
        _ => {
            let k: u16 = a % 32;
            if k >= 16 {
                proof {
                    lemma2_to64();
                    if k > 16 {
                        lemma_pow2_strictly_increases(16, k as nat);
                    }
                    assert(b as nat / pow2(k as nat) == 0) by (nonlinear_arith)
                        requires
                            b < 65536,
                            pow2(k as nat) >= 65536,
                    ;
                }
                0
            } else {
                proof {
                    lemma_u16_shr_is_div(b, k);
                }
                b >> k
            }
        },
    }
}

/// `x + 1`, wrapping.
fn up(x: u16) -> (r: u16)
    ensures
        r == wrap(x + 1),
{
    proof {
        if x + 1 >= 65536 {
            lemma_fundamental_div_mod_converse_mod(x + 1, 65536, 1, x + 1 - 65536);
        } else {
            lemma_small_mod((x + 1) as nat, 65536);
        }
    }
    x.wrapping_add(1)
}

/// `x - 1`, wrapping.
fn down(x: u16) -> (r: u16)
    ensures
        r == wrap(x - 1),
{
    proof {
        if x - 1 < 0 {
            lemma_fundamental_div_mod_converse_mod(x - 1, 65536, -1, x - 1 + 65536);
        } else {
            lemma_small_mod((x - 1) as nat, 65536);
        }
    }
    x.wrapping_sub(1)
}

impl Machine {
    /// Both buffers have their fixed size.
    pub open spec fn wf(&self) -> bool {
        self@.wf()
    }

    /// A machine with both buffers zeroed and both pointers at 0.
    pub fn new() -> (r: Machine)
        ensures
            r.wf(),
            r@.stack == Seq::new(MEMORY_CELLS as nat, |i: int| 0u16),
            r@.program == Seq::new(MEMORY_CELLS as nat, |i: int| 0u16),
            r.sp == 0,
            r.ip == 0,
    {
        let r = Machine {
            stack: vec![0u16; MEMORY_CELLS],
            program: vec![0u16; MEMORY_CELLS],
            sp: 0,
            ip: 0,
        };
        assert(r@.stack =~= Seq::new(MEMORY_CELLS as nat, |i: int| 0u16));
        assert(r@.program =~= Seq::new(MEMORY_CELLS as nat, |i: int| 0u16));
        r
    }

    /// Copies `program` over the first cells of the program buffer, as far as
    /// both reach; words past the end of the buffer are dropped.
    pub fn load_program(&mut self, program: Vec<u16>)
        ensures
            final(self)@ == (MachineState { program: loaded(old(self)@.program, program@), ..old(self)@ }),
    {
        let n: usize = if program.len() < self.program.len() { program.len() } else { self.program.len() };
        let mut i: usize = 0;
        while i < n
            invariant
                n <= program.len(),
                n <= old(self).program.len(),
                i <= n,
                self.stack == old(self).stack,
                self.sp == old(self).sp,
                self.ip == old(self).ip,
                self.program@.len() == old(self).program@.len(),
                forall|j: int| 0 <= j < i ==> self.program@[j] == program@[j],
                forall|j: int| i <= j < self.program@.len() ==> self.program@[j] == old(self).program@[j],
            decreases n - i,
        {
            self.program.set(i, program[i]);
            i = i + 1;
        }
        assert(self.program@ =~= loaded(old(self)@.program, program@));
    }

    /// Reads the word at `ip` and advances `ip`, wrapping; fails when `ip` was
    /// outside the program buffer.
    pub fn fetch(&mut self) -> (r: Result<u16, Fault>)
        ensures
            final(self)@ == old(self)@.fetched(),
            r == (if in_range(old(self)@.program, old(self).ip) {
                Ok(old(self)@.program[old(self).ip as int])
            } else {
                Err(Fault::ProgramRange)
            }),
    {
        let at = self.ip as usize;
        self.ip = up(self.ip);
        if at < self.program.len() {
            Ok(self.program[at])
        } else {
            Err(Fault::ProgramRange)
        }
    }

    /// Raises `sp` and writes `v` to the new top.
    fn push(&mut self, v: u16) -> (r: Result<Flow, Fault>)
        ensures
            (final(self)@, r) == push_spec(old(self)@, v),
    {
        let at = up(self.sp);
        if (at as usize) < self.stack.len() {
            self.sp = at;
            self.stack.set(at as usize, v);
            Ok(Flow::Continue)
        } else {
            Err(Fault::StackRange)
        }
    }

    /// Executes `ins`, whose opcode has been fetched.
    fn execute(&mut self, ins: Instruction) -> (r: Result<Flow, Fault>)
        ensures
            (final(self)@, r) == execute_spec(old(self)@, ins),
    {
        let top = self.sp;
        let low = down(self.sp);
        let len = self.stack.len();
        let has_top = (top as usize) < len;
        let both = has_top && (low as usize) < len;
        match ins {
            Instruction::Push => match self.fetch() {
                Ok(v) => self.push(v),
                Err(f) => Err(f),
            },
            Instruction::Pip => {
                let v = self.ip;
                self.push(v)
            },
            Instruction::Psp => {
                let v = up(self.sp);
                self.push(v)
            },
            Instruction::Add | Instruction::Sub | Instruction::Mul | Instruction::Lsf
            | Instruction::Rsf => {
                if !both {
                    return Err(Fault::StackRange);
                }
                let v = arith(ins, self.stack[top as usize], self.stack[low as usize]);
                self.sp = low;
                self.stack.set(low as usize, v);
                Ok(Flow::Continue)
            },
            Instruction::Inc | Instruction::Dec => {
                if !has_top {
                    return Err(Fault::StackRange);
                }
                let old_top = self.stack[top as usize];
                let v = if ins == Instruction::Inc { up(old_top) } else { down(old_top) };
                self.stack.set(top as usize, v);
                Ok(Flow::Continue)
            },
            Instruction::Iip => {
                self.ip = up(self.ip);
                Ok(Flow::Continue)
            },
            Instruction::Dip => {
                self.ip = down(self.ip);
                Ok(Flow::Continue)
            },
            Instruction::Isp => {
                self.sp = up(self.sp);
                Ok(Flow::Continue)
            },
            Instruction::Dsp => {
                self.sp = low;
                Ok(Flow::Continue)
            },
            Instruction::Call => {
                if !both {
                    return Err(Fault::StackRange);
                }
                let return_address = self.ip;
                let jump_address = self.stack[top as usize];
                let argument = self.stack[low as usize];
                self.stack.set(low as usize, return_address);
                self.stack.set(top as usize, argument);
                self.ip = jump_address;
                Ok(Flow::Continue)
            },
            Instruction::Ret => {
                if !both {
                    return Err(Fault::StackRange);
                }
                let result = self.stack[top as usize];
                self.sp = low;
                self.ip = self.stack[low as usize];
                self.stack.set(low as usize, result);
                Ok(Flow::Continue)
            },
            Instruction::Jnz => {
                if !both {
                    return Err(Fault::StackRange);
                }
                let jump_address = self.stack[top as usize];
                self.sp = low;
                if self.stack[low as usize] != 0 {
                    self.ip = jump_address;
                }
                Ok(Flow::Continue)
            },
            Instruction::Ssp => {
                if !has_top {
                    return Err(Fault::StackRange);
                }
                self.sp = self.stack[top as usize];
                Ok(Flow::Continue)
            },
            Instruction::Jmp => {
                if !has_top {
                    return Err(Fault::StackRange);
                }
                self.ip = self.stack[top as usize];
                Ok(Flow::Continue)
            },
            Instruction::Halt => {
                if !has_top {
                    return Err(Fault::StackRange);
                }
                Ok(Flow::Halt(self.stack[top as usize]))
            },
        }
    }

    /// Executes one instruction: fetches the opcode at `ip` and runs it. A word
    /// that names no instruction is skipped. Every stack access is checked: an
    /// access outside the stack is [`Fault::StackRange`], a fetch outside the
    /// program is [`Fault::ProgramRange`].
    pub fn step(&mut self) -> (r: Result<Flow, Fault>)
        ensures
            (final(self)@, r) == step_spec(old(self)@),
            old(self).wf() ==> final(self).wf(),
    {
        let word = match self.fetch() {
            Ok(w) => w,
            Err(f) => return Err(f),
        };
        match decode(word) {
            None => Ok(Flow::Continue),
            Some(ins) => self.execute(ins),
        }
    }

    /// Steps until `HALT` or a fault, or until `max_steps` steps have run
    /// (`None`: the machine is still running).
    pub fn run(&mut self, max_steps: u64) -> (r: Option<Exit>)
        ensures
            (final(self)@, r) == run_spec(old(self)@, max_steps as nat),
            old(self).wf() ==> final(self).wf(),
    {
        let mut done: u64 = 0;
        while done < max_steps
            invariant
                done <= max_steps,
                run_spec(old(self)@, max_steps as nat) == run_spec(self@, (max_steps - done) as nat),
                old(self).wf() ==> self.wf(),
            decreases max_steps - done,
        {
            let r = self.step();
            match r {
                Ok(Flow::Continue) => {},
                Ok(Flow::Halt(v)) => return Some(Exit::Halted(v)),
                Err(f) => return Some(Exit::Faulted(f)),
            }
            done = done + 1;
        }
        None
    }
}

impl Exit {
    /// The process exit status: 0 after `HALT`, 1 after a fault.
    pub open spec fn status_spec(self) -> i32 {
        match self {
            Exit::Halted(_) => 0,
            Exit::Faulted(_) => 1,
        }
    }

    /// The process exit status: 0 after `HALT`, 1 after a fault.
    pub fn status(&self) -> (r: i32)
        ensures
            r == self.status_spec(),
    {
        match self {
            Exit::Halted(_) => 0,
            Exit::Faulted(_) => 1,
        }
    }

    /// What the program prints: after `HALT` the line of [`halt_line`],
    /// after a fault nothing.
    pub open spec fn output_spec(self) -> Seq<u8> {
        match self {
            Exit::Halted(v) => decimal_spec(v as nat).push(10u8),
            Exit::Faulted(_) => Seq::empty(),
        }
    }

    /// What the program prints: after `HALT` the line of [`halt_line`],
    /// after a fault nothing.
    pub fn output(&self) -> (r: Vec<u8>)
        ensures
            r@ == self.output_spec(),
    {
        match self {
            Exit::Halted(v) => halt_line(*v),
            Exit::Faulted(_) => Vec::new(),
        }
    }
}

} // verus!
