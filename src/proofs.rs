//! Facts about the instruction semantics that hold for every machine state.
use vstd::prelude::*;
use vstd::arithmetic::power2::pow2;
use crate::instructions::{decode_spec, Instruction, CALL, HALT, INC, DEC, JNZ, RET};
use crate::machine::{
    arith_spec, in_range, is_arith, run_spec, step_spec, wrap, Exit, Fault, Flow, MachineState,
};
use crate::output::{decimal_spec, digits_value, is_digit, lemma_decimal_denotes};

verus! {

/// The opcode at `ip` can be fetched and is `op`.
pub open spec fn at_opcode(s: MachineState, op: u16) -> bool {
    in_range(s.program, s.ip) && s.program[s.ip as int] == op
}

/// A step never leaves the fixed-size buffers: both keep their size, the
/// program is never written, a fetch from `ip` past the program faults, and a
/// stack fault leaves the stack as it was.
pub proof fn lemma_step_in_bounds(s: MachineState)
    requires
        s.wf(),
    ensures
        step_spec(s).0.wf(),
        step_spec(s).0.program == s.program,
        !in_range(s.program, s.ip) ==> step_spec(s).1 == Err::<Flow, Fault>(Fault::ProgramRange),
        step_spec(s).1 == Err::<Flow, Fault>(Fault::StackRange) ==> step_spec(s).0.stack == s.stack,
{
}

/// Arithmetic wraps modulo 65536, and shift amounts are taken modulo 32: with
/// `a` on top and `b` below it, the two are replaced by the result.
pub proof fn lemma_arithmetic_wraps(s: MachineState, ins: Instruction)
    requires
        in_range(s.program, s.ip),
        decode_spec(s.program[s.ip as int]) == Some(ins),
        is_arith(ins),
        in_range(s.stack, s.sp),
        in_range(s.stack, wrap(s.sp - 1)),
    ensures
        ({
            let (t, r) = step_spec(s);
            let a = s.stack[s.sp as int] as int;
            let b = s.stack[wrap(s.sp - 1) as int] as int;
            let v = t.stack[t.sp as int] as int;
            &&& r == Ok::<Flow, Fault>(Flow::Continue)
            &&& t.sp == wrap(s.sp - 1)
            &&& ins is Add ==> v == (a + b) % 65536
            &&& ins is Sub ==> v == (a - b) % 65536
            &&& ins is Mul ==> v == (a * b) % 65536
            &&& ins is Lsf ==> v == (b * pow2((a % 32) as nat)) % 65536
            &&& ins is Rsf ==> v == b / pow2((a % 32) as nat) as int
        }),
{
    let a = s.stack[s.sp as int];
    let b = s.stack[wrap(s.sp - 1) as int];
    if ins is Rsf {
        vstd::arithmetic::power2::lemma_pow2_pos((a % 32) as nat);
        assert(b as nat / pow2((a % 32) as nat) <= b) by (nonlinear_arith)
            requires
                pow2((a % 32) as nat) > 0,
        ;
    }
}

/// `INC` and `DEC` change the top in place, wrapping modulo 65536.
pub proof fn lemma_inc_dec_wrap(s: MachineState)
    requires
        at_opcode(s, INC) || at_opcode(s, DEC),
        in_range(s.stack, s.sp),
    ensures
        ({
            let (t, r) = step_spec(s);
            let v = s.stack[s.sp as int] as int;
            &&& r == Ok::<Flow, Fault>(Flow::Continue)
            &&& t.sp == s.sp
            &&& at_opcode(s, INC) ==> t.stack[t.sp as int] == (v + 1) % 65536
            &&& at_opcode(s, DEC) ==> t.stack[t.sp as int] == (v - 1) % 65536
        }),
{
}

/// `CALL` followed, at its target, by `RET`: with the jump target on top and an
/// argument below it, `CALL` jumps to the target and leaves the argument on top
/// over the return address. When the callee comes to `RET` with the stack
/// pointer where `CALL` left it and the return address in place, `RET` returns
/// to the word after `CALL`, leaves the callee's top one cell lower, and the
/// stack pointer one less than at the call.
pub proof fn lemma_call_then_ret(s: MachineState, u: MachineState)
    requires
        at_opcode(s, CALL),
        in_range(s.stack, s.sp),
        in_range(s.stack, wrap(s.sp - 1)),
        at_opcode(u, RET),
        u.sp == step_spec(s).0.sp,
        u.stack.len() == s.stack.len(),
        u.stack[wrap(u.sp - 1) as int] == step_spec(s).0.stack[wrap(s.sp - 1) as int],
    ensures
        step_spec(s).1 == Ok::<Flow, Fault>(Flow::Continue),
        step_spec(s).0.ip == s.stack[s.sp as int],
        step_spec(s).0.sp == s.sp,
        step_spec(s).0.stack[s.sp as int] == s.stack[wrap(s.sp - 1) as int],
        step_spec(u).1 == Ok::<Flow, Fault>(Flow::Continue),
        step_spec(u).0.ip == wrap(s.ip + 1),
        step_spec(u).0.sp == wrap(s.sp - 1),
        step_spec(u).0.stack[step_spec(u).0.sp as int] == u.stack[u.sp as int],
{
}

/// `JNZ` always consumes the jump target and the tested value, branching or
/// not, and writes no cell.
pub proof fn lemma_jnz_consumes_two(s: MachineState)
    requires
        at_opcode(s, JNZ),
        in_range(s.stack, s.sp),
        in_range(s.stack, wrap(s.sp - 1)),
    ensures
        step_spec(s).1 == Ok::<Flow, Fault>(Flow::Continue),
        step_spec(s).0.sp == wrap(s.sp - 1),
        step_spec(s).0.stack == s.stack,
        step_spec(s).0.ip == (if s.stack[wrap(s.sp - 1) as int] != 0 {
            s.stack[s.sp as int]
        } else {
            wrap(s.ip + 1)
        }),
{
}

/// `HALT` ends the run at once with status 0, and prints the top value `v` as
/// its decimal digits, which denote `v`, without leading zeros, and a newline.
pub proof fn lemma_halt_prints_top(s: MachineState, n: nat)
    requires
        at_opcode(s, HALT),
        in_range(s.stack, s.sp),
        n >= 1,
    ensures
        ({
            let v = s.stack[s.sp as int];
            let e = Exit::Halted(v);
            let out = e.output_spec();
            &&& run_spec(s, n) == (s.fetched(), Some(e))
            &&& e.status_spec() == 0
            &&& out == decimal_spec(v as nat).push(10u8)
            &&& digits_value(out.drop_last()) == v
            &&& forall|i: int| 0 <= i < out.len() - 1 ==> is_digit(#[trigger] out[i])
            &&& out[0] == 48 ==> v == 0
        }),
{
    let v = s.stack[s.sp as int];
    lemma_decimal_denotes(v as nat);
    let out = Exit::Halted(v).output_spec();
    assert(out.drop_last() =~= decimal_spec(v as nat));
    assert(forall|i: int| 0 <= i < out.len() - 1 ==> out[i] == decimal_spec(v as nat)[i]);
}

/// A fetch from `ip` outside the program ends the run at once with status 1:
/// nothing else executes, and only `ip` moves.
pub proof fn lemma_fetch_fault_stops(s: MachineState, n: nat)
    requires
        !in_range(s.program, s.ip),
        n >= 1,
    ensures
        run_spec(s, n) == (s.fetched(), Some(Exit::Faulted(Fault::ProgramRange))),
        Exit::Faulted(Fault::ProgramRange).status_spec() == 1,
        Exit::Faulted(Fault::ProgramRange).output_spec().len() == 0,
{
}

} // verus!
