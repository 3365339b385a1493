//! Laws of the instruction set, proved over the machine's model.
use crate::isa::{complement, operand_of, Operand, Operation};
use crate::machine::{operands, Event, VmModel};
use vstd::prelude::*;

verus! {

/// Executing `Set` with a register target and a literal value, then reading
/// the register, yields the value.
pub proof fn law_set_then_read(s: VmModel, r: usize, v: u16)
    requires
        s.wf(),
        r < 8,
        v < 32768,
        s.pc + 3 <= 32768,
        s.memory[s.pc as int] == 1,
        s.memory[s.pc + 1] == 32768 + r,
        s.memory[s.pc + 2] == v,
    ensures
        s.step() matches Ok((t, Event::Continue)) && t.value(Operand::Register(r)) == v && t.pc
            == s.pc + 3,
{
    reveal_with_fuel(operands, 3);
    assert(operand_of((32768 + r) as u16) == Some(Operand::Register(r)));
}

/// `Add`, `Mult` and `Mod` on values below 32768 store the sum, the product
/// and the remainder reduced modulo 32768 (`Mod` for a non-zero divisor).
pub proof fn law_modular_arithmetic(s: VmModel, r: usize, a: u16, b: u16)
    requires
        s.wf(),
        r < 8,
        a < 32768,
        b < 32768,
    ensures
        ({
            let target = Operand::Register(r);
            let (x, y) = (Operand::Literal(a as usize), Operand::Literal(b as usize));
            &&& s.apply(Operation::Add(target, x, y)) matches Ok((t, Event::Continue))
                && t.value(target) == (a + b) % 32768
            &&& s.apply(Operation::Mult(target, x, y)) matches Ok((t, Event::Continue))
                && t.value(target) == (a * b) % 32768
            &&& b != 0 ==> (s.apply(Operation::Mod(target, x, y)) matches Ok((t, Event::Continue))
                && t.value(target) == (a % b) % 32768)
        }),
{
}

/// The 15-bit complement is an involution on the values below 32768.
pub proof fn law_not_involution(x: u16)
    requires
        x < 32768,
    ensures
        complement(complement(x)) == x,
{
}

/// `Push v` followed by `Pop r` leaves `v` in register `r` and the stack as
/// it was before the push.
pub proof fn law_push_pop(s: VmModel, v: u16, r: usize)
    requires
        s.wf(),
        r < 8,
        v < 32768,
        s.pc + 4 <= 32768,
        s.memory[s.pc as int] == 2,
        s.memory[s.pc + 1] == v,
        s.memory[s.pc + 2] == 3,
        s.memory[s.pc + 3] == 32768 + r,
    ensures
        s.step() matches Ok((t, Event::Continue)) && (t.step() matches Ok((u, Event::Continue))
            && u.value(Operand::Register(r)) == v && u.stack == s.stack && u.pc == s.pc + 4),
{
    reveal_with_fuel(operands, 2);
    assert(operand_of((32768 + r) as u16) == Some(Operand::Register(r)));
    let t = s.step()->Ok_0.0;
    assert(t.stack.drop_last() =~= s.stack);
}

/// `Call target`, then `Ret` at the target, resumes at the word right after
/// the `Call`, with the stack as it was.
pub proof fn law_call_ret(s: VmModel, target: u16)
    requires
        s.wf(),
        target < 32768,
        s.pc + 2 <= 32768,
        s.memory[s.pc as int] == 17,
        s.memory[s.pc + 1] == target,
        s.memory[target as int] == 18,
    ensures
        s.step() matches Ok((t, Event::Continue)) && t.pc == target && (t.step() matches Ok(
            (u, Event::Continue),
        ) && u.pc == s.pc + 2 && u.stack == s.stack),
{
    reveal_with_fuel(operands, 2);
    let t = s.step()->Ok_0.0;
    assert(t.stack.drop_last() =~= s.stack);
}

/// `Jt c, t` and `Jf c, t` are complements: `Jt` jumps exactly when the
/// condition is non-zero and `Jf` exactly when it is zero; the one that does
/// not jump changes nothing.
pub proof fn law_jump_complement(s: VmModel, c: Operand, t: Operand)
    requires
        s.wf(),
        c.wf(),
        t.wf(),
    ensures
        s.apply(Operation::Jt(c, t)) matches Ok((jt, Event::Continue)) && (s.apply(
            Operation::Jf(c, t),
        ) matches Ok((jf, Event::Continue)) && (if s.value(c) != 0 {
            jt == s.with_pc(s.value(t)) && jf == s
        } else {
            jf == s.with_pc(s.value(t)) && jt == s
        })),
{
}

} // verus!
