//! The instruction set: operand codes, opcodes, arities and the numeric model.
use vstd::arithmetic::div_mod::lemma_mod_mod;
use vstd::prelude::*;

verus! {

/// Number of words of memory, and the modulus of all arithmetic.
pub const MEM_SIZE: usize = 32768;

/// Number of general-purpose registers.
pub const NUM_REGISTERS: usize = 8;

/// The modulus of the machine's arithmetic, as a word.
pub const MAX_NUM: u16 = 32768;

/// A fatal condition that ends a run.
#[derive(Debug, Clone, Copy, PartialEq, Eq, Structural)]
pub enum ErrorKind {
    /// The program image has an odd number of bytes.
    MalformedProgram,
    /// The program image holds more words than memory does.
    ProgramTooLarge,
    /// An opcode word outside the instruction table.
    InvalidOpcode,
    /// An operand code outside `0..32776`.
    InvalidOperand,
    /// `Pop` or `Ret` on an empty stack.
    StackUnderflow,
    /// `Mod` with a zero divisor.
    DivisionByZero,
    /// `Out` of a value that is no Unicode scalar value.
    InvalidCodepoint,
    /// A word fetched, read or written at an address past the end of memory.
    AddressOutOfRange,
}

/// A decoded operand: a literal value, or a reference to a register.
#[derive(Debug, Clone, Copy, PartialEq, Eq, Structural)]
pub enum Operand {
    Literal(usize),
    Register(usize),
}

/// What an operand code denotes, if anything.
pub open spec fn operand_of(code: u16) -> Option<Operand> {
    if code < 32768 {
        Some(Operand::Literal(code as usize))
    } else if code < 32776 {
        Some(Operand::Register((code - 32768) as usize))
    } else {
        None
    }
}

impl Operand {
    /// An operand that names a literal value or an existing register.
    pub open spec fn wf(self) -> bool {
        match self {
            Operand::Literal(n) => n < MEM_SIZE,
            Operand::Register(r) => r < NUM_REGISTERS,
        }
    }

    /// Decodes an operand code: `0..32768` is a literal, `32768..32776`
    /// names register `code - 32768`, and any other code is invalid.
    pub fn new(code: u16) -> (r: Option<Operand>)
        ensures
            r == operand_of(code),
            r matches Some(o) ==> o.wf(),
    {
        if code < 32768 {
            Some(Operand::Literal(code as usize))
        } else if code < 32776 {
            Some(Operand::Register((code % MAX_NUM) as usize))
        } else {
            None
        }
    }
}

/// A decoded instruction: an operation tag with its operands.
#[derive(Debug, Clone, Copy, PartialEq, Eq, Structural)]
pub enum Operation {
    Halt,
    Assign(Operand, Operand),
    Push(Operand),
    Pop(Operand),
    Eq(Operand, Operand, Operand),
    Gt(Operand, Operand, Operand),
    Jump(Operand),
    Jt(Operand, Operand),
    Jf(Operand, Operand),
    Add(Operand, Operand, Operand),
    Mult(Operand, Operand, Operand),
    Mod(Operand, Operand, Operand),
    And(Operand, Operand, Operand),
    Or(Operand, Operand, Operand),
    Not(Operand, Operand),
    RMem(Operand, Operand),
    WMem(Operand, Operand),
    Call(Operand),
    Ret,
    Out(Operand),
    Noop,
}

impl Operation {
    /// Every operand names a literal value or an existing register.
    pub open spec fn wf(self) -> bool {
        match self {
            Operation::Assign(a, b) | Operation::Jt(a, b) | Operation::Jf(a, b)
            | Operation::Not(a, b) | Operation::RMem(a, b) | Operation::WMem(a, b) => a.wf() && b.wf(),
            Operation::Push(a) | Operation::Pop(a) | Operation::Jump(a) | Operation::Call(a)
            | Operation::Out(a) => a.wf(),
            Operation::Eq(a, b, c) | Operation::Gt(a, b, c) | Operation::Add(a, b, c)
            | Operation::Mult(a, b, c) | Operation::Mod(a, b, c) | Operation::And(a, b, c)
            | Operation::Or(a, b, c) => a.wf() && b.wf() && c.wf(),
            Operation::Halt | Operation::Ret | Operation::Noop => true,
        }
    }
}

/// The number of operands that follow an opcode, or `None` for an opcode
/// outside the table.
pub open spec fn arity(opcode: u16) -> Option<usize> {
    match opcode {
        0 => Some(0),
        1 => Some(2),
        2 => Some(1),
        3 => Some(1),
        4 => Some(3),
        5 => Some(3),
        6 => Some(1),
        7 => Some(2),
        8 => Some(2),
        9 => Some(3),
        10 => Some(3),
        11 => Some(3),
        12 => Some(3),
        13 => Some(3),
        14 => Some(2),
        15 => Some(2),
        16 => Some(2),
        17 => Some(1),
        18 => Some(0),
        19 => Some(1),
        21 => Some(0),
        _ => None,
    }
}

/// The instruction that an opcode with its operands denotes.
pub open spec fn assemble(opcode: u16, ops: Seq<Operand>) -> Operation
    recommends
        arity(opcode) == Some(ops.len() as usize),
{
    match opcode {
        0 => Operation::Halt,
        1 => Operation::Assign(ops[0], ops[1]),
        2 => Operation::Push(ops[0]),
        3 => Operation::Pop(ops[0]),
        4 => Operation::Eq(ops[0], ops[1], ops[2]),
        5 => Operation::Gt(ops[0], ops[1], ops[2]),
        6 => Operation::Jump(ops[0]),
        7 => Operation::Jt(ops[0], ops[1]),
        8 => Operation::Jf(ops[0], ops[1]),
        9 => Operation::Add(ops[0], ops[1], ops[2]),
        10 => Operation::Mult(ops[0], ops[1], ops[2]),
        11 => Operation::Mod(ops[0], ops[1], ops[2]),
        12 => Operation::And(ops[0], ops[1], ops[2]),
        13 => Operation::Or(ops[0], ops[1], ops[2]),
        14 => Operation::Not(ops[0], ops[1]),
        15 => Operation::RMem(ops[0], ops[1]),
        16 => Operation::WMem(ops[0], ops[1]),
        17 => Operation::Call(ops[0]),
        18 => Operation::Ret,
        19 => Operation::Out(ops[0]),
        _ => Operation::Noop,
    }
}

/// The number of operands of an opcode; `None` for an opcode outside the table.
pub fn arity_of(opcode: u16) -> (r: Option<usize>)
    ensures
        r == arity(opcode),
{
    match opcode {
        0 | 18 | 21 => Some(0),
        2 | 3 | 6 | 17 | 19 => Some(1),
        1 | 7 | 8 | 14 | 15 | 16 => Some(2),
        4 | 5 | 9 | 10 | 11 | 12 | 13 => Some(3),
        _ => None,
    }
}

/// Builds the instruction for an opcode from its decoded operands.
pub fn assemble_operation(opcode: u16, ops: &Vec<Operand>) -> (r: Operation)
    requires
        arity(opcode) == Some(ops@.len() as usize),
    ensures
        r == assemble(opcode, ops@),
{
    match opcode {
        0 => Operation::Halt,
        1 => Operation::Assign(ops[0], ops[1]),
        2 => Operation::Push(ops[0]),
        3 => Operation::Pop(ops[0]),
        4 => Operation::Eq(ops[0], ops[1], ops[2]),
        5 => Operation::Gt(ops[0], ops[1], ops[2]),
        6 => Operation::Jump(ops[0]),
        7 => Operation::Jt(ops[0], ops[1]),
        8 => Operation::Jf(ops[0], ops[1]),
        9 => Operation::Add(ops[0], ops[1], ops[2]),
        10 => Operation::Mult(ops[0], ops[1], ops[2]),
        11 => Operation::Mod(ops[0], ops[1], ops[2]),
        12 => Operation::And(ops[0], ops[1], ops[2]),
        13 => Operation::Or(ops[0], ops[1], ops[2]),
        14 => Operation::Not(ops[0], ops[1]),
        15 => Operation::RMem(ops[0], ops[1]),
        16 => Operation::WMem(ops[0], ops[1]),
        17 => Operation::Call(ops[0]),
        18 => Operation::Ret,
        19 => Operation::Out(ops[0]),
        _ => Operation::Noop,
    }
}

/// Reduces a mathematical integer into the machine's ring of 32768 values.
pub open spec fn wrap(x: int) -> u16 {
    (x % 32768) as u16
}

/// The 15-bit complement of a value: `32767 - x` for every value `x`
/// below 32768, and that of `x mod 32768` for a larger word.
pub open spec fn complement(x: u16) -> u16 {
    (32767 - x % 32768) as u16
}

/// `(b + c) mod 32768`.
pub fn add_words(b: u16, c: u16) -> (r: u16)
    ensures
        r == wrap(b + c),
{
    ((b as u32 + c as u32) % 32768) as u16
}

/// `(b * c) mod 32768`, computed from the product truncated to 16 bits:
/// since 32768 divides 65536, the truncation does not change the result.
pub fn mult_words(b: u16, c: u16) -> (r: u16)
    ensures
        r == wrap(b * c),
{
    let p = b.wrapping_mul(c);
    proof {
        lemma_mod_mod(b * c, 32768, 2);
    }
    p % MAX_NUM
}

/// `(b mod c) mod 32768`, for a non-zero divisor.
pub fn mod_words(b: u16, c: u16) -> (r: u16)
    requires
        c != 0,
    ensures
        r == wrap((b % c) as int),
{
    (b % c) % MAX_NUM
}

/// `(b AND c) mod 32768`.
pub fn and_words(b: u16, c: u16) -> (r: u16)
    ensures
        r == wrap((b & c) as int),
{
    (b & c) % MAX_NUM
}

/// `(b OR c) mod 32768`.
pub fn or_words(b: u16, c: u16) -> (r: u16)
    ensures
        r == wrap((b | c) as int),
{
    (b | c) % MAX_NUM
}

/// The 15-bit complement, computed as the 16-bit complement reduced mod 32768.
pub fn not_word(b: u16) -> (r: u16)
    ensures
        r == complement(b),
{
    let r = (!b) % MAX_NUM;
    assert(r == (32767 - b % 32768) as u16) by (bit_vector)
        requires
            r == (!b) % 32768,
    ;
    r
}

} // verus!
