//! The machine: its state, the loader, the decoder and the executor.
use crate::isa::{
    add_words, and_words, arity, arity_of, assemble, assemble_operation, complement, mod_words,
    mult_words, not_word, operand_of, or_words, wrap, ErrorKind, Operand, Operation, MEM_SIZE,
    NUM_REGISTERS,
};
use crate::prims::{char_from_code, is_scalar, le_word, read_le_word};
use vstd::prelude::*;

verus! {

/// The state of a machine, as mathematical values.
pub struct VmModel {
    pub memory: Seq<u16>,
    pub registers: Seq<u16>,
    pub stack: Seq<u16>,
    pub pc: u16,
}

/// The operands decoded from the `n` words of memory that start at `start`,
/// or the error of the first of those words that is no operand.
pub open spec fn operands(memory: Seq<u16>, start: int, n: nat) -> Result<Seq<Operand>, ErrorKind>
    decreases n,
{
    if n == 0 {
        Ok(Seq::empty())
    } else {
        match operands(memory, start, (n - 1) as nat) {
            Err(e) => Err(e),
            Ok(ops) => match operand_word(memory, start + n - 1) {
                Err(e) => Err(e),
                Ok(o) => Ok(ops.push(o)),
            },
        }
    }
}

/// Once decoding the operands fails, decoding more of them fails alike.
proof fn lemma_operands_err(memory: Seq<u16>, start: int, i: nat, n: nat)
    requires
        i <= n,
        operands(memory, start, i) is Err,
    ensures
        operands(memory, start, n) == operands(memory, start, i),
    decreases n - i,
{
    if i < n {
        lemma_operands_err(memory, start, i, (n - 1) as nat);
    }
}

/// Decoded operands name literal values or existing registers.
proof fn lemma_operands_wf(memory: Seq<u16>, start: int, n: nat)
    requires
        operands(memory, start, n) is Ok,
    ensures
        operands(memory, start, n)->Ok_0.len() == n,
        forall|j: int| 0 <= j < n ==> (#[trigger] operands(memory, start, n)->Ok_0[j]).wf(),
    decreases n,
{
    if n > 0 {
        lemma_operands_wf(memory, start, (n - 1) as nat);
    }
}

/// The operand that the word at `addr` denotes.
pub open spec fn operand_word(memory: Seq<u16>, addr: int) -> Result<Operand, ErrorKind> {
    if 0 <= addr < memory.len() {
        match operand_of(memory[addr]) {
            Some(o) => Ok(o),
            None => Err(ErrorKind::InvalidOperand),
        }
    } else {
        Err(ErrorKind::AddressOutOfRange)
    }
}

/// The memory image of a program: its little-endian words from address 0,
/// and zero beyond them.
pub open spec fn image(program: Seq<u8>) -> Seq<u16> {
    Seq::new(
        MEM_SIZE as nat,
        |i: int|
            if i < program.len() / 2 {
                le_word(program[2 * i], program[2 * i + 1])
            } else {
                0u16
            },
    )
}

impl VmModel {
    /// Memory and registers have their fixed sizes.
    pub open spec fn wf(self) -> bool {
        &&& self.memory.len() == MEM_SIZE
        &&& self.registers.len() == NUM_REGISTERS
    }

    /// A machine just made: all words zero, the stack empty, the counter at 0.
    pub open spec fn initial() -> VmModel {
        VmModel {
            memory: Seq::new(MEM_SIZE as nat, |i: int| 0u16),
            registers: Seq::new(NUM_REGISTERS as nat, |i: int| 0u16),
            stack: Seq::empty(),
            pc: 0,
        }
    }

    /// The value an operand reads: a literal its own number, a register its
    /// contents.
    pub open spec fn value(self, o: Operand) -> u16 {
        match o {
            Operand::Literal(n) => n as u16,
            Operand::Register(r) => self.registers[r as int],
        }
    }

    /// The state after writing `v` to an operand taken as a target: a literal
    /// names a memory address, a register itself.
    pub open spec fn store(self, o: Operand, v: u16) -> VmModel {
        match o {
            Operand::Literal(n) => VmModel { memory: self.memory.update(n as int, v), ..self },
            Operand::Register(r) => VmModel { registers: self.registers.update(r as int, v), ..self },
        }
    }

    /// The same state with another program counter.
    pub open spec fn with_pc(self, pc: u16) -> VmModel {
        VmModel { pc, ..self }
    }

    /// The instruction at the program counter, with the address that
    /// follows its last word; or the error that stops its decoding.
    pub open spec fn decode(self) -> Result<(Operation, u16), ErrorKind> {
        if self.pc >= self.memory.len() {
            Err(ErrorKind::AddressOutOfRange)
        } else {
            let opcode = self.memory[self.pc as int];
            match arity(opcode) {
                None => Err(ErrorKind::InvalidOpcode),
                Some(n) => match operands(self.memory, self.pc + 1, n as nat) {
                    Err(e) => Err(e),
                    Ok(ops) => Ok((assemble(opcode, ops), (self.pc + 1 + n) as u16)),
                },
            }
        }
    }
}

/// What a step that did not fail brings about.
#[derive(Debug, Clone, Copy, PartialEq, Eq, Structural)]
pub enum Event {
    /// The instruction had no visible effect; the run goes on.
    Continue,
    /// The instruction emitted a character; the run goes on.
    Output(char),
    /// The instruction was `Halt`; the run is over.
    Halted,
}

/// A fatal condition, with the address of the instruction that raised it.
#[derive(Debug, Clone, Copy, PartialEq, Eq, Structural)]
pub struct Fault {
    pub kind: ErrorKind,
    pub pc: u16,
}

/// How a bounded run ended.
#[derive(Debug, Clone, Copy, PartialEq, Eq, Structural)]
pub enum Status {
    /// A `Halt` instruction was executed.
    Halted,
    /// A fatal condition stopped the run.
    Faulted(Fault),
    /// The step budget ran out before the machine halted.
    Running,
}

/// What a bounded run produced: the characters it emitted, in order, and
/// how it ended.
pub struct Run {
    pub output: Vec<char>,
    pub status: Status,
}

impl VmModel {
    /// Applies an instruction to a state whose program counter is already
    /// past it: the new state and the event, or the fatal condition.
    pub open spec fn apply(self, op: Operation) -> Result<(VmModel, Event), ErrorKind> {
        match op {
            Operation::Halt => Ok((self, Event::Halted)),
            Operation::Assign(a, b) => Ok((self.store(a, self.value(b)), Event::Continue)),
            Operation::Push(a) => Ok(
                (VmModel { stack: self.stack.push(self.value(a)), ..self }, Event::Continue),
            ),
            Operation::Pop(a) => if self.stack.len() == 0 {
                Err(ErrorKind::StackUnderflow)
            } else {
                Ok(
                    (
                        VmModel { stack: self.stack.drop_last(), ..self }.store(a, self.stack.last()),
                        Event::Continue,
                    ),
                )
            },
            Operation::Eq(a, b, c) => Ok(
                (
                    self.store(a, if self.value(b) == self.value(c) { 1u16 } else { 0u16 }),
                    Event::Continue,
                ),
            ),
            Operation::Gt(a, b, c) => Ok(
                (
                    self.store(a, if self.value(b) > self.value(c) { 1u16 } else { 0u16 }),
                    Event::Continue,
                ),
            ),
            Operation::Jump(a) => Ok((self.with_pc(self.value(a)), Event::Continue)),
            Operation::Jt(a, b) => Ok(
                (if self.value(a) != 0 { self.with_pc(self.value(b)) } else { self }, Event::Continue),
            ),
            Operation::Jf(a, b) => Ok(
                (if self.value(a) == 0 { self.with_pc(self.value(b)) } else { self }, Event::Continue),
            ),
            Operation::Add(a, b, c) => Ok(
                (self.store(a, wrap(self.value(b) + self.value(c))), Event::Continue),
            ),
            Operation::Mult(a, b, c) => Ok(
                (self.store(a, wrap(self.value(b) * self.value(c))), Event::Continue),
            ),
            Operation::Mod(a, b, c) => if self.value(c) == 0 {
                Err(ErrorKind::DivisionByZero)
            } else {
                Ok((self.store(a, wrap((self.value(b) % self.value(c)) as int)), Event::Continue))
            },
            Operation::And(a, b, c) => Ok(
                (self.store(a, wrap((self.value(b) & self.value(c)) as int)), Event::Continue),
            ),
            Operation::Or(a, b, c) => Ok(
                (self.store(a, wrap((self.value(b) | self.value(c)) as int)), Event::Continue),
            ),
            Operation::Not(a, b) => Ok((self.store(a, complement(self.value(b))), Event::Continue)),
            Operation::RMem(a, b) => if self.value(b) < MEM_SIZE {
                Ok((self.store(a, self.memory[self.value(b) as int]), Event::Continue))
            } else {
                Err(ErrorKind::AddressOutOfRange)
            },
            Operation::WMem(a, b) => if self.value(a) < MEM_SIZE {
                Ok(
                    (
                        self.store(Operand::Literal(self.value(a) as usize), self.value(b)),
                        Event::Continue,
                    ),
                )
            } else {
                Err(ErrorKind::AddressOutOfRange)
            },
            Operation::Call(a) => Ok(
                (
                    VmModel { stack: self.stack.push(self.pc), pc: self.value(a), ..self },
                    Event::Continue,
                ),
            ),
            Operation::Ret => if self.stack.len() == 0 {
                Err(ErrorKind::StackUnderflow)
            } else {
                Ok(
                    (
                        VmModel { stack: self.stack.drop_last(), pc: self.stack.last(), ..self },
                        Event::Continue,
                    ),
                )
            },
            Operation::Out(a) => if is_scalar(self.value(a) as u32) {
                Ok((self, Event::Output((self.value(a) as u32) as char)))
            } else {
                Err(ErrorKind::InvalidCodepoint)
            },
            Operation::Noop => Ok((self, Event::Continue)),
        }
    }

    /// One step: decode the instruction at the program counter and apply
    /// it. A fatal condition carries the address of that instruction.
    pub open spec fn step(self) -> Result<(VmModel, Event), Fault> {
        match self.decode() {
            Err(kind) => Err(Fault { kind, pc: self.pc }),
            Ok((op, after)) => match self.with_pc(after).apply(op) {
                Err(kind) => Err(Fault { kind, pc: self.pc }),
                Ok(next) => Ok(next),
            },
        }
    }

    /// Up to `fuel` steps from this state: the state reached, the
    /// characters emitted, and how the run ended. A faulting step leaves the
    /// state as it was before it.
    pub open spec fn run(self, fuel: nat) -> (VmModel, Seq<char>, Status)
        decreases fuel,
    {
        if fuel == 0 {
            (self, Seq::empty(), Status::Running)
        } else {
            match self.step() {
                Err(f) => (self, Seq::empty(), Status::Faulted(f)),
                Ok((next, Event::Halted)) => (next, Seq::empty(), Status::Halted),
                Ok((next, Event::Output(c))) => {
                    let rest = next.run((fuel - 1) as nat);
                    (rest.0, seq![c] + rest.1, rest.2)
                },
                Ok((next, Event::Continue)) => next.run((fuel - 1) as nat),
            }
        }
    }
}

/// A machine: 32768 words of memory, eight registers, a stack and a program
/// counter.
pub struct VM {
    memory: Vec<u16>,
    registers: Vec<u16>,
    stack: Vec<u16>,
    pc: u16,
}

impl View for VM {
    type V = VmModel;

    closed spec fn view(&self) -> VmModel {
        VmModel {
            memory: self.memory@,
            registers: self.registers@,
            stack: self.stack@,
            pc: self.pc,
        }
    }
}

impl VM {
    /// The machine is well formed: memory and registers have their sizes.
    pub open spec fn wf(&self) -> bool {
        self@.wf()
    }

    /// A machine with zeroed memory and registers, an empty stack and the
    /// program counter at 0.
    pub fn new() -> (r: VM)
        ensures
            r.wf(),
            r@ == VmModel::initial(),
    {
        let r = VM {
            memory: vec![0u16; MEM_SIZE],
            registers: vec![0u16; NUM_REGISTERS],
            stack: Vec::new(),
            pc: 0,
        };
        assert(r.memory@ =~= VmModel::initial().memory);
        assert(r.registers@ =~= VmModel::initial().registers);
        r
    }

    /// Loads a program image: its bytes, taken two by two as little-endian
    /// words, fill memory from address 0, and the rest of memory is zeroed.
    /// Registers, stack and program counter are left as they are. An odd
    /// number of bytes, or more words than memory holds, is refused and
    /// leaves the machine unchanged.
    pub fn load_memory(&mut self, program: Vec<u8>) -> (r: Result<(), ErrorKind>)
        requires
            old(self).wf(),
        ensures
            final(self).wf(),
            program@.len() % 2 == 1 ==> r == Err::<(), ErrorKind>(ErrorKind::MalformedProgram),
            program@.len() % 2 == 0 && program@.len() / 2 > MEM_SIZE ==> r == Err::<(), ErrorKind>(ErrorKind::ProgramTooLarge),
            r is Err ==> final(self)@ == old(self)@,
            r is Ok <==> program@.len() % 2 == 0 && program@.len() / 2 <= MEM_SIZE,
            r is Ok ==> final(self)@ == (VmModel { memory: image(program@), ..old(self)@ }),
    {
        let len = program.len();
        if len % 2 == 1 {
            return Err(ErrorKind::MalformedProgram);
        }
        let words = len / 2;
        if words > MEM_SIZE {
            return Err(ErrorKind::ProgramTooLarge);
        }
        let mut i: usize = 0;
        while i < MEM_SIZE
            invariant
                words <= MEM_SIZE,
                words * 2 == program@.len(),
                i <= MEM_SIZE,
                self.memory@.len() == MEM_SIZE,
                self.registers@ == old(self).registers@,
                self.stack@ == old(self).stack@,
                self.pc == old(self).pc,
                forall|j: int| 0 <= j < i ==> self.memory@[j] == #[trigger] image(program@)[j],
            decreases MEM_SIZE - i,
        {
            let w = if i < words {
                read_le_word(program[2 * i], program[2 * i + 1])
            } else {
                0
            };
            self.memory.set(i, w);
            i += 1;
        }
        assert(self.memory@ =~= image(program@));
        Ok(())
    }

    /// The program counter.
    pub fn pc(&self) -> (r: u16)
        ensures
            r == self@.pc,
    {
        self.pc
    }

    /// The contents of a register.
    pub fn register(&self, index: usize) -> (r: u16)
        requires
            self.wf(),
            index < NUM_REGISTERS,
        ensures
            r == self@.registers[index as int],
    {
        self.registers[index]
    }

    /// The word stored at a memory address.
    pub fn word(&self, addr: usize) -> (r: u16)
        requires
            self.wf(),
            addr < MEM_SIZE,
        ensures
            r == self@.memory[addr as int],
    {
        self.memory[addr]
    }

    /// The number of words on the stack.
    pub fn stack_depth(&self) -> (r: usize)
        ensures
            r == self@.stack.len(),
    {
        self.stack.len()
    }

    /// The value an operand reads.
    pub fn read(&self, operand: Operand) -> (r: u16)
        requires
            self.wf(),
            operand.wf(),
        ensures
            r == self@.value(operand),
    {
        match operand {
            Operand::Literal(n) => n as u16,
            Operand::Register(r) => self.registers[r],
        }
    }

    /// Writes a value to an operand taken as a target: a literal is a memory
    /// address, a register is itself.
    pub fn set(&mut self, address: Operand, value: u16)
        requires
            old(self).wf(),
            address.wf(),
        ensures
            final(self).wf(),
            final(self)@ == old(self)@.store(address, value),
    {
        match address {
            Operand::Literal(n) => self.memory.set(n, value),
            Operand::Register(r) => self.registers.set(r, value),
        }
    }

    /// Decodes the operand word at the program counter and moves past it.
    /// On an error the machine is left unchanged.
    pub fn parse_op(&mut self) -> (r: Result<Operand, ErrorKind>)
        requires
            old(self).wf(),
        ensures
            final(self).wf(),
            r == operand_word(old(self)@.memory, old(self)@.pc as int),
            r matches Ok(o) ==> o.wf() && final(self)@ == old(self)@.with_pc((old(self)@.pc + 1) as u16),
            r is Err ==> final(self)@ == old(self)@,
    {
        if self.pc as usize >= MEM_SIZE {
            return Err(ErrorKind::AddressOutOfRange);
        }
        let code = self.memory[self.pc as usize];
        match Operand::new(code) {
            Some(o) => {
                self.pc += 1;
                Ok(o)
            },
            None => Err(ErrorKind::InvalidOperand),
        }
    }

    /// Decodes the instruction at the program counter: its opcode word, then
    /// as many operand words as the opcode takes. On success the program
    /// counter is past the instruction; on an error the machine is left
    /// unchanged.
    pub fn parse_operation(&mut self) -> (r: Result<Operation, ErrorKind>)
        requires
            old(self).wf(),
        ensures
            final(self).wf(),
            match old(self)@.decode() {
                Ok((op, after)) => r == Ok::<Operation, ErrorKind>(op) && final(self)@ == old(self)@.with_pc(after),
                Err(e) => r == Err::<Operation, ErrorKind>(e) && final(self)@ == old(self)@,
            },
    {
        let start = self.pc;
        if start as usize >= MEM_SIZE {
            return Err(ErrorKind::AddressOutOfRange);
        }
        let opcode = self.memory[start as usize];
        let n = match arity_of(opcode) {
            Some(n) => n,
            None => return Err(ErrorKind::InvalidOpcode),
        };
        self.pc = start + 1;
        let mut ops: Vec<Operand> = Vec::new();
        let mut i: usize = 0;
        while i < n
            invariant
                n <= 3,
                arity(opcode) == Some(n),
                i <= n,
                ops@.len() == i,
                self.wf(),
                start < MEM_SIZE,
                opcode == old(self)@.memory[start as int],
                start == old(self)@.pc,
                self@ == old(self)@.with_pc((start + 1 + i) as u16),
                operands(old(self)@.memory, start + 1, i as nat) == Ok::<Seq<Operand>, ErrorKind>(ops@),
            decreases n - i,
        {
            match self.parse_op() {
                Ok(o) => ops.push(o),
                Err(e) => {
                    self.pc = start;
                    proof {
                        assert(self@ =~= old(self)@);
                        lemma_operands_err(old(self)@.memory, start + 1, (i + 1) as nat, n as nat);
                    }
                    return Err(e);
                },
            }
            i += 1;
        }
        Ok(assemble_operation(opcode, &ops))
    }

    /// Executes one instruction. On success the machine holds the state
    /// that the instruction brings about, and the result says whether it
    /// emitted a character or halted. On a fatal condition the machine is
    /// left as it was before the step, and the fault names the condition
    /// and the address of the instruction.
    pub fn step(&mut self) -> (r: Result<Event, Fault>)
        requires
            old(self).wf(),
        ensures
            final(self).wf(),
            match old(self)@.step() {
                Ok((next, event)) => r == Ok::<Event, Fault>(event) && final(self)@ == next,
                Err(f) => r == Err::<Event, Fault>(f) && final(self)@ == old(self)@,
            },
    {
        let start = self.pc;
        let op = match self.parse_operation() {
            Ok(op) => op,
            Err(kind) => return Err(Fault { kind, pc: start }),
        };
        proof {
            let opcode = old(self)@.memory[start as int];
            lemma_operands_wf(old(self)@.memory, start + 1, arity(opcode)->Some_0 as nat);
        }
        assert(op.wf());
        match op {
            Operation::Halt => Ok(Event::Halted),
            Operation::Assign(a, b) => {
                let b = self.read(b);
                self.set(a, b);
                Ok(Event::Continue)
            },
            Operation::Push(a) => {
                let a = self.read(a);
                self.stack.push(a);
                Ok(Event::Continue)
            },
            Operation::Pop(a) => match self.stack.pop() {
                None => {
                    self.pc = start;
                    Err(Fault { kind: ErrorKind::StackUnderflow, pc: start })
                },
                Some(value) => {
                    self.set(a, value);
                    Ok(Event::Continue)
                },
            },
            Operation::Eq(a, b, c) => {
                let b = self.read(b);
                let c = self.read(c);
                let value = if b == c { 1 } else { 0 };
                self.set(a, value);
                Ok(Event::Continue)
            },
            Operation::Gt(a, b, c) => {
                let b = self.read(b);
                let c = self.read(c);
                let value = if b > c { 1 } else { 0 };
                self.set(a, value);
                Ok(Event::Continue)
            },
            Operation::Jump(a) => {
                self.pc = self.read(a);
                Ok(Event::Continue)
            },
            Operation::Jt(a, b) => {
                let a = self.read(a);
                let b = self.read(b);
                if a != 0 {
                    self.pc = b;
                }
                Ok(Event::Continue)
            },
            Operation::Jf(a, b) => {
                let a = self.read(a);
                let b = self.read(b);
                if a == 0 {
                    self.pc = b;
                }
                Ok(Event::Continue)
            },
            Operation::Add(a, b, c) => {
                let b = self.read(b);
                let c = self.read(c);
                self.set(a, add_words(b, c));
                Ok(Event::Continue)
            },
            Operation::Mult(a, b, c) => {
                let b = self.read(b);
                let c = self.read(c);
                self.set(a, mult_words(b, c));
                Ok(Event::Continue)
            },
            Operation::Mod(a, b, c) => {
                let b = self.read(b);
                let c = self.read(c);
                if c == 0 {
                    self.pc = start;
                    return Err(Fault { kind: ErrorKind::DivisionByZero, pc: start });
                }
                self.set(a, mod_words(b, c));
                Ok(Event::Continue)
            },
            Operation::And(a, b, c) => {
                let b = self.read(b);
                let c = self.read(c);
                self.set(a, and_words(b, c));
                Ok(Event::Continue)
            },
            Operation::Or(a, b, c) => {
                let b = self.read(b);
                let c = self.read(c);
                self.set(a, or_words(b, c));
                Ok(Event::Continue)
            },
            Operation::Not(a, b) => {
                let b = self.read(b);
                self.set(a, not_word(b));
                Ok(Event::Continue)
            },
            Operation::RMem(a, b) => {
                let b = self.read(b);
                if b as usize >= MEM_SIZE {
                    self.pc = start;
                    return Err(Fault { kind: ErrorKind::AddressOutOfRange, pc: start });
                }
                let value = self.memory[b as usize];
                self.set(a, value);
                Ok(Event::Continue)
            },
            Operation::WMem(a, b) => {
                let b = self.read(b);
                let addr = self.read(a);
                if addr as usize >= MEM_SIZE {
                    self.pc = start;
                    return Err(Fault { kind: ErrorKind::AddressOutOfRange, pc: start });
                }
                self.set(Operand::Literal(addr as usize), b);
                Ok(Event::Continue)
            },
            Operation::Call(a) => {
                let a = self.read(a);
                self.stack.push(self.pc);
                self.pc = a;
                Ok(Event::Continue)
            },
            Operation::Ret => match self.stack.pop() {
                None => {
                    self.pc = start;
                    Err(Fault { kind: ErrorKind::StackUnderflow, pc: start })
                },
                Some(address) => {
                    self.pc = address;
                    Ok(Event::Continue)
                },
            },
            Operation::Out(a) => {
                let a = self.read(a) as u32;
                match char_from_code(a) {
                    Some(c) => Ok(Event::Output(c)),
                    None => {
                        self.pc = start;
                        Err(Fault { kind: ErrorKind::InvalidCodepoint, pc: start })
                    },
                }
            },
            Operation::Noop => Ok(Event::Continue),
        }
    }

    /// Runs until the machine halts or faults, or until `max_steps` steps
    /// have been taken, and returns the characters emitted on the way with
    /// how the run ended. The machine keeps the state reached; after a
    /// fault that is the state before the faulting instruction.
    pub fn execute(&mut self, max_steps: u64) -> (r: Run)
        requires
            old(self).wf(),
        ensures
            final(self).wf(),
            (final(self)@, r.output@, r.status) == old(self)@.run(max_steps as nat),
    {
        let mut output: Vec<char> = Vec::new();
        let mut steps: u64 = 0;
        while steps < max_steps
            invariant
                self.wf(),
                steps <= max_steps,
                self@.run((max_steps - steps) as nat).0 == old(self)@.run(max_steps as nat).0,
                output@ + self@.run((max_steps - steps) as nat).1 == old(self)@.run(max_steps as nat).1,
                self@.run((max_steps - steps) as nat).2 == old(self)@.run(max_steps as nat).2,
            decreases max_steps - steps,
        {
            let ghost before = self@;
            let ghost left = (max_steps - steps) as nat;
            match self.step() {
                Err(f) => {
                    assert(output@ + Seq::<char>::empty() =~= output@);
                    return Run { output, status: Status::Faulted(f) };
                },
                Ok(Event::Halted) => {
                    assert(output@ + Seq::<char>::empty() =~= output@);
                    return Run { output, status: Status::Halted };
                },
                Ok(Event::Output(c)) => {
                    let ghost rest = self@.run((left - 1) as nat);
                    assert(output@.push(c) + rest.1 =~= output@ + (seq![c] + rest.1));
                    output.push(c);
                },
                Ok(Event::Continue) => {},
            }
            steps += 1;
        }
        assert(output@ + Seq::<char>::empty() =~= output@);
        Run { output, status: Status::Running }
    }
}

} // verus!
