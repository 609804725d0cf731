use vstd::prelude::*;
use crate::opcode::{AddressingMode, Mnemonic, OpCode, OpcodeTable, standard_opcode};

verus! {

/// Size of the address space in bytes.
pub const MEMORY_SIZE: usize = 0x10000;

/// First address of the program ROM.
pub const PROGRAM_START: u16 = 0x8000;

/// Address of the little-endian reset vector.
pub const RESET_VECTOR: u16 = 0xFFFC;

/// Why execution stopped without reaching a break instruction.
#[derive(Clone, Copy, Debug, PartialEq, Eq, Structural)]
pub enum CpuError {
    /// The byte at `address` has no entry in the opcode table.
    UnrecognizedOpcode { opcode: u8, address: u16 },
    /// The opcode at `address` reads an operand but its metadata gives no
    /// addressing mode.
    UnsupportedMode { opcode: u8, address: u16 },
    /// The instruction at `address` runs past the top of the address space.
    EndOfMemory { opcode: u8, address: u16 },
    /// The program image does not fit in the ROM region.
    ProgramTooLarge { len: usize },
}

/// What a single executed instruction leaves the processor doing.
#[derive(Clone, Copy, Debug, PartialEq, Eq, Structural)]
pub enum Flow {
    Continue,
    Halt,
}

/// Little-endian 16-bit value at `address` and the byte after it.
pub open spec fn read16(mem: Seq<u8>, address: u16) -> int {
    mem[address as int] + 256 * mem[((address as int + 1) % 0x10000)]
}

/// Whether an instruction in `mode` reads or writes an operand in memory.
pub open spec fn has_operand(mode: AddressingMode) -> bool {
    mode != AddressingMode::NoneAddressing
}

/// The effective address of an operand in `mode`, when the operand bytes of
/// the instruction start at `at`.
pub open spec fn operand_address(mem: Seq<u8>, at: u16, x: u8, y: u8, mode: AddressingMode) -> u16 {
    match mode {
        AddressingMode::Immediate => at,
        AddressingMode::ZeroPage => mem[at as int] as u16,
        AddressingMode::ZeroPageX => ((mem[at as int] + x) % 256) as u16,
        AddressingMode::ZeroPageY => ((mem[at as int] + y) % 256) as u16,
        AddressingMode::Absolute => read16(mem, at) as u16,
        AddressingMode::AbsoluteX => ((read16(mem, at) + x) % 0x10000) as u16,
        AddressingMode::AbsoluteY => ((read16(mem, at) + y) % 0x10000) as u16,
        AddressingMode::IndirectX => {
            let ptr = (mem[at as int] + x) % 256;
            (mem[ptr] + 256 * mem[(ptr + 1) % 256]) as u16
        },
        AddressingMode::IndirectY => {
            let base = mem[at as int] as int;
            ((mem[base] + 256 * mem[(base + 1) % 256] + y) % 0x10000) as u16
        },
        AddressingMode::NoneAddressing => 0,
    }
}

/// `after` is `before` with Zero set exactly when `v` is zero, Negative set
/// exactly when bit 7 of `v` is set, and every other flag kept.
pub open spec fn zero_negative_updated(before: u8, after: u8, v: u8) -> bool {
    &&& (after & 0x02 != 0) == (v == 0)
    &&& (after & 0x80 != 0) == (v & 0x80 != 0)
    &&& after & 0x7D == before & 0x7D
}

/// The 6502 processor: registers, status flags, program counter, the full
/// 64 KiB memory and the opcode table it decodes with.
pub struct CPU {
    pub register_a: u8,
    pub register_x: u8,
    pub register_y: u8,
    pub status: u8,
    pub program_counter: u16,
    pub memory: Vec<u8>,
    pub opcodes: OpcodeTable,
}

impl CPU {
    /// The contents of memory, one byte per address.
    pub open spec fn mem(&self) -> Seq<u8> {
        self.memory@
    }

    /// The opcode table the processor decodes with.
    pub open spec fn table(&self) -> OpcodeTable {
        self.opcodes
    }

    /// Memory spans the whole address space and the opcode table is well formed.
    pub open spec fn wf(&self) -> bool {
        &&& self.mem().len() == 0x10000
        &&& self.table().wf()
    }

    /// The byte at `address`.
    pub open spec fn byte(&self, address: int) -> u8 {
        self.mem()[address]
    }

    /// The effective address of an operand in `mode` whose bytes start at `at`.
    pub open spec fn operand_at(&self, at: u16, mode: AddressingMode) -> u16 {
        operand_address(self.mem(), at, self.register_x, self.register_y, mode)
    }

    /// X, Y, memory and the opcode table agree.
    pub open spec fn same_except_a_status(&self, other: &CPU) -> bool {
        &&& self.register_x == other.register_x
        &&& self.register_y == other.register_y
        &&& self.mem() == other.mem()
        &&& self.table() == other.table()
    }

    /// Load Accumulator: `post` is `pre` after loading the operand in `mode`
    /// (bytes at `at`) into the accumulator.
    pub open spec fn lda_effect(pre: &CPU, post: &CPU, mode: AddressingMode, at: u16) -> bool {
        let v = pre.byte(pre.operand_at(at, mode) as int);
        &&& post.register_a == v
        &&& zero_negative_updated(pre.status, post.status, v)
        &&& post.same_except_a_status(pre)
    }

    /// Store Accumulator: only the operand's byte changes, to the accumulator.
    pub open spec fn sta_effect(pre: &CPU, post: &CPU, mode: AddressingMode, at: u16) -> bool {
        &&& post.mem() == pre.mem().update(pre.operand_at(at, mode) as int, pre.register_a)
        &&& post.register_a == pre.register_a
        &&& post.register_x == pre.register_x
        &&& post.register_y == pre.register_y
        &&& post.status == pre.status
        &&& post.table() == pre.table()
    }

    /// Transfer Accumulator to X.
    pub open spec fn tax_effect(pre: &CPU, post: &CPU) -> bool {
        &&& post.register_x == pre.register_a
        &&& zero_negative_updated(pre.status, post.status, pre.register_a)
        &&& post.register_a == pre.register_a
        &&& post.register_y == pre.register_y
        &&& post.mem() == pre.mem()
        &&& post.table() == pre.table()
    }

    /// Increment X, wrapping at 8 bits.
    pub open spec fn inx_effect(pre: &CPU, post: &CPU) -> bool {
        let v = ((pre.register_x + 1) % 256) as u8;
        &&& post.register_x == v
        &&& zero_negative_updated(pre.status, post.status, v)
        &&& post.register_a == pre.register_a
        &&& post.register_y == pre.register_y
        &&& post.mem() == pre.mem()
        &&& post.table() == pre.table()
    }

    /// Add with Carry: accumulator plus operand plus the carry flag, with
    /// Carry, Overflow, Zero and Negative computed from the sum and every
    /// other flag kept.
    pub open spec fn adc_effect(pre: &CPU, post: &CPU, mode: AddressingMode, at: u16) -> bool {
        let a = pre.register_a;
        let m = pre.byte(pre.operand_at(at, mode) as int);
        let sum = a + m + (pre.status & 0x01);
        let r = (sum % 256) as u8;
        &&& post.register_a == r
        &&& (post.status & 0x01 != 0) == (sum > 255)
        &&& (post.status & 0x40 != 0) == ((a & 0x80) == (m & 0x80) && (r & 0x80) != (a & 0x80))
        &&& (post.status & 0x02 != 0) == (r == 0)
        &&& (post.status & 0x80 != 0) == (r & 0x80 != 0)
        &&& post.status & 0x3C == pre.status & 0x3C
        &&& post.same_except_a_status(pre)
    }

    /// Force Interrupt: sets the Break flag and nothing else.
    pub open spec fn brk_effect(pre: &CPU, post: &CPU) -> bool {
        &&& post.status == pre.status | 0x10
        &&& post.register_a == pre.register_a
        &&& post.same_except_a_status(pre)
    }

    /// The effect of executing `op` whose operand bytes start at `at`, the
    /// program counter aside.
    pub open spec fn instruction_effect(pre: &CPU, post: &CPU, op: OpCode, at: u16) -> bool {
        match op.mnemonic {
            Mnemonic::Adc => CPU::adc_effect(pre, post, op.mode, at),
            Mnemonic::Brk => CPU::brk_effect(pre, post),
            Mnemonic::Inx => CPU::inx_effect(pre, post),
            Mnemonic::Lda => CPU::lda_effect(pre, post, op.mode, at),
            Mnemonic::Sta => CPU::sta_effect(pre, post, op.mode, at),
            Mnemonic::Tax => CPU::tax_effect(pre, post),
        }
    }

    /// Whether instructions of mnemonic `m` read or write an operand in memory.
    pub open spec fn reads_operand(m: Mnemonic) -> bool {
        m == Mnemonic::Adc || m == Mnemonic::Lda || m == Mnemonic::Sta
    }

    /// The opcode byte at the program counter.
    pub open spec fn current_code(&self) -> u8 {
        self.byte(self.program_counter as int)
    }

    /// The metadata of the opcode at the program counter.
    pub open spec fn current_op(&self) -> OpCode {
        self.table().entries()[self.current_code()]
    }

    /// The error that stops the instruction at the program counter, if any.
    pub open spec fn decode_error(&self) -> Option<CpuError> {
        let pc = self.program_counter;
        let code = self.current_code();
        if !self.table().entries().contains_key(code) {
            Some(CpuError::UnrecognizedOpcode { opcode: code, address: pc })
        } else if CPU::reads_operand(self.current_op().mnemonic) && !has_operand(self.current_op().mode) {
            Some(CpuError::UnsupportedMode { opcode: code, address: pc })
        } else if pc + self.current_op().len > 0xFFFF {
            Some(CpuError::EndOfMemory { opcode: code, address: pc })
        } else {
            None
        }
    }

    /// One fetch-decode-execute step from `pre` gives `post` and `r`: a
    /// failed decode changes nothing; otherwise the instruction takes effect
    /// with its operand bytes right after the opcode, the program counter
    /// moves past the whole instruction, and a break halts.
    pub open spec fn step_result(pre: &CPU, post: &CPU, r: Result<Flow, CpuError>) -> bool {
        match pre.decode_error() {
            Some(e) => r == Err::<Flow, CpuError>(e) && *post == *pre,
            None => {
                let op = pre.current_op();
                &&& CPU::instruction_effect(pre, post, op, (pre.program_counter + 1) as u16)
                &&& post.program_counter == pre.program_counter + op.len
                &&& r == Ok::<Flow, CpuError>(if op.mnemonic == Mnemonic::Brk { Flow::Halt } else { Flow::Continue })
            },
        }
    }

    /// Step `i` of `trace` continues execution.
    pub open spec fn continues(trace: Seq<CPU>, i: int) -> bool {
        CPU::step_result(&trace[i], &trace[i + 1], Ok(Flow::Continue))
    }

    /// `trace` is a run from `start` to `end` ending with `r`: every step but
    /// the last continues, and the last halts on a break or fails with the
    /// error of `r`.
    pub open spec fn is_run(start: CPU, end: CPU, trace: Seq<CPU>, r: Result<(), CpuError>) -> bool {
        &&& trace.len() >= 2
        &&& trace[0] == start
        &&& trace.last() == end
        &&& forall|i: int| 0 <= i < trace.len() - 2 ==> #[trigger] CPU::continues(trace, i)
        &&& match r {
            Ok(_) => CPU::step_result(&trace[trace.len() - 2], &end, Ok(Flow::Halt)),
            Err(e) => CPU::step_result(&trace[trace.len() - 2], &end, Err(e)),
        }
    }

    /// `mem` after loading `program` at the start of the ROM; when the image
    /// does not reach the reset vector, the vector is set to the ROM start.
    pub open spec fn loaded_memory(mem: Seq<u8>, program: Seq<u8>) -> Seq<u8> {
        Seq::new(
            mem.len(),
            |i: int|
                if 0x8000 <= i < 0x8000 + program.len() {
                    program[i - 0x8000]
                } else if program.len() <= 0x7FFC && i == 0xFFFC {
                    0x00u8
                } else if program.len() <= 0x7FFC && i == 0xFFFD {
                    0x80u8
                } else {
                    mem[i]
                },
        )
    }

    /// `s` is `pre` after loading `program` and a reset.
    pub open spec fn is_started(pre: CPU, program: Seq<u8>, s: CPU) -> bool {
        &&& s.mem() == CPU::loaded_memory(pre.mem(), program)
        &&& s.register_a == 0
        &&& s.register_x == 0
        &&& s.register_y == 0
        &&& s.status == 0
        &&& s.program_counter == read16(s.mem(), 0xFFFC)
        &&& s.table() == pre.table()
    }

    /// Loading `program` into `pre`, resetting and running ends in `post`
    /// with `r`.
    pub open spec fn runs_from_load(pre: CPU, program: Seq<u8>, post: CPU, r: Result<(), CpuError>) -> bool {
        exists|s: CPU, trace: Seq<CPU>| CPU::is_started(pre, program, s) && #[trigger] CPU::is_run(s, post, trace, r)
    }

    /// The error for an opcode byte `opcode` at `address` that the table
    /// does not hold.
    pub open spec fn unrecognized(opcode: u8, address: u16) -> Result<Flow, CpuError> {
        Err(CpuError::UnrecognizedOpcode { opcode, address })
    }

    /// The error for a program image of `len` bytes.
    pub open spec fn too_large(len: usize) -> Result<(), CpuError> {
        Err(CpuError::ProgramTooLarge { len })
    }

    /// A processor with zeroed registers and memory that decodes with `opcodes`.
    pub fn with_opcodes(opcodes: OpcodeTable) -> (cpu: CPU)
        requires
            opcodes.wf(),
        ensures
            cpu.wf(),
            cpu.register_a == 0,
            cpu.register_x == 0,
            cpu.register_y == 0,
            cpu.status == 0,
            cpu.program_counter == 0,
            forall|i: int| 0 <= i < 0x10000 ==> #[trigger] cpu.byte(i) == 0,
            cpu.table() == opcodes,
    {
        let mut memory: Vec<u8> = Vec::new();
        while memory.len() < MEMORY_SIZE
            invariant
                memory.len() <= MEMORY_SIZE,
                forall|i: int| 0 <= i < memory.len() ==> #[trigger] memory@[i] == 0,
            decreases MEMORY_SIZE - memory.len(),
        {
            memory.push(0);
        }
        CPU { register_a: 0, register_x: 0, register_y: 0, status: 0, program_counter: 0, memory, opcodes }
    }

    /// A processor with zeroed registers and memory that decodes with the
    /// standard opcode table.
    pub fn new() -> (cpu: CPU)
        ensures
            cpu.wf(),
            cpu.register_a == 0,
            cpu.register_x == 0,
            cpu.register_y == 0,
            cpu.status == 0,
            cpu.program_counter == 0,
            forall|i: int| 0 <= i < 0x10000 ==> #[trigger] cpu.byte(i) == 0,
            forall|k: u8| #[trigger] cpu.table().entries().contains_key(k) == standard_opcode(k).is_some(),
            forall|k: u8| cpu.table().entries().contains_key(k) ==> Some(#[trigger] cpu.table().entries()[k]) == standard_opcode(k),
    {
        CPU::with_opcodes(OpcodeTable::standard())
    }

    /// The byte stored at `address`.
    pub fn memory_read(&self, address: u16) -> (r: u8)
        requires
            self.wf(),
        ensures
            r == self.byte(address as int),
    {
        self.memory[address as usize]
    }

    /// Stores `data` at `address`.
    pub fn memory_write(&mut self, address: u16, data: u8)
        requires
            old(self).wf(),
        ensures
            final(self).wf(),
            final(self).mem() == old(self).mem().update(address as int, data),
            final(self).register_a == old(self).register_a,
            final(self).register_x == old(self).register_x,
            final(self).register_y == old(self).register_y,
            final(self).status == old(self).status,
            final(self).program_counter == old(self).program_counter,
            final(self).table() == old(self).table(),
    {
        self.memory[address as usize] = data;
    }

    /// The little-endian 16-bit value at `position`; the byte after the top
    /// of the address space is the one at address zero.
    pub fn memory_read_u16(&self, position: u16) -> (r: u16)
        requires
            self.wf(),
        ensures
            r as int == read16(self.mem(), position),
    {
        let lsb = self.memory_read(position) as u16;
        let msb = self.memory_read(position.wrapping_add(1)) as u16;
        msb * 256 + lsb
    }

    /// Stores `data` little-endian at `position` and the byte after it.
    pub fn memory_write_u16(&mut self, position: u16, data: u16)
        requires
            old(self).wf(),
        ensures
            final(self).wf(),
            final(self).mem() == old(self).mem().update(position as int, (data % 256) as u8).update(
                (position as int + 1) % 0x10000,
                (data / 256) as u8,
            ),
            final(self).register_a == old(self).register_a,
            final(self).register_x == old(self).register_x,
            final(self).register_y == old(self).register_y,
            final(self).status == old(self).status,
            final(self).program_counter == old(self).program_counter,
            final(self).table() == old(self).table(),
    {
        let lsb = (data % 256) as u8;
        let msb = (data / 256) as u8;
        self.memory_write(position, lsb);
        self.memory_write(position.wrapping_add(1), msb);
    }

    /// The little-endian pointer stored in the zero page at `ptr` and the
    /// byte after it, wrapping within the zero page.
    fn zero_page_pointer(&self, ptr: u8) -> (r: u16)
        requires
            self.wf(),
        ensures
            r as int == self.byte(ptr as int) + 256 * self.byte((ptr as int + 1) % 256),
    {
        let lsb = self.memory_read(ptr as u16) as u16;
        let msb = self.memory_read(ptr.wrapping_add(1) as u16) as u16;
        msb * 256 + lsb
    }

    /// The effective address of the operand in `mode` whose bytes start at
    /// the program counter.
    #[verifier::spinoff_prover]
    pub fn get_operand_address(&self, mode: AddressingMode) -> (r: u16)
        requires
            self.wf(),
            has_operand(mode),
        ensures
            r == self.operand_at(self.program_counter, mode),
    {
        let pc = self.program_counter;
        match mode {
            AddressingMode::Immediate => pc,
            AddressingMode::ZeroPage => self.memory_read(pc) as u16,
            AddressingMode::Absolute => self.memory_read_u16(pc),
            AddressingMode::ZeroPageX => {
                let position = self.memory_read(pc);
                position.wrapping_add(self.register_x) as u16
            },
            AddressingMode::ZeroPageY => {
                let position = self.memory_read(pc);
                position.wrapping_add(self.register_y) as u16
            },
            AddressingMode::AbsoluteX => {
                let base = self.memory_read_u16(pc);
                base.wrapping_add(self.register_x as u16)
            },
            AddressingMode::AbsoluteY => {
                let base = self.memory_read_u16(pc);
                base.wrapping_add(self.register_y as u16)
            },
            AddressingMode::IndirectX => {
                let base = self.memory_read(pc);
                let ptr = base.wrapping_add(self.register_x);
                self.zero_page_pointer(ptr)
            },
            AddressingMode::IndirectY => {
                let base = self.memory_read(pc);
                let deref_base = self.zero_page_pointer(base);
                deref_base.wrapping_add(self.register_y as u16)
            },
            AddressingMode::NoneAddressing => {
                proof {
                    assert(!has_operand(mode));
                }
                0
            },
        }
    }

    /// Sets Zero exactly when `result` is zero and Negative exactly when its
    /// bit 7 is set; every other flag is kept.
    pub fn set_zero_negative(&mut self, result: u8)
        ensures
            zero_negative_updated(old(self).status, final(self).status, result),
            final(self).register_a == old(self).register_a,
            final(self).register_x == old(self).register_x,
            final(self).register_y == old(self).register_y,
            final(self).program_counter == old(self).program_counter,
            final(self).memory == old(self).memory,
            final(self).opcodes == old(self).opcodes,
    {
        let s0 = self.status;
        let s1: u8 = if result == 0 { s0 | 0b0000_0010 } else { s0 & 0b1111_1101 };
        let s2: u8 = if result & 0b1000_0000 != 0 { s1 | 0b1000_0000 } else { s1 & 0b0111_1111 };
        assert(zero_negative_updated(s0, s2, result)) by (bit_vector)
            requires
                s1 == if result == 0 { s0 | 2 } else { s0 & 0xFD },
                s2 == if result & 0x80 != 0 { s1 | 0x80 } else { s1 & 0x7F },
        ;
        self.status = s2;
    }

    /// Load Accumulator from the operand in `mode`.
    pub fn lda(&mut self, mode: AddressingMode)
        requires
            old(self).wf(),
            has_operand(mode),
        ensures
            final(self).wf(),
            CPU::lda_effect(old(self), final(self), mode, old(self).program_counter),
            final(self).program_counter == old(self).program_counter,
    {
        let address = self.get_operand_address(mode);
        let value = self.memory_read(address);
        self.register_a = value;
        self.set_zero_negative(value);
    }

    /// Store Accumulator at the operand address in `mode`.
    pub fn sta(&mut self, mode: AddressingMode)
        requires
            old(self).wf(),
            has_operand(mode),
        ensures
            final(self).wf(),
            CPU::sta_effect(old(self), final(self), mode, old(self).program_counter),
            final(self).program_counter == old(self).program_counter,
    {
        let address = self.get_operand_address(mode);
        self.memory_write(address, self.register_a);
    }

    /// Transfer Accumulator to X.
    pub fn tax(&mut self)
        requires
            old(self).wf(),
        ensures
            final(self).wf(),
            CPU::tax_effect(old(self), final(self)),
            final(self).program_counter == old(self).program_counter,
    {
        self.register_x = self.register_a;
        self.set_zero_negative(self.register_x);
    }

    /// Increment X, wrapping from 0xFF to 0x00.
    pub fn inx(&mut self)
        requires
            old(self).wf(),
        ensures
            final(self).wf(),
            CPU::inx_effect(old(self), final(self)),
            final(self).program_counter == old(self).program_counter,
    {
        self.register_x = self.register_x.wrapping_add(1);
        self.set_zero_negative(self.register_x);
    }

    /// Add with Carry: adds the operand in `mode` and the carry flag to the
    /// accumulator.
    pub fn adc(&mut self, mode: AddressingMode)
        requires
            old(self).wf(),
            has_operand(mode),
        ensures
            final(self).wf(),
            CPU::adc_effect(old(self), final(self), mode, old(self).program_counter),
            final(self).program_counter == old(self).program_counter,
    {
        let address = self.get_operand_address(mode);
        let m = self.memory_read(address);
        let a = self.register_a;
        let s0 = self.status;
        let carry_in = s0 & 0x01;
        assert(carry_in <= 1) by (bit_vector)
            requires
                carry_in == s0 & 0x01,
        ;
        let sum: u16 = a as u16 + m as u16 + carry_in as u16;
        let r = (sum % 256) as u8;
        let carry = sum > 0xFF;
        let overflow = (a ^ r) & (m ^ r) & 0x80 != 0;
        assert(overflow == ((a & 0x80) == (m & 0x80) && (r & 0x80) != (a & 0x80))) by (bit_vector)
            requires
                overflow == ((a ^ r) & (m ^ r) & 0x80 != 0),
        ;
        let s1: u8 = if carry { s0 | 0x01 } else { s0 & 0xFE };
        let s2: u8 = if overflow { s1 | 0x40 } else { s1 & 0xBF };
        self.status = s2;
        self.register_a = r;
        self.set_zero_negative(r);
        let f = self.status;
        assert((f & 0x01 != 0) == carry && (f & 0x40 != 0) == overflow && f & 0x3C == s0 & 0x3C)
            by (bit_vector)
            requires
                f & 0x7D == s2 & 0x7D,
                s1 == if carry { s0 | 1 } else { s0 & 0xFE },
                s2 == if overflow { s1 | 0x40 } else { s1 & 0xBF },
        ;
    }

    /// Force Interrupt: sets the Break flag; the execution loop halts on it.
    pub fn brk(&mut self)
        requires
            old(self).wf(),
        ensures
            final(self).wf(),
            CPU::brk_effect(old(self), final(self)),
            final(self).program_counter == old(self).program_counter,
    {
        self.status = self.status | 0b0001_0000;
    }

    /// Fetches, decodes and executes the instruction at the program counter.
    pub fn step(&mut self) -> (r: Result<Flow, CpuError>)
        requires
            old(self).wf(),
        ensures
            final(self).wf(),
            CPU::step_result(old(self), final(self), r),
    {
        let pc = self.program_counter;
        let code = self.memory_read(pc);
        let op = match self.opcodes.lookup(code) {
            Some(op) => op,
            None => {
                return Err(CpuError::UnrecognizedOpcode { opcode: code, address: pc });
            },
        };
        let reads = match op.mnemonic {
            Mnemonic::Adc | Mnemonic::Lda | Mnemonic::Sta => true,
            _ => false,
        };
        if reads && op.mode == AddressingMode::NoneAddressing {
            return Err(CpuError::UnsupportedMode { opcode: code, address: pc });
        }
        if pc as u32 + op.len as u32 > 0xFFFF {
            return Err(CpuError::EndOfMemory { opcode: code, address: pc });
        }
        self.program_counter = pc + 1;
        match op.mnemonic {
            Mnemonic::Adc => self.adc(op.mode),
            Mnemonic::Brk => self.brk(),
            Mnemonic::Inx => self.inx(),
            Mnemonic::Lda => self.lda(op.mode),
            Mnemonic::Sta => self.sta(op.mode),
            Mnemonic::Tax => self.tax(),
        }
        self.program_counter = pc + op.len as u16;
        match op.mnemonic {
            Mnemonic::Brk => Ok(Flow::Halt),
            _ => Ok(Flow::Continue),
        }
    }

    /// Executes instructions from the program counter until a break
    /// instruction halts the processor or an instruction cannot be decoded.
    pub fn run(&mut self) -> (r: Result<(), CpuError>)
        requires
            old(self).wf(),
        ensures
            final(self).wf(),
            exists|trace: Seq<CPU>| CPU::is_run(*old(self), *final(self), trace, r),
    {
        let ghost start = *self;
        let ghost mut trace: Seq<CPU> = seq![*self];
        loop
            invariant
                self.wf(),
                trace.len() >= 1,
                trace[0] == start,
                start == *old(self),
                trace.last() == *self,
                forall|i: int| 0 <= i < trace.len() - 1 ==> #[trigger] CPU::continues(trace, i),
            decreases 0xFFFF - self.program_counter,
        {
            let ghost before = trace;
            let r = self.step();
            proof {
                trace = trace.push(*self);
                assert forall|i: int| 0 <= i < trace.len() - 2 implies #[trigger] CPU::continues(trace, i) by {
                    assert(CPU::continues(before, i));
                    assert(trace[i] == before[i]);
                    assert(trace[i + 1] == before[i + 1]);
                }
                assert(trace[trace.len() - 2] == before.last());
            }
            match r {
                Ok(Flow::Continue) => {
                    proof {
                        assert(CPU::continues(trace, trace.len() - 2));
                    }
                },
                Ok(Flow::Halt) => {
                    assert(CPU::is_run(start, *self, trace, Ok(())));
                    return Ok(());
                },
                Err(e) => {
                    assert(CPU::is_run(start, *self, trace, Err(e)));
                    return Err(e);
                },
            }
        }
    }

    /// Copies `program` into the ROM region from address 0x8000 and points
    /// the program counter there. When the image does not reach the reset
    /// vector, the vector is set to 0x8000 so that a reset enters the
    /// program. An image longer than the ROM region is refused and nothing
    /// changes.
    pub fn load(&mut self, program: Vec<u8>) -> (r: Result<(), CpuError>)
        requires
            old(self).wf(),
        ensures
            final(self).wf(),
            program@.len() > 0x8000 ==> r == CPU::too_large(program.len()) && *final(self) == *old(self),
            program@.len() <= 0x8000 ==> r.is_ok(),
            program@.len() <= 0x8000 ==> final(self).mem() == CPU::loaded_memory(old(self).mem(), program@),
            program@.len() <= 0x8000 ==> final(self).program_counter == 0x8000,
            final(self).register_a == old(self).register_a,
            final(self).register_x == old(self).register_x,
            final(self).register_y == old(self).register_y,
            final(self).status == old(self).status,
            final(self).table() == old(self).table(),
    {
        let n = program.len();
        if n > 0x8000 {
            return Err(CpuError::ProgramTooLarge { len: n });
        }
        let mut i: usize = 0;
        while i < n
            invariant
                self.wf(),
                n == program@.len(),
                n <= 0x8000,
                i <= n,
                forall|j: int|
                    0 <= j < 0x10000 ==> #[trigger] self.mem()[j] == if 0x8000 <= j < 0x8000 + i {
                        program@[j - 0x8000]
                    } else {
                        old(self).mem()[j]
                    },
                self.register_a == old(self).register_a,
                self.register_x == old(self).register_x,
                self.register_y == old(self).register_y,
                self.status == old(self).status,
                self.table() == old(self).table(),
            decreases n - i,
        {
            self.memory_write((0x8000 + i) as u16, program[i]);
            i = i + 1;
        }
        if n <= 0x7FFC {
            self.memory_write_u16(RESET_VECTOR, PROGRAM_START);
        }
        self.program_counter = PROGRAM_START;
        assert(self.mem() =~= CPU::loaded_memory(old(self).mem(), program@));
        Ok(())
    }

    /// Clears the registers and the status and sets the program counter to
    /// the little-endian address in the reset vector at 0xFFFC.
    pub fn reset(&mut self)
        requires
            old(self).wf(),
        ensures
            final(self).wf(),
            final(self).register_a == 0,
            final(self).register_x == 0,
            final(self).register_y == 0,
            final(self).status == 0,
            final(self).program_counter as int == read16(old(self).mem(), 0xFFFC),
            final(self).mem() == old(self).mem(),
            final(self).table() == old(self).table(),
    {
        self.register_a = 0;
        self.register_x = 0;
        self.register_y = 0;
        self.status = 0;
        self.program_counter = self.memory_read_u16(RESET_VECTOR);
    }

    /// Loads `program`, resets and runs until a break instruction or an error.
    pub fn load_and_run(&mut self, program: Vec<u8>) -> (r: Result<(), CpuError>)
        requires
            old(self).wf(),
        ensures
            final(self).wf(),
            program@.len() > 0x8000 ==> r == CPU::too_large(program.len()) && *final(self) == *old(self),
            program@.len() <= 0x8000 ==> CPU::runs_from_load(*old(self), program@, *final(self), r),
    {
        let ghost prog = program@;
        let loaded = self.load(program);
        if loaded.is_err() {
            return loaded;
        }
        self.reset();
        let ghost started = *self;
        assert(CPU::is_started(*old(self), prog, started));
        let r = self.run();
        proof {
            let trace = choose|trace: Seq<CPU>| CPU::is_run(started, *self, trace, r);
            assert(CPU::is_started(*old(self), prog, started) && CPU::is_run(started, *self, trace, r));
        }
        r
    }
}

} // verus!
