use vstd::prelude::*;

verus! {

/// How an instruction locates its operand.
#[derive(Clone, Copy, Debug, PartialEq, Eq, Structural)]
pub enum AddressingMode {
    Immediate,
    ZeroPage,
    ZeroPageX,
    ZeroPageY,
    Absolute,
    AbsoluteX,
    AbsoluteY,
    IndirectX,
    IndirectY,
    NoneAddressing,
}

/// The instructions this processor executes.
#[derive(Clone, Copy, Debug, PartialEq, Eq, Structural)]
pub enum Mnemonic {
    Adc,
    Brk,
    Inx,
    Lda,
    Sta,
    Tax,
}

/// Metadata of one opcode byte: what it does, how it addresses memory,
/// how many bytes it occupies and how many cycles it takes.
#[derive(Clone, Copy, Debug, PartialEq, Eq, Structural)]
pub struct OpCode {
    pub code: u8,
    pub mnemonic: Mnemonic,
    pub len: u8,
    pub cycles: u8,
    pub mode: AddressingMode,
}

impl OpCode {
    /// An instruction occupies one to three bytes.
    pub open spec fn is_valid(self) -> bool {
        1 <= self.len <= 3
    }

    pub fn new(code: u8, mnemonic: Mnemonic, len: u8, cycles: u8, mode: AddressingMode) -> (r: OpCode)
        ensures
            r == (OpCode { code, mnemonic, len, cycles, mode }),
    {
        OpCode { code, mnemonic, len, cycles, mode }
    }
}

/// The opcode metadata table, keyed by opcode byte.
#[verifier::external_body]
pub struct OpcodeTable {
    entries: hashbrown::HashMap<u8, OpCode>,
}

/// What an opcode table holds.
pub uninterp spec fn table_entries(t: OpcodeTable) -> Map<u8, OpCode>;

/// Relies on hashbrown::HashMap::new: a new map is empty.
#[verifier::external_body]
fn new_table() -> (t: OpcodeTable)
    ensures
        table_entries(t).dom() == Set::<u8>::empty(),
{
    OpcodeTable { entries: hashbrown::HashMap::new() }
}

/// Relies on hashbrown::HashMap::insert: afterwards the key maps to the new
/// value and every other key is unchanged.
#[verifier::external_body]
fn table_insert(t: &mut OpcodeTable, key: u8, op: OpCode)
    ensures
        table_entries(*final(t)) == table_entries(*old(t)).insert(key, op),
{
    t.entries.insert(key, op);
}

/// Relies on hashbrown::HashMap::get: the value stored under the key, if any.
#[verifier::external_body]
fn table_get(t: &OpcodeTable, key: u8) -> (r: Option<OpCode>)
    ensures
        table_entries(*t).contains_key(key) ==> r == Some(table_entries(*t)[key]),
        !table_entries(*t).contains_key(key) ==> r.is_none(),
{
    t.entries.get(&key).copied()
}

/// The standard metadata of the opcodes this processor executes.
pub open spec fn standard_opcode(code: u8) -> Option<OpCode> {
    match code {
        0x69 => Some(make_op(0x69, Mnemonic::Adc, 2, 2, AddressingMode::Immediate)),
        0x65 => Some(make_op(0x65, Mnemonic::Adc, 2, 3, AddressingMode::ZeroPage)),
        0x75 => Some(make_op(0x75, Mnemonic::Adc, 2, 4, AddressingMode::ZeroPageX)),
        0x6D => Some(make_op(0x6D, Mnemonic::Adc, 3, 4, AddressingMode::Absolute)),
        0x7D => Some(make_op(0x7D, Mnemonic::Adc, 3, 4, AddressingMode::AbsoluteX)),
        0x79 => Some(make_op(0x79, Mnemonic::Adc, 3, 4, AddressingMode::AbsoluteY)),
        0x61 => Some(make_op(0x61, Mnemonic::Adc, 2, 6, AddressingMode::IndirectX)),
        0x71 => Some(make_op(0x71, Mnemonic::Adc, 2, 5, AddressingMode::IndirectY)),
        0x00 => Some(make_op(0x00, Mnemonic::Brk, 1, 7, AddressingMode::NoneAddressing)),
        0xE8 => Some(make_op(0xE8, Mnemonic::Inx, 1, 2, AddressingMode::NoneAddressing)),
        0xA9 => Some(make_op(0xA9, Mnemonic::Lda, 2, 2, AddressingMode::Immediate)),
        0xA5 => Some(make_op(0xA5, Mnemonic::Lda, 2, 3, AddressingMode::ZeroPage)),
        0xB5 => Some(make_op(0xB5, Mnemonic::Lda, 2, 4, AddressingMode::ZeroPageX)),
        0xAD => Some(make_op(0xAD, Mnemonic::Lda, 3, 4, AddressingMode::Absolute)),
        0xBD => Some(make_op(0xBD, Mnemonic::Lda, 3, 4, AddressingMode::AbsoluteX)),
        0xB9 => Some(make_op(0xB9, Mnemonic::Lda, 3, 4, AddressingMode::AbsoluteY)),
        0xA1 => Some(make_op(0xA1, Mnemonic::Lda, 2, 6, AddressingMode::IndirectX)),
        0xB1 => Some(make_op(0xB1, Mnemonic::Lda, 2, 5, AddressingMode::IndirectY)),
        0x85 => Some(make_op(0x85, Mnemonic::Sta, 2, 3, AddressingMode::ZeroPage)),
        0x95 => Some(make_op(0x95, Mnemonic::Sta, 2, 4, AddressingMode::ZeroPageX)),
        0x8D => Some(make_op(0x8D, Mnemonic::Sta, 3, 4, AddressingMode::Absolute)),
        0x9D => Some(make_op(0x9D, Mnemonic::Sta, 3, 5, AddressingMode::AbsoluteX)),
        0x99 => Some(make_op(0x99, Mnemonic::Sta, 3, 5, AddressingMode::AbsoluteY)),
        0x81 => Some(make_op(0x81, Mnemonic::Sta, 2, 6, AddressingMode::IndirectX)),
        0x91 => Some(make_op(0x91, Mnemonic::Sta, 2, 6, AddressingMode::IndirectY)),
        0xAA => Some(make_op(0xAA, Mnemonic::Tax, 1, 2, AddressingMode::NoneAddressing)),
        _ => None,
    }
}

/// The metadata record with the given fields.
pub open spec fn make_op(code: u8, mnemonic: Mnemonic, len: u8, cycles: u8, mode: AddressingMode) -> OpCode {
    OpCode { code, mnemonic, len, cycles, mode }
}

/// The standard metadata of `code`, if this processor executes it.
pub fn standard_opcode_of(code: u8) -> (r: Option<OpCode>)
    ensures
        r == standard_opcode(code),
{
    match code {
        0x69 => Some(OpCode::new(0x69, Mnemonic::Adc, 2, 2, AddressingMode::Immediate)),
        0x65 => Some(OpCode::new(0x65, Mnemonic::Adc, 2, 3, AddressingMode::ZeroPage)),
        0x75 => Some(OpCode::new(0x75, Mnemonic::Adc, 2, 4, AddressingMode::ZeroPageX)),
        0x6D => Some(OpCode::new(0x6D, Mnemonic::Adc, 3, 4, AddressingMode::Absolute)),
        0x7D => Some(OpCode::new(0x7D, Mnemonic::Adc, 3, 4, AddressingMode::AbsoluteX)),
        0x79 => Some(OpCode::new(0x79, Mnemonic::Adc, 3, 4, AddressingMode::AbsoluteY)),
        0x61 => Some(OpCode::new(0x61, Mnemonic::Adc, 2, 6, AddressingMode::IndirectX)),
        0x71 => Some(OpCode::new(0x71, Mnemonic::Adc, 2, 5, AddressingMode::IndirectY)),
        0x00 => Some(OpCode::new(0x00, Mnemonic::Brk, 1, 7, AddressingMode::NoneAddressing)),
        0xE8 => Some(OpCode::new(0xE8, Mnemonic::Inx, 1, 2, AddressingMode::NoneAddressing)),
        0xA9 => Some(OpCode::new(0xA9, Mnemonic::Lda, 2, 2, AddressingMode::Immediate)),
        0xA5 => Some(OpCode::new(0xA5, Mnemonic::Lda, 2, 3, AddressingMode::ZeroPage)),
        0xB5 => Some(OpCode::new(0xB5, Mnemonic::Lda, 2, 4, AddressingMode::ZeroPageX)),
        0xAD => Some(OpCode::new(0xAD, Mnemonic::Lda, 3, 4, AddressingMode::Absolute)),
        0xBD => Some(OpCode::new(0xBD, Mnemonic::Lda, 3, 4, AddressingMode::AbsoluteX)),
        0xB9 => Some(OpCode::new(0xB9, Mnemonic::Lda, 3, 4, AddressingMode::AbsoluteY)),
        0xA1 => Some(OpCode::new(0xA1, Mnemonic::Lda, 2, 6, AddressingMode::IndirectX)),
        0xB1 => Some(OpCode::new(0xB1, Mnemonic::Lda, 2, 5, AddressingMode::IndirectY)),
        0x85 => Some(OpCode::new(0x85, Mnemonic::Sta, 2, 3, AddressingMode::ZeroPage)),
        0x95 => Some(OpCode::new(0x95, Mnemonic::Sta, 2, 4, AddressingMode::ZeroPageX)),
        0x8D => Some(OpCode::new(0x8D, Mnemonic::Sta, 3, 4, AddressingMode::Absolute)),
        0x9D => Some(OpCode::new(0x9D, Mnemonic::Sta, 3, 5, AddressingMode::AbsoluteX)),
        0x99 => Some(OpCode::new(0x99, Mnemonic::Sta, 3, 5, AddressingMode::AbsoluteY)),
        0x81 => Some(OpCode::new(0x81, Mnemonic::Sta, 2, 6, AddressingMode::IndirectX)),
        0x91 => Some(OpCode::new(0x91, Mnemonic::Sta, 2, 6, AddressingMode::IndirectY)),
        0xAA => Some(OpCode::new(0xAA, Mnemonic::Tax, 1, 2, AddressingMode::NoneAddressing)),
        _ => None,
    }
}

impl OpcodeTable {
    /// The entries of the table.
    pub open spec fn entries(self) -> Map<u8, OpCode> {
        table_entries(self)
    }

    /// Every entry is stored under its own code and has a length of one to
    /// three bytes.
    pub open spec fn wf(self) -> bool {
        forall|k: u8| #[trigger] self.entries().contains_key(k) ==> {
            &&& self.entries()[k].code == k
            &&& self.entries()[k].is_valid()
        }
    }

    /// A table without entries.
    pub fn empty() -> (t: OpcodeTable)
        ensures
            t.entries().dom() == Set::<u8>::empty(),
            t.wf(),
    {
        new_table()
    }

    /// Adds `op` under its code, replacing what was there. An entry whose
    /// length is not one to three bytes is refused and the table is left
    /// unchanged.
    pub fn register(&mut self, op: OpCode) -> (added: bool)
        requires
            old(self).wf(),
        ensures
            added == op.is_valid(),
            added ==> final(self).entries() == old(self).entries().insert(op.code, op),
            !added ==> *final(self) == *old(self),
            final(self).wf(),
    {
        if op.len < 1 || op.len > 3 {
            return false;
        }
        table_insert(self, op.code, op);
        true
    }

    /// The table of every opcode this processor executes, with its standard
    /// length, cycle count and addressing mode.
    pub fn standard() -> (t: OpcodeTable)
        ensures
            t.wf(),
            forall|k: u8| #[trigger] t.entries().contains_key(k) == standard_opcode(k).is_some(),
            forall|k: u8| t.entries().contains_key(k) ==> Some(#[trigger] t.entries()[k]) == standard_opcode(k),
    {
        let mut t = OpcodeTable::empty();
        let mut i: u16 = 0;
        while i < 256
            invariant
                i <= 256,
                t.wf(),
                forall|k: u8| #[trigger] t.entries().contains_key(k) == (k < i && standard_opcode(k).is_some()),
                forall|k: u8| t.entries().contains_key(k) ==> Some(#[trigger] t.entries()[k]) == standard_opcode(k),
            decreases 256 - i,
        {
            let code = i as u8;
            if let Some(op) = standard_opcode_of(code) {
                t.register(op);
            }
            i = i + 1;
        }
        t
    }

    /// The metadata stored for `code`, if any.
    pub fn lookup(&self, code: u8) -> (r: Option<OpCode>)
        ensures
            self.entries().contains_key(code) ==> r == Some(self.entries()[code]),
            !self.entries().contains_key(code) ==> r.is_none(),
    {
        table_get(self, code)
    }
}

} // verus!
