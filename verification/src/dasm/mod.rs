//! The disassembler: the descriptor of an instruction, and the listing of a
//! program followed from its entry address.

use crate::hardware::cartridge_header::{entry_of, header_error, Cartridge};
use crate::hardware::mnemonic::{mnemonic_of, Mnemonic};
use crate::hardware::opcode::{
    base_instruction, cb_instruction, cb_prefix_instruction_lookup, instruction_lookup,
    instruction_name, operand_size, Instruction, CB_PREFIX,
};
use crate::util::byte_ops::{extract_lhs, extract_rhs, hi3, hi_lo_combine, lo3, word_of};
use crate::util::text::{decimal, format_decimal, format_hex, upper_hex};
use std::collections::HashSet;
use vstd::prelude::*;
use vstd::string::StringExecFns;

pub mod decode_ld;
pub mod decoded_register;
pub mod decoder;

verus! {

broadcast use vstd::std_specs::hash::group_hash_axioms;

/// Why a ROM could not be disassembled or a byte not decoded.
#[derive(Debug)]
pub enum DasmError {
    InvalidRom(String),
    DecoderError(&'static str),
    PartialDASM(String),
}

/// The two 3-bit fields of an opcode byte: bits 5..3 and bits 2..0.
#[derive(Debug, Clone, Copy, PartialEq, Eq, Structural)]
pub struct ByteData {
    pub lhs: u8,
    pub rhs: u8,
}

impl From<u8> for ByteData {
    fn from(byte: u8) -> (r: ByteData) {
        ByteData { lhs: extract_lhs(byte), rhs: extract_rhs(byte) }
    }
}

impl vstd::std_specs::convert::FromSpecImpl<u8> for ByteData {
    open spec fn obeys_from_spec() -> bool {
        true
    }

    open spec fn from_spec(byte: u8) -> ByteData {
        ByteData { lhs: hi3(byte), rhs: lo3(byte) }
    }
}

/// A decoded instruction.
#[derive(Debug, Clone, Copy, PartialEq, Eq, Structural)]
pub struct InstructionData {
    /// The opcode byte; for an instruction of the second page, the byte after
    /// the prefix.
    pub byte: u8,
    /// The number of bytes that follow the first byte of the instruction.
    pub size: usize,
    pub instruction: Instruction,
    pub mnemonic: Mnemonic,
    /// The two 3-bit fields of `byte`.
    pub byte_data: ByteData,
    /// Whether the instruction is of the second page.
    pub is_cb: bool,
}

/// A descriptor as a text: the opcode byte in hexadecimal, the instruction,
/// the number of operand bytes and the two fields of the byte.
pub open spec fn descriptor_text(data: InstructionData) -> Seq<char> {
    "0x"@ + upper_hex(data.byte as nat) + ": "@ + instruction_name(data.instruction) + " (size: "@
        + decimal(data.size as nat) + ") ByteData { lhs: "@ + decimal(data.byte_data.lhs as nat)
        + ", rhs: "@ + decimal(data.byte_data.rhs as nat) + " }"@
}

impl InstructionData {
    /// The descriptor as a text.
    pub fn to_text(&self) -> (r: String)
        ensures
            r@ == descriptor_text(*self),
    {
        let mut text = String::from_str("0x");
        text.append(format_hex(self.byte as usize).as_str());
        text.append(": ");
        text.append(self.instruction.name().as_str());
        text.append(" (size: ");
        text.append(format_decimal(self.size).as_str());
        text.append(") ByteData { lhs: ");
        text.append(format_decimal(self.byte_data.lhs as usize).as_str());
        text.append(", rhs: ");
        text.append(format_decimal(self.byte_data.rhs as usize).as_str());
        text.append(" }");
        text
    }
}

/// What the decoder says of a prefix byte that no byte follows.
pub open spec fn missing_cb_byte() -> &'static str {
    "the CB prefix needs the byte that follows it"
}

/// The descriptor of an instruction of the first page. A byte that is no
/// opcode is described as `fallback`.
pub open spec fn describe_base(byte: u8, fallback: Instruction) -> InstructionData {
    let instruction = match base_instruction(byte) {
        Some(instruction) => instruction,
        None => fallback,
    };
    InstructionData {
        byte,
        size: operand_size(instruction),
        instruction,
        mnemonic: mnemonic_of(instruction),
        byte_data: ByteData { lhs: hi3(byte), rhs: lo3(byte) },
        is_cb: false,
    }
}

/// The descriptor of the instruction of the second page that `byte` encodes.
pub open spec fn describe_cb(byte: u8) -> InstructionData {
    InstructionData {
        byte,
        size: 1,
        instruction: cb_instruction(byte),
        mnemonic: mnemonic_of(cb_instruction(byte)),
        byte_data: ByteData { lhs: hi3(byte), rhs: lo3(byte) },
        is_cb: true,
    }
}

/// The descriptor of the instruction that starts with `opcode`. After the
/// prefix byte the instruction is that of the second page which `cb_byte`
/// encodes; without that byte nothing can be decoded. Any other opcode is of
/// the first page, and the bytes that are no opcode are described as
/// `UNIMPLEMENTED`.
pub open spec fn decode_instruction(opcode: u8, cb_byte: Option<u8>) -> Option<InstructionData> {
    if opcode == CB_PREFIX {
        match cb_byte {
            Some(byte) => Some(describe_cb(byte)),
            None => None,
        }
    } else {
        Some(describe_base(opcode, Instruction::UNIMPLEMENTED))
    }
}

/// The fields that a descriptor has from its opcode byte are in range.
pub open spec fn fields_in_range(data: InstructionData) -> bool {
    data.size <= 2 && data.byte_data.lhs < 8 && data.byte_data.rhs < 8
}

impl TryFrom<u8> for InstructionData {
    type Error = DasmError;

    /// The descriptor of an instruction of the first page.
    fn try_from(byte: u8) -> (r: Result<Self, DasmError>) {
        let instruction = match instruction_lookup(&byte) {
            Ok(instruction) => instruction,
            _ => Instruction::UNIMPLEMENTED,
        };
        let mnemonic = Mnemonic::from(&instruction);
        let size = Instruction::get_size(&instruction);
        let byte_data = ByteData::from(byte);
        Ok(InstructionData { byte, instruction, size, mnemonic, byte_data, is_cb: false })
    }
}

impl vstd::std_specs::convert::TryFromSpecImpl<u8> for InstructionData {
    open spec fn obeys_try_from_spec() -> bool {
        true
    }

    open spec fn try_from_spec(byte: u8) -> Result<Self, DasmError> {
        Ok(describe_base(byte, Instruction::UNIMPLEMENTED))
    }
}

impl TryFrom<(u8, Option<u8>)> for InstructionData {
    type Error = DasmError;

    /// The descriptor of the instruction that starts with the first byte of
    /// the pair; the second is the byte after a prefix.
    fn try_from(bytes: (u8, Option<u8>)) -> (r: Result<Self, DasmError>) {
        let (opcode, cb_byte) = bytes;
        if opcode == CB_PREFIX {
            let byte = match cb_byte {
                Some(byte) => byte,
                None => {
                    return Err(
                        DasmError::DecoderError("the CB prefix needs the byte that follows it"),
                    );
                },
            };
            let instruction = match cb_prefix_instruction_lookup(&byte) {
                Ok(instruction) => instruction,
                _ => Instruction::UNIMPLEMENTED,
            };
            let mnemonic = Mnemonic::from(&instruction);
            let byte_data = ByteData::from(byte);
            Ok(InstructionData { byte, instruction, size: 1, mnemonic, byte_data, is_cb: true })
        } else {
            let instruction = match instruction_lookup(&opcode) {
                Ok(instruction) => instruction,
                _ => Instruction::UNIMPLEMENTED,
            };
            let mnemonic = Mnemonic::from(&instruction);
            let size = Instruction::get_size(&instruction);
            let byte_data = ByteData::from(opcode);
            Ok(
                InstructionData {
                    byte: opcode,
                    instruction,
                    size,
                    mnemonic,
                    byte_data,
                    is_cb: false,
                },
            )
        }
    }
}

impl vstd::std_specs::convert::TryFromSpecImpl<(u8, Option<u8>)> for InstructionData {
    open spec fn obeys_try_from_spec() -> bool {
        true
    }

    open spec fn try_from_spec(bytes: (u8, Option<u8>)) -> Result<Self, DasmError> {
        match decode_instruction(bytes.0, bytes.1) {
            Some(data) => Ok(data),
            None => Err(DasmError::DecoderError(missing_cb_byte())),
        }
    }
}

/// What is said of a ROM image whose header cannot be read.
pub const UNREADABLE_CARTRIDGE: &'static str = "Could not read cartridge";

/// The state of a disassembly: the addresses still to be followed, the
/// addresses already decoded, the addresses that jumps and calls lead to, the
/// ROM image, and what its header says.
pub struct Disassembler {
    branches: Vec<u16>,
    visited: HashSet<u16>,
    labels: HashSet<u16>,
    buffer: Vec<u8>,
    cartridge: Cartridge,
}

impl Disassembler {
    /// The ROM image that is disassembled.
    pub closed spec fn rom(&self) -> Seq<u8> {
        self.buffer@
    }

    /// A disassembly of a ROM image that has not yet begun: nothing is to be
    /// followed, nothing decoded. An image whose header cannot be read is
    /// refused.
    pub fn new(rom: &Vec<u8>) -> (r: Result<Self, DasmError>)
        ensures
            match r {
                Ok(dasm) => header_error(rom@) is None && dasm.rom() == rom@ && dasm.entry()
                    == entry_of(rom@) && dasm.state() == (TraceState {
                    branches: Seq::empty(),
                    visited: Set::empty(),
                    labels: Set::empty(),
                }),
                Err(e) => header_error(rom@) is Some && (e matches DasmError::InvalidRom(text)
                    && text@ == UNREADABLE_CARTRIDGE@),
            },
    {
        let cartridge = match Cartridge::new(rom.as_slice()) {
            Ok(cartridge) => cartridge,
            _ => {
                return Err(DasmError::InvalidRom(String::from_str(UNREADABLE_CARTRIDGE)));
            },
        };
        let dasm = Disassembler {
            branches: Vec::new(),
            visited: HashSet::new(),
            labels: HashSet::new(),
            buffer: rom.clone(),
            cartridge,
        };
        proof {
            assert(dasm.state().branches =~= Seq::empty());
            assert(dasm.state().visited =~= Set::empty());
            assert(dasm.state().labels =~= Set::empty());
        }
        Ok(dasm)
    }

    /// The descriptor of an instruction of the first page; a byte that is no
    /// opcode is described as `UNIMPLEMENTED`.
    pub fn get_instruction_data(byte: u8) -> (r: Result<InstructionData, DasmError>)
        ensures
            r matches Ok(data) && data == describe_base(byte, Instruction::UNIMPLEMENTED),
    {
        let instruction = match instruction_lookup(&byte) {
            Ok(instruction) => instruction,
            _ => Instruction::UNIMPLEMENTED,
        };
        let mnemonic = Mnemonic::from(&instruction);
        let size = Instruction::get_size(&instruction);
        let byte_data = ByteData::from(byte);
        Ok(InstructionData { byte, instruction, size, mnemonic, byte_data, is_cb: false })
    }

    /// The descriptor of an instruction of the first page, for the listing: a
    /// byte that is no opcode is listed as `NOP`.
    pub fn extract_instruction_data(&self, byte: u8, idx: usize) -> (r: Result<
        InstructionData,
        DasmError,
    >)
        ensures
            r matches Ok(data) && data == describe_base(byte, Instruction::NOP),
    {
        let instruction = match instruction_lookup(&byte) {
            Ok(instruction) => instruction,
            _ => Instruction::NOP,
        };
        let size = Instruction::get_size(&instruction);
        let mnemonic = Mnemonic::from(&instruction);
        let byte_data = ByteData::from(byte);
        Ok(InstructionData { byte, instruction, size, mnemonic, byte_data, is_cb: false })
    }
}

/// The most steps that `disassemble` takes before it gives up on an image.
pub const TRACE_BUDGET: usize = 0x100_0000;

/// What is said of a disassembly that took more steps than it was given.
pub const OUT_OF_BUDGET: &'static str = "The disassembly did not come to an end";

/// What a disassembly keeps track of: the addresses still to be followed, the
/// last one first in line; the addresses already decoded; the addresses that
/// jumps and calls lead to.
pub struct TraceState {
    pub branches: Seq<u16>,
    pub visited: Set<u16>,
    pub labels: Set<u16>,
}

/// How a disassembly ends: with the paths it has listed, each the texts of
/// its instructions, and what it has kept track of; or without an end within
/// its budget.
pub enum Traced {
    Paths(Seq<Seq<Seq<char>>>, TraceState),
    OutOfBudget,
}

/// The line of the listing for an instruction: the text of a load, or what is
/// said in place of it.
pub open spec fn listed(data: InstructionData, operands: Seq<u8>) -> Seq<char> {
    match decoder::decoded(data, operands) {
        Ok(text) => text,
        Err(text) => text,
    }
}

/// The operand bytes of the instruction at `idx`, as far as the image
/// reaches.
pub open spec fn operands_at(buffer: Seq<u8>, idx: int, size: int) -> Seq<u8> {
    if idx + 1 + size <= buffer.len() {
        buffer.subrange(idx + 1, idx + 1 + size)
    } else {
        buffer.subrange(idx + 1, buffer.len() as int)
    }
}

/// The address of a place in the image: the place modulo the size of the
/// address space.
pub open spec fn address_of(idx: int) -> u16 {
    (idx % 0x1_0000) as u16
}

/// Where the instruction after the one at `idx` lies, or the end of the
/// image where the instruction reaches beyond it.
pub open spec fn after(buffer: Seq<u8>, idx: int, size: int) -> int {
    if idx + 1 + size <= buffer.len() {
        idx + 1 + size
    } else {
        buffer.len() as int
    }
}

/// The steps of a disassembly, of which it has `fuel` left.
///
/// Between two paths (`cursor` is `None`) the next address to follow is taken
/// from the end of the line; with none left the disassembly ends. On a path
/// the instruction at the cursor is listed and marked as decoded. A jump or
/// call with an address behind it marks the address as a label and goes on
/// there, a call leaving the address after it to be followed later; any other
/// instruction goes on with the one after it. A path ends behind the image,
/// at a label that has been decoded before, after a return, and after a jump
/// whose target is not in the image.
pub open spec fn walk(
    buffer: Seq<u8>,
    state: TraceState,
    cursor: Option<int>,
    path: Seq<Seq<char>>,
    paths: Seq<Seq<Seq<char>>>,
    fuel: nat,
) -> Traced
    decreases fuel,
{
    match cursor {
        None => if state.branches.len() == 0 {
            Traced::Paths(paths, state)
        } else if fuel == 0 {
            Traced::OutOfBudget
        } else {
            walk(
                buffer,
                TraceState { branches: state.branches.drop_last(), ..state },
                Some(state.branches.last() as int),
                Seq::empty(),
                paths,
                (fuel - 1) as nat,
            )
        },
        Some(idx) => if fuel == 0 {
            Traced::OutOfBudget
        } else if idx >= buffer.len() || (state.labels.contains(address_of(idx))
            && state.visited.contains(address_of(idx))) {
            walk(buffer, state, None, Seq::empty(), paths.push(path), (fuel - 1) as nat)
        } else {
            let data = describe_base(buffer[idx], Instruction::NOP);
            let operands = operands_at(buffer, idx, data.size as int);
            let line = listed(data, operands);
            let seen = TraceState { visited: state.visited.insert(address_of(idx)), ..state };
            let next = after(buffer, idx, data.size as int);
            if Instruction::spec_is_branch(data.instruction) {
                if operands.len() >= 2 {
                    let target = word_of(operands[1], operands[0]);
                    walk(
                        buffer,
                        TraceState {
                            labels: seen.labels.insert(target),
                            branches: if data.instruction == Instruction::CALL_FNN
                                || data.instruction == Instruction::CALL_NN {
                                seen.branches.push(address_of(next))
                            } else {
                                seen.branches
                            },
                            ..seen
                        },
                        Some(target as int),
                        path.push(line),
                        paths,
                        (fuel - 1) as nat,
                    )
                } else {
                    walk(
                        buffer,
                        seen,
                        None,
                        Seq::empty(),
                        paths.push(path.push(line)),
                        (fuel - 1) as nat,
                    )
                }
            } else if data.instruction == Instruction::RET {
                walk(
                    buffer,
                    seen,
                    None,
                    Seq::empty(),
                    paths.push(path.push(line)),
                    (fuel - 1) as nat,
                )
            } else {
                walk(buffer, seen, Some(next), path.push(line), paths, (fuel - 1) as nat)
            }
        },
    }
}

/// The lines of a path, each on a line of its own.
pub open spec fn path_text(path: Seq<Seq<char>>) -> Seq<char>
    decreases path.len(),
{
    if path.len() == 0 {
        Seq::empty()
    } else {
        path_text(path.drop_last()) + "\n"@ + path.last()
    }
}

/// The listing of a disassembly: the paths one after another, with a line
/// between them.
pub open spec fn listing(paths: Seq<Seq<Seq<char>>>) -> Seq<char>
    decreases paths.len(),
{
    if paths.len() == 0 {
        Seq::empty()
    } else {
        listing(paths.drop_last()) + path_text(paths.last()) + "\n;--\n"@
    }
}

impl Disassembler {
    /// What the disassembly keeps track of.
    pub closed spec fn state(&self) -> TraceState {
        TraceState { branches: self.branches@, visited: self.visited@, labels: self.labels@ }
    }

    /// Puts an address at the end of the line of addresses to follow.
    pub fn follow(&mut self, address: u16)
        ensures
            final(self).rom() == old(self).rom(),
            final(self).entry() == old(self).entry(),
            final(self).state() == (TraceState {
                branches: old(self).state().branches.push(address),
                ..old(self).state()
            }),
    {
        self.branches.push(address);
    }

    /// The entry address that the header of the image names.
    pub closed spec fn entry(&self) -> u16 {
        self.cartridge.start_address
    }

    /// The entry address that the header of the image names.
    pub fn start_address(&self) -> (r: u16)
        ensures
            r == self.entry(),
    {
        self.cartridge.start_address
    }

    /// Lists one instruction of a path and says where the path goes on, if it
    /// does.
    fn step(&mut self, idx: usize, path: &mut Vec<String>) -> (next: Option<usize>)
        requires
            idx < old(self).rom().len(),
        ensures
            final(self).rom() == old(self).rom(),
            forall|paths: Seq<Seq<Seq<char>>>, fuel: nat|
                fuel > 0 && !(old(self).state().labels.contains(address_of(idx as int)) && old(
                    self,
                ).state().visited.contains(address_of(idx as int))) ==> #[trigger] walk(
                    old(self).rom(),
                    old(self).state(),
                    Some(idx as int),
                    old(path).deep_view(),
                    paths,
                    fuel,
                ) == (match next {
                    Some(cursor) => walk(
                        final(self).rom(),
                        final(self).state(),
                        Some(cursor as int),
                        final(path).deep_view(),
                        paths,
                        (fuel - 1) as nat,
                    ),
                    None => walk(
                        final(self).rom(),
                        final(self).state(),
                        None,
                        Seq::empty(),
                        paths.push(final(path).deep_view()),
                        (fuel - 1) as nat,
                    ),
                }),
    {
        let ghost listed_before = path.deep_view();
        self.visited.insert((idx % 0x1_0000) as u16);
        let instruction_data = match self.extract_instruction_data(self.buffer[idx], idx) {
            Ok(data) => data,
            Err(_) => {
                return None;
            },
        };
        let size = instruction_data.size;
        let next = if size <= self.buffer.len() - idx - 1 {
            idx + 1 + size
        } else {
            self.buffer.len()
        };
        let opcode_data = slice_of(&self.buffer, idx + 1, next);
        let decoded = match decoder::decode(&instruction_data, opcode_data.as_slice()) {
            Ok(decoded) => decoded,
            Err(message) => message,
        };
        let ghost line = decoded@;
        path.push(decoded);
        proof {
            assert(path.deep_view() =~= listed_before.push(line));
            assert(opcode_data@ =~= operands_at(self.buffer@, idx as int, size as int));
        }
        if Instruction::is_branch(&instruction_data.instruction) {
            if opcode_data.len() >= 2 {
                let next_address = hi_lo_combine(opcode_data[1], opcode_data[0]);
                self.labels.insert(next_address);
                if Instruction::is_call(&instruction_data.instruction) {
                    self.branches.push((next % 0x1_0000) as u16);
                }
                return Some(next_address as usize);
            }
            return None;
        }
        if Instruction::is_return(&instruction_data.instruction) {
            return None;
        }
        Some(next)
    }
}

/// A copy of the bytes of a buffer from `from` up to `to`.
fn slice_of(buffer: &Vec<u8>, from: usize, to: usize) -> (r: Vec<u8>)
    requires
        from <= to <= buffer.len(),
    ensures
        r@ == buffer@.subrange(from as int, to as int),
{
    let mut bytes: Vec<u8> = Vec::new();
    let mut index = from;
    while index < to
        invariant
            from <= index <= to <= buffer.len(),
            bytes@ == buffer@.subrange(from as int, index as int),
        decreases to - index,
    {
        bytes.push(buffer[index]);
        proof {
            assert(bytes@ =~= buffer@.subrange(from as int, index + 1));
        }
        index += 1;
    }
    bytes
}

/// Follows the addresses that are in line, and those that come into line on
/// the way, and gives the paths it has listed. A disassembly that takes more
/// than `budget` steps is given up.
pub fn trace(dasm: &mut Disassembler, budget: usize) -> (r: Result<Vec<Vec<String>>, DasmError>)
    ensures
        final(dasm).rom() == old(dasm).rom(),
        match (
            r,
            walk(
                old(dasm).rom(),
                old(dasm).state(),
                None,
                Seq::empty(),
                Seq::empty(),
                budget as nat,
            ),
        ) {
            (Ok(paths), Traced::Paths(expected, state)) => paths.deep_view() == expected
                && final(dasm).state() == state,
            (Err(DasmError::PartialDASM(text)), Traced::OutOfBudget) => text@ == OUT_OF_BUDGET@,
            _ => false,
        },
{
    let ghost goal = walk(
        dasm.rom(),
        dasm.state(),
        None,
        Seq::empty(),
        Seq::empty(),
        budget as nat,
    );
    let mut paths: Vec<Vec<String>> = Vec::new();
    let mut fuel = budget;
    proof {
        assert(paths.deep_view() =~= Seq::<Seq<Seq<char>>>::empty());
    }
    while dasm.branches.len() > 0
        invariant
            dasm.rom() == old(dasm).rom(),
            goal == walk(
                old(dasm).rom(),
                old(dasm).state(),
                None,
                Seq::empty(),
                Seq::empty(),
                budget as nat,
            ),
            walk(dasm.rom(), dasm.state(), None, Seq::empty(), paths.deep_view(), fuel as nat)
                == goal,
        decreases fuel,
    {
        let ghost entry_fuel = fuel;
        if fuel == 0 {
            return Err(DasmError::PartialDASM(String::from_str(OUT_OF_BUDGET)));
        }
        fuel -= 1;
        let ghost between = dasm.state();
        let head = dasm.branches.pop().unwrap();
        proof {
            assert(dasm.state().branches =~= between.branches.drop_last());
        }
        let mut path: Vec<String> = Vec::new();
        let mut cursor: Option<usize> = Some(head as usize);
        proof {
            assert(path.deep_view() =~= Seq::<Seq<char>>::empty());
        }
        while cursor.is_some()
            invariant
                dasm.rom() == old(dasm).rom(),
                fuel < entry_fuel,
                goal == walk(
                    old(dasm).rom(),
                    old(dasm).state(),
                    None,
                    Seq::empty(),
                    Seq::empty(),
                    budget as nat,
                ),
                match cursor {
                    Some(idx) => walk(
                        dasm.rom(),
                        dasm.state(),
                        Some(idx as int),
                        path.deep_view(),
                        paths.deep_view(),
                        fuel as nat,
                    ) == goal,
                    None => walk(
                        dasm.rom(),
                        dasm.state(),
                        None,
                        Seq::empty(),
                        paths.deep_view().push(path.deep_view()),
                        fuel as nat,
                    ) == goal,
                },
            decreases fuel, cursor.is_some() as int,
        {
            let idx = cursor.unwrap();
            if fuel == 0 {
                return Err(DasmError::PartialDASM(String::from_str(OUT_OF_BUDGET)));
            }
            fuel -= 1;
            let address = (idx % 0x1_0000) as u16;
            if idx >= dasm.buffer.len() || (dasm.labels.contains(&address)
                && dasm.visited.contains(&address)) {
                cursor = None;
            } else {
                cursor = dasm.step(idx, &mut path);
            }
        }
        let ghost listed_paths = paths.deep_view();
        let ghost listed_path = path.deep_view();
        paths.push(path);
        proof {
            assert(paths.deep_view() =~= listed_paths.push(listed_path));
        }
    }
    Ok(paths)
}

/// The state of a disassembly that is to start at one address.
pub open spec fn starting_at(start: u16) -> TraceState {
    TraceState { branches: seq![start], visited: Set::empty(), labels: Set::empty() }
}

/// The listing of the program of a ROM image, followed from the entry
/// address that its header names. An image whose header cannot be read is
/// refused, and a disassembly that does not come to an end within
/// `TRACE_BUDGET` steps is given up.
pub fn disassemble(rom: &Vec<u8>) -> (r: Result<String, DasmError>)
    ensures
        header_error(rom@) is Some ==> (r matches Err(DasmError::InvalidRom(text)) && text@
            == UNREADABLE_CARTRIDGE@),
        header_error(rom@) is None ==> match (
            r,
            walk(
                rom@,
                starting_at(entry_of(rom@)),
                None,
                Seq::empty(),
                Seq::empty(),
                TRACE_BUDGET as nat,
            ),
        ) {
            (Ok(text), Traced::Paths(paths, _)) => text@ == listing(paths),
            (Err(DasmError::PartialDASM(text)), Traced::OutOfBudget) => text@ == OUT_OF_BUDGET@,
            _ => false,
        },
{
    let mut disassembly: String = String::new();
    let mut dasm = Disassembler::new(rom)?;
    let start = dasm.start_address();
    dasm.follow(start);
    proof {
        assert(dasm.state().branches =~= seq![start]);
    }
    let paths = trace(&mut dasm, TRACE_BUDGET)?;
    let mut listed: usize = 0;
    while listed < paths.len()
        invariant
            listed <= paths.len(),
            disassembly@ == listing(paths.deep_view().take(listed as int)),
        decreases paths.len() - listed,
    {
        let path = &paths[listed];
        let ghost so_far = disassembly@;
        let mut line: usize = 0;
        while line < path.len()
            invariant
                line <= path.len(),
                disassembly@ == so_far + path_text(path.deep_view().take(line as int)),
            decreases path.len() - line,
        {
            proof {
                let taken = path.deep_view().take(line + 1);
                assert(taken.drop_last() =~= path.deep_view().take(line as int));
                assert(taken.last() == path[line as int]@);
            }
            disassembly.append("\n");
            disassembly.append(path[line].as_str());
            line += 1;
        }
        disassembly.append("\n;--\n");
        proof {
            assert(path.deep_view().take(path.len() as int) =~= path.deep_view());
            let taken = paths.deep_view().take(listed + 1);
            assert(taken.drop_last() =~= paths.deep_view().take(listed as int));
            assert(taken.last() == path.deep_view());
        }
        listed += 1;
    }
    proof {
        assert(paths.deep_view().take(paths.len() as int) =~= paths.deep_view());
    }
    Ok(disassembly)
}

} // verus!
