//! Instruction metadata and the text form of instructions.

use vstd::prelude::*;
use vstd::string::{StrSliceExecFns, StringExecFns};
use crate::arith::{displace, displaced, make_word, signed, to_signed, word};
use crate::bus::{Bus, Memory};
use crate::disassembler::table::{mnemonic_of, mode_of, opcode_info};
use crate::disassembler::text::{hex2, hex4, pad_right, push_hex2, push_hex4, push_spaces};

pub mod table;
pub mod text;

verus! {

/// How an instruction finds its operand.
#[derive(Clone, Copy, Debug, PartialEq, Eq, Structural)]
pub enum AddrMode {
    /// No operand.
    Imp,
    /// The accumulator.
    Acc,
    /// The byte after the opcode.
    Imm,
    /// A one-byte address in page zero.
    Zp,
    /// A page-zero address plus X, wrapping within the page.
    ZpX,
    /// A page-zero address plus Y, wrapping within the page.
    ZpY,
    /// A two-byte address.
    Abs,
    /// A two-byte address plus X.
    AbsX,
    /// A two-byte address plus Y.
    AbsY,
    /// The address stored at a two-byte address.
    Ind,
    /// The address stored in page zero at the operand byte plus X.
    XInd,
    /// The address stored in page zero at the operand byte, plus Y.
    IndY,
    /// A signed displacement from the next instruction.
    Rel,
}

/// One entry of the opcode table.
#[derive(Clone, Copy, Debug)]
pub struct OpcodeInfo {
    /// Three-letter name of the instruction.
    pub mnemonic: &'static str,
    /// How the instruction finds its operand.
    pub mode: AddrMode,
    /// Length of the instruction in bytes, opcode included.
    pub size: u8,
}

impl AddrMode {
    /// The number of bytes of an instruction in this mode, opcode included.
    pub open spec fn spec_size(self) -> u8 {
        match self {
            AddrMode::Imp | AddrMode::Acc => 1,
            AddrMode::Abs | AddrMode::AbsX | AddrMode::AbsY | AddrMode::Ind => 3,
            _ => 2,
        }
    }

    /// The number of bytes of an instruction in this mode, opcode included.
    #[verifier::when_used_as_spec(spec_size)]
    pub fn size(self) -> (n: u8)
        ensures
            n == self.spec_size(),
    {
        match self {
            AddrMode::Imp | AddrMode::Acc => 1,
            AddrMode::Abs | AddrMode::AbsX | AddrMode::AbsY | AddrMode::Ind => 3,
            _ => 2,
        }
    }
}

/// The text of an operand in `mode`.  `lo` and `hi` are the two bytes after
/// the opcode, of which a mode uses as many as it has.  A relative operand
/// is shown as the address that lies its displacement away from `origin`.
pub open spec fn operand_text(mode: AddrMode, lo: u8, hi: u8, origin: u16) -> Seq<char> {
    match mode {
        AddrMode::Imp => Seq::empty(),
        AddrMode::Acc => "A"@,
        AddrMode::Imm => "#$"@ + hex2(lo),
        AddrMode::Zp => "$"@ + hex2(lo),
        AddrMode::ZpX => "$"@ + hex2(lo) + ",X"@,
        AddrMode::ZpY => "$"@ + hex2(lo) + ",Y"@,
        AddrMode::Abs => "$"@ + hex4(word(lo, hi)),
        AddrMode::AbsX => "$"@ + hex4(word(lo, hi)) + ",X"@,
        AddrMode::AbsY => "$"@ + hex4(word(lo, hi)) + ",Y"@,
        AddrMode::Ind => "($"@ + hex4(word(lo, hi)) + ")"@,
        AddrMode::XInd => "($"@ + hex2(lo) + ",X)"@,
        AddrMode::IndY => "($"@ + hex2(lo) + "),Y"@,
        AddrMode::Rel => "$"@ + hex4(displaced(origin, signed(lo))),
    }
}

/// The bytes of an instruction as text: each as two hexadecimal digits
/// followed by a space.
pub open spec fn bytes_text(bytes: Seq<u8>) -> Seq<char>
    decreases bytes.len(),
{
    if bytes.len() == 0 {
        Seq::empty()
    } else {
        bytes_text(bytes.drop_last()) + hex2(bytes.last()) + seq![' ']
    }
}

/// One line of a listing: the address as four hexadecimal digits, the
/// instruction bytes in a column nine wide, the mnemonic in a column three
/// wide, and the operand.
pub open spec fn listing_line(
    addr: u16,
    bytes: Seq<u8>,
    mnemonic: Seq<char>,
    operand: Seq<char>,
) -> Seq<char> {
    hex4(addr) + "  "@ + pad_right(bytes_text(bytes), 9) + "  "@ + pad_right(mnemonic, 3) + " "@
        + operand
}

/// The bytes of the instruction at `pc`: as many as the opcode table says
/// the instruction at `pc` has, read from consecutive addresses that wrap
/// around after `0xFFFF`.
pub open spec fn instruction_bytes(mem: Memory, pc: u16) -> Seq<u8> {
    Seq::new(
        mode_of(mem.read(pc)).spec_size() as nat,
        |i: int| mem.read(pc.wrapping_add(i as u16)),
    )
}

/// The listing line of the instruction at `pc`.
pub open spec fn disassembly(mem: Memory, pc: u16) -> Seq<char> {
    listing_line(
        pc,
        instruction_bytes(mem, pc),
        mnemonic_of(mem.read(pc)),
        operand_text(
            mode_of(mem.read(pc)),
            mem.read(pc.wrapping_add(1)),
            mem.read(pc.wrapping_add(2)),
            pc.wrapping_add(2),
        ),
    )
}

/// The text of the operand given by `bytes`, the bytes that follow the
/// opcode.  A relative operand is shown as its displacement, as a 16-bit
/// two's-complement number.
pub fn format_operand(mode: AddrMode, bytes: &[u8]) -> (text: String)
    requires
        bytes@.len() + 1 >= mode.spec_size(),
    ensures
        text@ == operand_text(
            mode,
            if bytes@.len() > 0 {
                bytes@[0]
            } else {
                0
            },
            if bytes@.len() > 1 {
                bytes@[1]
            } else {
                0
            },
            0,
        ),
{
    let lo: u8 = if bytes.len() > 0 {
        bytes[0]
    } else {
        0
    };
    let hi: u8 = if bytes.len() > 1 {
        bytes[1]
    } else {
        0
    };
    operand_string(mode, lo, hi, 0)
}

/// The text of an operand in `mode` whose bytes are `lo` and `hi`.
fn operand_string(mode: AddrMode, lo: u8, hi: u8, origin: u16) -> (text: String)
    ensures
        text@ == operand_text(mode, lo, hi, origin),
{
    let mut text = String::new();
    match mode {
        AddrMode::Imp => {},
        AddrMode::Acc => {
            text.append("A");
        },
        AddrMode::Imm => {
            text.append("#$");
            push_hex2(&mut text, lo);
        },
        AddrMode::Zp => {
            text.append("$");
            push_hex2(&mut text, lo);
        },
        AddrMode::ZpX => {
            text.append("$");
            push_hex2(&mut text, lo);
            text.append(",X");
        },
        AddrMode::ZpY => {
            text.append("$");
            push_hex2(&mut text, lo);
            text.append(",Y");
        },
        AddrMode::Abs => {
            text.append("$");
            push_hex4(&mut text, make_word(lo, hi));
        },
        AddrMode::AbsX => {
            text.append("$");
            push_hex4(&mut text, make_word(lo, hi));
            text.append(",X");
        },
        AddrMode::AbsY => {
            text.append("$");
            push_hex4(&mut text, make_word(lo, hi));
            text.append(",Y");
        },
        AddrMode::Ind => {
            text.append("($");
            push_hex4(&mut text, make_word(lo, hi));
            text.append(")");
        },
        AddrMode::XInd => {
            text.append("($");
            push_hex2(&mut text, lo);
            text.append(",X)");
        },
        AddrMode::IndY => {
            text.append("($");
            push_hex2(&mut text, lo);
            text.append("),Y");
        },
        AddrMode::Rel => {
            text.append("$");
            push_hex4(&mut text, displace(origin, to_signed(lo)));
        },
    }
    assert(text@ =~= operand_text(mode, lo, hi, origin));
    text
}

/// The text of the operand of the instruction at `pc`, whose table entry
/// is `info`.  A relative operand is shown as the address it leads to.
pub fn fmt_operand(bus: &impl Bus, pc: u16, info: &OpcodeInfo) -> (text: String)
    requires
        bus.inv(),
    ensures
        text@ == operand_text(
            info.mode,
            bus@.read(pc.wrapping_add(1)),
            bus@.read(pc.wrapping_add(2)),
            pc.wrapping_add(2),
        ),
{
    let lo = bus.read(pc.wrapping_add(1));
    let hi = bus.read(pc.wrapping_add(2));
    operand_string(info.mode, lo, hi, pc.wrapping_add(2))
}

/// A decoded instruction, ready to be shown.
pub struct Disassembled {
    /// Address of the opcode.
    pub addr: u16,
    /// The bytes of the instruction.
    pub bytes: Vec<u8>,
    /// Name of the instruction.
    pub mnemonic: String,
    /// Text of the operand.
    pub operand: String,
    /// Length of the instruction in bytes.
    pub size: u8,
    /// Address of the instruction that follows.
    pub next_pc: u16,
}

impl Disassembled {
    /// The instruction as one line of a listing.
    pub fn pretty(&self) -> (line: String)
        ensures
            line@ == listing_line(self.addr, self.bytes@, self.mnemonic@, self.operand@),
    {
        let mut line = String::new();
        push_hex4(&mut line, self.addr);
        line.append("  ");
        let ghost head = line@;
        let mut i: usize = 0;
        while i < self.bytes.len()
            invariant
                i <= self.bytes@.len(),
                line@ == head + bytes_text(self.bytes@.take(i as int)),
            decreases self.bytes@.len() - i,
        {
            push_hex2(&mut line, self.bytes[i]);
            line.append(" ");
            proof {
                reveal_strlit(" ");
                let before = self.bytes@.take(i as int);
                let now = self.bytes@.take(i + 1);
                assert(now.drop_last() =~= before);
                assert(now.last() == self.bytes@[i as int]);
                assert(line@ =~= head + bytes_text(now));
            }
            i = i + 1;
        }
        proof {
            assert(self.bytes@.take(i as int) =~= self.bytes@);
            lemma_bytes_text_len(self.bytes@);
        }
        if self.bytes.len() < 3 {
            push_spaces(&mut line, 9 - 3 * self.bytes.len());
        }
        assert(line@ =~= head + pad_right(bytes_text(self.bytes@), 9));
        line.append("  ");
        line.append(self.mnemonic.as_str());
        let width = self.mnemonic.as_str().unicode_len();
        if width < 3 {
            push_spaces(&mut line, 3 - width);
        }
        line.append(" ");
        line.append(self.operand.as_str());
        assert(line@ =~= listing_line(self.addr, self.bytes@, self.mnemonic@, self.operand@));
        line
    }
}

/// The text of `bytes` has three characters for each byte.
pub proof fn lemma_bytes_text_len(bytes: Seq<u8>)
    ensures
        bytes_text(bytes).len() == 3 * bytes.len(),
    decreases bytes.len(),
{
    if bytes.len() > 0 {
        lemma_bytes_text_len(bytes.drop_last());
    }
}

/// Decodes the instruction at `pc` for display.
pub fn disassemble(bus: &impl Bus, pc: u16) -> (decoded: Disassembled)
    requires
        bus.inv(),
    ensures
        decoded.addr == pc,
        decoded.bytes@ == instruction_bytes(bus@, pc),
        decoded.mnemonic@ == mnemonic_of(bus@.read(pc)),
        decoded.operand@ == operand_text(
            mode_of(bus@.read(pc)),
            bus@.read(pc.wrapping_add(1)),
            bus@.read(pc.wrapping_add(2)),
            pc.wrapping_add(2),
        ),
        decoded.size == mode_of(bus@.read(pc)).spec_size(),
        decoded.next_pc == pc.wrapping_add(decoded.size as u16),
{
    let opcode = bus.read(pc);
    let info = opcode_info(opcode);
    let mut bytes: Vec<u8> = Vec::new();
    let mut i: u8 = 0;
    while i < info.size
        invariant
            bus.inv(),
            i <= info.size,
            bytes@.len() == i,
            forall|k: int| 0 <= k < i ==> bytes@[k] == bus@.read(pc.wrapping_add(k as u16)),
        decreases info.size - i,
    {
        bytes.push(bus.read(pc.wrapping_add(i as u16)));
        i = i + 1;
    }
    assert(bytes@ =~= instruction_bytes(bus@, pc));
    let operand = fmt_operand(bus, pc, &info);
    Disassembled {
        addr: pc,
        bytes,
        mnemonic: String::from_str(info.mnemonic),
        operand,
        size: info.size,
        next_pc: pc.wrapping_add(info.size as u16),
    }
}

} // verus!
