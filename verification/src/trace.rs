//! The trace that disassembly produces, and how its lines read as text.

use vstd::prelude::*;

verus! {

/// One decoded instruction.
#[derive(Clone, Copy, Debug, PartialEq, Eq, Structural)]
pub enum Instruction {
    /// The one-byte return instruction.
    Return,
    /// A load of the constant at `index` in the pool; `value` is that
    /// constant, as the 64 bits of its double-precision encoding.
    Constant { index: u8, value: u64 },
    /// A byte that is no opcode.
    Unknown { opcode: u8 },
}

impl Instruction {
    /// The number of bytes the instruction takes in the stream: two for a
    /// load-constant, whose operand follows the opcode, and one for every
    /// other byte, an unknown one included.
    pub open spec fn width(&self) -> int {
        match self {
            Instruction::Constant { .. } => 2,
            _ => 1,
        }
    }
}

/// One line of a trace: an instruction and the offset at which it starts.
#[derive(Clone, Copy, Debug, PartialEq, Eq, Structural)]
pub struct TraceLine {
    pub offset: i32,
    pub instruction: Instruction,
}

/// The outcome of disassembling a chunk: the header line and one trace line
/// per instruction, in stream order.
#[derive(Clone, Debug, PartialEq, Eq)]
pub struct Disassembly {
    pub header: String,
    pub lines: Vec<TraceLine>,
}

/// The character of a decimal digit.
pub open spec fn digit(d: int) -> char {
    if d == 0 {
        '0'
    } else if d == 1 {
        '1'
    } else if d == 2 {
        '2'
    } else if d == 3 {
        '3'
    } else if d == 4 {
        '4'
    } else if d == 5 {
        '5'
    } else if d == 6 {
        '6'
    } else if d == 7 {
        '7'
    } else if d == 8 {
        '8'
    } else {
        '9'
    }
}

/// The decimal digits of `n`, most significant first, without leading
/// zeros.
pub open spec fn decimal(n: nat) -> Seq<char>
    decreases n,
{
    if n < 10 {
        seq![digit(n as int)]
    } else {
        decimal(n / 10).push(digit((n % 10) as int))
    }
}

/// `n` copies of `c`; nothing where `n` is negative.
pub open spec fn fill(c: char, n: int) -> Seq<char> {
    Seq::new(if n > 0 { n as nat } else { 0 }, |i: int| c)
}

/// `text` brought to `width` characters by `c` in front of it; a longer
/// text stays as it is.
pub open spec fn pad_left(text: Seq<char>, width: int, c: char) -> Seq<char> {
    fill(c, width - text.len()) + text
}

/// `text` brought to `width` characters by spaces behind it; a longer text
/// stays as it is.
pub open spec fn pad_right(text: Seq<char>, width: int) -> Seq<char> {
    text + fill(' ', width - text.len())
}

/// An offset as at least four characters, the sign first and zeros before
/// the digits.
pub open spec fn offset_text(offset: int) -> Seq<char> {
    if offset >= 0 {
        pad_left(decimal(offset as nat), 4, '0')
    } else {
        seq!['-'] + pad_left(decimal((-offset) as nat), 3, '0')
    }
}

/// The header line for a trace labelled `label`.
pub open spec fn header_text(label: Seq<char>) -> Seq<char> {
    "== "@ + label + " =="@
}

impl TraceLine {
    /// The line as text. `value` is the text of the constant that a
    /// load-constant line ends with; other lines do not show it.
    pub open spec fn text(&self, value: Seq<char>) -> Seq<char> {
        match self.instruction {
            Instruction::Return => offset_text(self.offset as int) + " "@ + "OP_RETURN"@,
            Instruction::Constant { index, .. } => offset_text(self.offset as int) + " "@
                + pad_right("OP_CONSTANT"@, 16) + " "@ + pad_left(decimal(index as nat), 4, ' ')
                + " "@ + value,
            Instruction::Unknown { opcode } => offset_text(self.offset as int) + " "@
                + "Unknown opcode "@ + decimal(opcode as nat),
        }
    }
}

fn digit_str(d: u32) -> (text: &'static str)
    requires
        d < 10,
    ensures
        text@ == seq![digit(d as int)],
{
    proof {
        reveal_strlit("0");
        reveal_strlit("1");
        reveal_strlit("2");
        reveal_strlit("3");
        reveal_strlit("4");
        reveal_strlit("5");
        reveal_strlit("6");
        reveal_strlit("7");
        reveal_strlit("8");
        reveal_strlit("9");
    }
    let text = if d == 0 {
        "0"
    } else if d == 1 {
        "1"
    } else if d == 2 {
        "2"
    } else if d == 3 {
        "3"
    } else if d == 4 {
        "4"
    } else if d == 5 {
        "5"
    } else if d == 6 {
        "6"
    } else if d == 7 {
        "7"
    } else if d == 8 {
        "8"
    } else {
        "9"
    };
    assert(text@ =~= seq![digit(d as int)]);
    text
}

fn push_decimal(text: &mut String, n: u32)
    ensures
        final(text)@ == old(text)@ + decimal(n as nat),
    decreases n,
{
    if n >= 10 {
        push_decimal(text, n / 10);
    }
    text.append(digit_str(n % 10));
    assert(text@ =~= old(text)@ + decimal(n as nat));
}

fn push_fill(text: &mut String, piece: &str, n: usize)
    requires
        piece@.len() == 1,
    ensures
        final(text)@ == old(text)@ + fill(piece@[0], n as int),
{
    let mut i: usize = 0;
    while i < n
        invariant
            i <= n,
            piece@.len() == 1,
            text@ == old(text)@ + fill(piece@[0], i as int),
        decreases n - i,
    {
        text.append(piece);
        i = i + 1;
        assert(text@ =~= old(text)@ + fill(piece@[0], i as int));
    }
}

fn push_padded_left(text: &mut String, piece: &str, width: usize, filler: &str)
    requires
        filler@.len() == 1,
    ensures
        final(text)@ == old(text)@ + pad_left(piece@, width as int, filler@[0]),
{
    let len: usize = piece.unicode_len();
    if len < width {
        push_fill(text, filler, width - len);
    }
    text.append(piece);
    assert(text@ =~= old(text)@ + pad_left(piece@, width as int, filler@[0]));
}

fn push_padded_right(text: &mut String, piece: &str, width: usize)
    ensures
        final(text)@ == old(text)@ + pad_right(piece@, width as int),
{
    proof {
        reveal_strlit(" ");
    }
    let len: usize = piece.unicode_len();
    text.append(piece);
    if len < width {
        push_fill(text, " ", width - len);
    }
    assert(text@ =~= old(text)@ + pad_right(piece@, width as int));
}

fn decimal_text(n: u32) -> (text: String)
    ensures
        text@ == decimal(n as nat),
{
    let mut text = String::new();
    push_decimal(&mut text, n);
    assert(text@ =~= decimal(n as nat));
    text
}

fn push_offset(text: &mut String, offset: i32)
    ensures
        final(text)@ == old(text)@ + offset_text(offset as int),
{
    proof {
        reveal_strlit("0");
        reveal_strlit("-");
    }
    if offset >= 0 {
        let digits = decimal_text(offset as u32);
        push_padded_left(text, digits.as_str(), 4, "0");
    } else {
        let digits = decimal_text((-(offset as i64)) as u32);
        text.append("-");
        push_padded_left(text, digits.as_str(), 3, "0");
        assert(text@ =~= old(text)@ + offset_text(offset as int));
    }
}

/// The header line of a trace labelled `name`.
pub fn header_line(name: &str) -> (line: String)
    ensures
        line@ == header_text(name@),
{
    let mut line = String::new();
    line.append("== ");
    line.append(name);
    line.append(" ==");
    assert(line@ =~= header_text(name@));
    line
}

impl TraceLine {
    /// Renders the line as text. `value` is the text of the constant, which
    /// a load-constant line ends with; the other lines do not use it.
    pub fn render(&self, value: &str) -> (line: String)
        ensures
            line@ == self.text(value@),
    {
        proof {
            reveal_strlit(" ");
        }
        let mut line = String::new();
        push_offset(&mut line, self.offset);
        line.append(" ");
        match self.instruction {
            Instruction::Return => {
                line.append("OP_RETURN");
            },
            Instruction::Constant { index, .. } => {
                push_padded_right(&mut line, "OP_CONSTANT", 16);
                line.append(" ");
                let digits = decimal_text(index as u32);
                push_padded_left(&mut line, digits.as_str(), 4, " ");
                line.append(" ");
                line.append(value);
            },
            Instruction::Unknown { opcode } => {
                line.append("Unknown opcode ");
                push_decimal(&mut line, opcode as u32);
            },
        }
        assert(line@ =~= self.text(value@));
        line
    }
}

} // verus!
