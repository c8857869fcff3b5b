//! The game's own text alphabet, and the encoder from Unicode text into it.
use vstd::prelude::*;

verus! {

/// Start a text section.
pub const TEXT_START: u8 = 0x00;

/// A space character.
pub const SPACE: u8 = 0x7F;

/// Move down a line.
pub const LINE_DOWN: u8 = 0x4E;

/// Start writing to the bottom line.
pub const BOTTOM_LINE: u8 = 0x4F;

/// Start a new paragraph.
pub const PARAGRAPH: u8 = 0x51;

/// Scroll to the next line.
pub const SCROLL_LINE: u8 = 0x55;

/// End the message box.
pub const END_MSG: u8 = 0x57;

/// Prompt the player to close the text box.
pub const END_PROMPT: u8 = 0x58;

/// Terminates a string.
pub const TERMINATOR: u8 = 0x50;

/// The code of the question mark, which also stands for every character that
/// the alphabet lacks.
pub const QUESTION_MARK: u8 = 0xE6;

/// The game's byte for character `c`.
pub open spec fn char_code(c: char) -> u8 {
    let v = c as u32;
    if 'A' as u32 <= v && v <= 'Z' as u32 {
        (0x80 + (v - 'A' as u32)) as u8
    } else if c == '(' {
        0x9A
    } else if c == ')' {
        0x9B
    } else if c == ':' {
        0x9C
    } else if c == ';' {
        0x9D
    } else if c == '[' {
        0x9E
    } else if c == ']' {
        0x9F
    } else if 'a' as u32 <= v && v <= 'z' as u32 {
        (0xA0 + (v - 'a' as u32)) as u8
    } else if c == '\'' {
        0xE0
    } else if c == '-' {
        0xE3
    } else if c == '?' {
        QUESTION_MARK
    } else if c == '!' {
        0xE7
    } else if c == '.' {
        0xE8
    } else if c == '>' {
        0xED
    } else if c == '/' {
        0xF3
    } else if c == ',' {
        0xF4
    } else if '0' as u32 <= v && v <= '9' as u32 {
        (0xF6 + (v - '0' as u32)) as u8
    } else if c == ' ' {
        SPACE
    } else if c == '\n' {
        LINE_DOWN
    } else {
        QUESTION_MARK
    }
}

/// The game's bytes for text `s`, one byte per character.
pub open spec fn encode_spec(s: Seq<char>) -> Seq<u8> {
    s.map_values(|c: char| char_code(c))
}

/// Converts one character into the game's alphabet; characters that the
/// alphabet lacks become a question mark.
pub fn encode_char(c: char) -> (r: u8)
    ensures
        r == char_code(c),
{
    let v = c as u32;
    if 'A' as u32 <= v && v <= 'Z' as u32 {
        (0x80 + (v - 'A' as u32)) as u8
    } else if c == '(' {
        0x9A
    } else if c == ')' {
        0x9B
    } else if c == ':' {
        0x9C
    } else if c == ';' {
        0x9D
    } else if c == '[' {
        0x9E
    } else if c == ']' {
        0x9F
    } else if 'a' as u32 <= v && v <= 'z' as u32 {
        (0xA0 + (v - 'a' as u32)) as u8
    } else if c == '\'' {
        0xE0
    } else if c == '-' {
        0xE3
    } else if c == '?' {
        QUESTION_MARK
    } else if c == '!' {
        0xE7
    } else if c == '.' {
        0xE8
    } else if c == '>' {
        0xED
    } else if c == '/' {
        0xF3
    } else if c == ',' {
        0xF4
    } else if '0' as u32 <= v && v <= '9' as u32 {
        (0xF6 + (v - '0' as u32)) as u8
    } else if c == ' ' {
        SPACE
    } else if c == '\n' {
        LINE_DOWN
    } else {
        QUESTION_MARK
    }
}

/// Hands out the game's bytes for a text, one character at a time.
pub struct Encoder<'a> {
    base: &'a str,
}

impl<'a> Encoder<'a> {
    /// The characters not yet encoded.
    pub closed spec fn rest(&self) -> Seq<char> {
        self.base@
    }

    pub fn new(text: &'a str) -> (r: Encoder<'a>)
        ensures
            r.rest() == text@,
    {
        Encoder { base: text }
    }

    /// Encodes the next character, or returns `None` once the text is used up.
    pub fn next(&mut self) -> (r: Option<u8>)
        ensures
            old(self).rest().len() == 0 ==> r is None && final(self).rest() == old(self).rest(),
            old(self).rest().len() > 0 ==> r == Some(char_code(old(self).rest()[0]))
                && final(self).rest() == old(self).rest().drop_first(),
    {
        match slice_shift_char(self.base) {
            Some((c, rest)) => {
                self.base = rest;
                Some(encode_char(c))
            },
            None => None,
        }
    }

    /// Encodes all remaining characters.
    pub fn collect_bytes(&mut self) -> (r: Vec<u8>)
        ensures
            r@ == encode_spec(old(self).rest()),
            final(self).rest().len() == 0,
    {
        let ghost start = self.rest();
        let mut out: Vec<u8> = Vec::new();
        loop
            invariant
                start.len() == out@.len() + self.rest().len(),
                start == start.subrange(0, out@.len() as int) + self.rest(),
                out@ == encode_spec(start.subrange(0, out@.len() as int)),
            ensures
                out@ == encode_spec(start),
                self.rest().len() == 0,
            decreases self.rest().len(),
        {
            let ghost before = self.rest();
            match self.next() {
                Some(b) => {
                    proof {
                        let n = out@.len() as int;
                        assert(start.subrange(0, n + 1) =~= start.subrange(0, n).push(before[0]))
                            by {
                            assert(start[n] == before[0]);
                        }
                        assert(start =~= start.subrange(0, n + 1) + self.rest());
                        assert(encode_spec(start.subrange(0, n + 1)) =~= out@.push(b));
                    }
                    out.push(b);
                },
                None => {
                    assert(start.subrange(0, out@.len() as int) =~= start);
                    break;
                },
            }
        }
        out
    }
}

/// The game's bytes for a whole text.
pub fn encode_str(text: &str) -> (r: Vec<u8>)
    ensures
        r@ == encode_spec(text@),
{
    let mut e = Encoder::new(text);
    e.collect_bytes()
}

/// The character at position `index` of `s`, counted in characters.
pub fn char_at(s: &str, index: usize) -> (r: char)
    requires
        index < s@.len(),
    ensures
        r == s@[index as int],
{
    s.get_char(index)
}

/// Splits off the first character of `s`, or `None` when `s` is empty.
pub fn slice_shift_char(s: &str) -> (r: Option<(char, &str)>)
    ensures
        s@.len() == 0 <==> r is None,
        r matches Some((c, rest)) ==> c == s@[0] && rest@ == s@.drop_first(),
{
    let n = s.unicode_len();
    if n == 0 {
        None
    } else {
        let c = char_at(s, 0);
        let rest = s.substring_char(1, n);
        assert(rest@ =~= s@.drop_first());
        Some((c, rest))
    }
}

} // verus!
