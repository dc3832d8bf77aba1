//! The frame that is sent to the probe, and how a line of text fills it.
//!
//! A frame is a buffer of 64 bytes. A line of text holds tokens between
//! white space, each the hexadecimal notation of one byte; the bytes go to
//! the front of the frame in order. A token that is no byte ends the line,
//! and what the line did not reach keeps what it held before.

use vstd::prelude::*;
use vstd::slice::slice_subrange;

verus! {

/// The number of bytes in a frame.
pub const FRAME_CAPACITY: usize = 64;

/// White space between tokens: space, tab, line feed, form feed, carriage
/// return.
pub open spec fn is_space(b: u8) -> bool {
    b == 0x20 || b == 0x09 || b == 0x0a || b == 0x0c || b == 0x0d
}

/// The first position at or after `pos` that holds no white space; the
/// length of the line where only white space follows.
pub open spec fn token_start(line: Seq<u8>, pos: int) -> int
    decreases line.len() - pos,
{
    if 0 <= pos < line.len() && is_space(line[pos]) {
        token_start(line, pos + 1)
    } else {
        pos
    }
}

/// The first position at or after `pos` that holds white space; the length
/// of the line where none follows.
pub open spec fn token_end(line: Seq<u8>, pos: int) -> int
    decreases line.len() - pos,
{
    if 0 <= pos < line.len() && !is_space(line[pos]) {
        token_end(line, pos + 1)
    } else {
        pos
    }
}

/// The tokens of a line from `pos` on: the runs of bytes between white
/// space, in order.
pub open spec fn tokens_from(line: Seq<u8>, pos: int) -> Seq<Seq<u8>>
    decreases line.len() - pos,
{
    let start = token_start(line, pos);
    let end = token_end(line, start);
    if 0 <= pos <= start < end <= line.len() {
        seq![line.subrange(start, end)] + tokens_from(line, end)
    } else {
        Seq::empty()
    }
}

/// The tokens of a line.
pub open spec fn tokens(line: Seq<u8>) -> Seq<Seq<u8>> {
    tokens_from(line, 0)
}

/// The value of a hexadecimal digit, in either case.
pub open spec fn digit_value(b: u8) -> Option<int> {
    if 0x30 <= b <= 0x39 {
        Some(b - 0x30)
    } else if 0x61 <= b <= 0x66 {
        Some(b - 0x61 + 10)
    } else if 0x41 <= b <= 0x46 {
        Some(b - 0x41 + 10)
    } else {
        None
    }
}

/// The number that a run of hexadecimal digits denotes, most significant
/// digit first; nothing where a byte is no digit.
pub open spec fn number(digits: Seq<u8>) -> Option<int>
    decreases digits.len(),
{
    if digits.len() == 0 {
        Some(0)
    } else {
        match (number(digits.drop_last()), digit_value(digits.last())) {
            (Some(value), Some(digit)) => Some(16 * value + digit),
            _ => None,
        }
    }
}

/// The digits of a token: the token without a leading plus sign.
pub open spec fn digits_of(token: Seq<u8>) -> Seq<u8> {
    if token.len() > 0 && token[0] == 0x2b {
        token.drop_first()
    } else {
        token
    }
}

/// The byte that a token denotes: an optional plus sign, then at least one
/// hexadecimal digit, the number no more than 255.
pub open spec fn byte_of(token: Seq<u8>) -> Option<u8> {
    let digits = digits_of(token);
    match number(digits) {
        Some(value) => if digits.len() > 0 && value <= 255 {
            Some(value as u8)
        } else {
            None
        },
        None => None,
    }
}

/// The number of tokens that are stored when storing goes on from token
/// `from`: it stops at the first token that is no byte, at the end of the
/// tokens and when the frame is full.
pub open spec fn accepted(tokens: Seq<Seq<u8>>, from: int) -> int
    decreases tokens.len() - from,
{
    if 0 <= from < tokens.len() && from < FRAME_CAPACITY && byte_of(tokens[from]) is Some {
        accepted(tokens, from + 1)
    } else {
        from
    }
}

/// How the reading of a line ended.
#[derive(Debug, Clone, Copy, PartialEq, Eq, Structural)]
pub enum LineEnd {
    /// Every token was stored.
    Complete,
    /// A token is no byte; it and what follows it were not stored.
    Malformed,
    /// The frame is full and a further byte follows.
    Overflow,
}

/// What a line did to a frame: how many bytes it stored at the front, and
/// how its reading ended.
#[derive(Debug, Clone, Copy, PartialEq, Eq, Structural)]
pub struct Loaded {
    pub count: usize,
    pub end: LineEnd,
}

/// How the reading of a line with these tokens ends.
pub open spec fn end_of(tokens: Seq<Seq<u8>>) -> LineEnd {
    let count = accepted(tokens, 0);
    if count >= tokens.len() {
        LineEnd::Complete
    } else if byte_of(tokens[count]) is None {
        LineEnd::Malformed
    } else {
        LineEnd::Overflow
    }
}

/// The frame after a line was read into it: the bytes of the stored tokens
/// at the front, behind them what the frame held before.
pub open spec fn loaded(before: Seq<u8>, line: Seq<u8>) -> Seq<u8> {
    let count = accepted(tokens(line), 0);
    Seq::new(
        before.len(),
        |i: int|
            if i < count {
                byte_of(tokens(line)[i])->0
            } else {
                before[i]
            },
    )
}

/// The frame: 64 bytes, sent whole with every write.
#[derive(Debug)]
pub struct Frame {
    bytes: [u8; FRAME_CAPACITY],
}

impl View for Frame {
    type V = Seq<u8>;

    closed spec fn view(&self) -> Seq<u8> {
        self.bytes@
    }
}

/// Tells whether a byte is white space.
fn space(b: u8) -> (r: bool)
    ensures
        r == is_space(b),
{
    b == 0x20 || b == 0x09 || b == 0x0a || b == 0x0c || b == 0x0d
}

/// The value of a hexadecimal digit.
fn digit(b: u8) -> (r: Option<u8>)
    ensures
        match r {
            Some(d) => digit_value(b) == Some(d as int) && d < 16,
            None => digit_value(b) is None,
        },
{
    if 0x30 <= b && b <= 0x39 {
        Some(b - 0x30)
    } else if 0x61 <= b && b <= 0x66 {
        Some(b - 0x61 + 10)
    } else if 0x41 <= b && b <= 0x46 {
        Some(b - 0x41 + 10)
    } else {
        None
    }
}

/// A run of digits denotes a number only if each of its beginnings does, and
/// then one that is no less.
proof fn lemma_number_grows(digits: Seq<u8>, n: int)
    requires
        0 <= n <= digits.len(),
    ensures
        number(digits) is Some ==> number(digits.take(n)) is Some && 0 <= number(
            digits.take(n),
        )->0 <= number(digits)->0,
    decreases digits.len(),
{
    if n == digits.len() {
        assert(digits.take(n) =~= digits);
        if digits.len() > 0 {
            lemma_number_grows(digits.drop_last(), n - 1);
        }
    } else {
        assert(digits.drop_last().take(n) =~= digits.take(n));
        lemma_number_grows(digits.drop_last(), n);
    }
}

/// Reads a token as a byte.
pub fn decode_token(token: &[u8]) -> (r: Option<u8>)
    ensures
        r == byte_of(token@),
{
    let len = token.len();
    let first: usize = if len > 0 && token[0] == 0x2b {
        1
    } else {
        0
    };
    if first == len {
        return None;
    }
    let ghost digits = digits_of(token@);
    assert(digits =~= token@.subrange(first as int, len as int));
    let mut value: u16 = 0;
    let mut i: usize = first;
    assert(digits.take(0) =~= Seq::<u8>::empty());
    while i < len
        invariant
            first <= i <= len,
            len == token@.len(),
            digits == digits_of(token@),
            digits == token@.subrange(first as int, len as int),
            number(digits.take(i - first)) == Some(value as int),
            value <= 255,
        decreases len - i,
    {
        let ghost grown = digits.take(i - first + 1);
        assert(grown.drop_last() =~= digits.take(i - first));
        match digit(token[i]) {
            Some(d) => {
                value = 16 * value + d as u16;
                if value > 255 {
                    proof {
                        lemma_number_grows(digits, i - first + 1);
                    }
                    return None;
                }
            },
            None => {
                proof {
                    lemma_number_grows(digits, i - first + 1);
                }
                return None;
            },
        }
        i += 1;
    }
    assert(digits.take(len - first) =~= digits);
    Some(value as u8)
}

impl Frame {
    /// A frame of zeros.
    pub fn new() -> (frame: Self)
        ensures
            frame@ == Seq::new(FRAME_CAPACITY as nat, |i: int| 0u8),
    {
        Frame { bytes: [0u8; FRAME_CAPACITY] }
    }

    /// The bytes of the frame, all 64 of them.
    pub fn bytes(&self) -> (bytes: &[u8])
        ensures
            bytes@ == self@,
            bytes@.len() == FRAME_CAPACITY,
    {
        self.bytes.as_slice()
    }

    /// Reads a line into the frame and tells how far it got.
    pub fn load_line(&mut self, line: &[u8]) -> (r: Loaded)
        ensures
            final(self)@ == loaded(old(self)@, line@),
            final(self)@.len() == FRAME_CAPACITY,
            r.count == accepted(tokens(line@), 0),
            r.end == end_of(tokens(line@)),
    {
        let ghost before = self.bytes@;
        let ghost all = tokens(line@);
        let len = line.len();
        let mut pos: usize = 0;
        let mut count: usize = 0;
        let mut end = LineEnd::Complete;
        let mut reading = true;
        while reading
            invariant
                len == line@.len(),
                all == tokens(line@),
                pos <= len,
                count <= FRAME_CAPACITY,
                count <= all.len(),
                self.bytes@.len() == FRAME_CAPACITY,
                before.len() == FRAME_CAPACITY,
                reading ==> tokens_from(line@, pos as int) =~= all.subrange(
                    count as int,
                    all.len() as int,
                ),
                reading ==> accepted(all, 0) == accepted(all, count as int),
                reading ==> end == LineEnd::Complete,
                !reading ==> count == accepted(all, 0) && end == end_of(all),
                forall|i: int| 0 <= i < count ==> byte_of(#[trigger] all[i]) == Some(self.bytes@[i]),
                forall|i: int| count <= i < FRAME_CAPACITY ==> self.bytes@[i] == before[i],
            decreases len - pos + (if reading { 1int } else { 0int }),
        {
            let ghost from = pos;
            while pos < len && space(line[pos])
                invariant
                    from <= pos <= len,
                    len == line@.len(),
                    token_start(line@, from as int) == token_start(line@, pos as int),
                decreases len - pos,
            {
                pos += 1;
            }
            let start = pos;
            while pos < len && !space(line[pos])
                invariant
                    start <= pos <= len,
                    len == line@.len(),
                    token_end(line@, start as int) == token_end(line@, pos as int),
                decreases len - pos,
            {
                pos += 1;
            }
            assert(token_start(line@, from as int) == start);
            assert(token_end(line@, start as int) == pos);
            if start == pos {
                assert(tokens_from(line@, from as int) =~= Seq::<Seq<u8>>::empty());
                reading = false;
            } else {
                let token = slice_subrange(line, start, pos);
                assert(tokens_from(line@, from as int) == seq![token@] + tokens_from(
                    line@,
                    pos as int,
                ));
                assert(count < all.len()) by {
                    assert(all.subrange(count as int, all.len() as int).len() >= 1);
                }
                assert(all[count as int] == token@) by {
                    assert(all.subrange(count as int, all.len() as int)[0] == token@);
                }
                assert(tokens_from(line@, pos as int) =~= all.subrange(
                    count + 1,
                    all.len() as int,
                )) by {
                    assert forall|i: int| 0 <= i < all.len() - count - 1 implies tokens_from(
                        line@,
                        pos as int,
                    )[i] == all[count + 1 + i] by {
                        assert(all.subrange(count as int, all.len() as int)[i + 1] == all[count
                            + 1 + i]);
                    }
                }
                match decode_token(token) {
                    None => {
                        end = LineEnd::Malformed;
                        reading = false;
                    },
                    Some(value) => {
                        if count == FRAME_CAPACITY {
                            end = LineEnd::Overflow;
                            reading = false;
                        } else {
                            self.bytes[count] = value;
                            count += 1;
                        }
                    },
                }
            }
        }
        Loaded { count, end }
    }
}

} // verus!
