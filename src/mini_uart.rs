//! Rules of the mini UART: when the line-status register allows a transfer,
//! and which data words a character or a text becomes on the wire.
//!
//! The caller polls the line-status register until the matching `*_ready`
//! function holds, then moves one data word through the I/O register.
use vstd::prelude::*;
use vstd::string::*;

verus! {

/// Line-status bit: the transmitter can take a byte.
pub const LSR_TX_EMPTY: u32 = 0x20;
/// Line-status bit: a received byte is waiting.
pub const LSR_DATA_READY: u32 = 0x1;

/// The line-status word says a byte can be written.
pub fn uart_write_byte_ready(lsr: u32) -> (r: bool)
    ensures
        r == (lsr & LSR_TX_EMPTY != 0),
{
    (lsr & LSR_TX_EMPTY) > 0
}

/// The line-status word says a byte can be read.
pub fn uart_read_byte_ready(lsr: u32) -> (r: bool)
    ensures
        r == (lsr & LSR_DATA_READY != 0),
{
    (lsr & LSR_DATA_READY) > 0
}

/// The data words sent for `c`: a line feed goes out preceded by a carriage
/// return.
pub open spec fn char_words(c: char) -> Seq<u32> {
    if c == '\n' {
        seq!['\r' as u32, '\n' as u32]
    } else {
        seq![c as u32]
    }
}

/// The data words sent for a text: those of its characters, in order.
pub open spec fn text_words(s: Seq<char>) -> Seq<u32>
    decreases s.len(),
{
    if s.len() == 0 {
        Seq::empty()
    } else {
        text_words(s.drop_last()) + char_words(s.last())
    }
}

/// Whether `w` is a Unicode scalar value.
pub open spec fn is_scalar(w: u32) -> bool {
    w < 0xD800 || (0xE000 <= w && w <= 0x10FFFF)
}

/// Relies on `char::from_u32`: `None` for a word that is not a Unicode scalar
/// value, else the character with that code.
#[verifier::external_body]
fn char_from_word(w: u32) -> (r: Option<char>)
    ensures
        r is Some <==> is_scalar(w),
        r matches Some(c) ==> c as u32 == w,
{
    char::from_u32(w)
}

/// The data words to send, one after each wait for the transmitter, to write
/// `c`.
pub fn uart_write_char(c: char) -> (r: Vec<u32>)
    ensures
        r@ == char_words(c),
{
    let mut out: Vec<u32> = Vec::new();
    if c == '\n' {
        out.push('\r' as u32);
    }
    out.push(c as u32);
    assert(out@ =~= char_words(c));
    out
}

/// The character received as data word `word`, or `None` when the word is
/// not a character.
pub fn uart_read_char(word: u32) -> (r: Option<char>)
    ensures
        r is Some <==> is_scalar(word),
        r matches Some(c) ==> c as u32 == word,
{
    char_from_word(word)
}

/// The data words to send, one after each wait for the transmitter, to write
/// `buf`.
pub fn uart_write_text(buf: &str) -> (r: Vec<u32>)
    ensures
        r@ == text_words(buf@),
{
    let n = buf.unicode_len();
    let mut out: Vec<u32> = Vec::new();
    let mut i: usize = 0;
    while i < n
        invariant
            n == buf@.len(),
            i <= n,
            out@ == text_words(buf@.subrange(0, i as int)),
        decreases n - i,
    {
        let c = buf.get_char(i);
        let mut words = uart_write_char(c);
        proof {
            let pre = buf@.subrange(0, i as int);
            let next = buf@.subrange(0, i + 1);
            assert(next.drop_last() =~= pre);
            assert(next.last() == c);
        }
        out.append(&mut words);
        i = i + 1;
    }
    assert(buf@.subrange(0, n as int) =~= buf@);
    out
}

} // verus!
