//! Embedding text in a JSON string, byte by byte.
//!
//! Only bytes below 0x80 are ever rewritten, so well-formed UTF-8 stays
//! well-formed and every byte of a longer sequence passes through untouched.

use vstd::prelude::*;

verus! {

/// The double quote, which opens and closes a JSON string.
pub const QUOTE: u8 = 0x22;

/// The backslash, which begins every escape.
pub const BACKSLASH: u8 = 0x5c;

/// The lower-case hexadecimal digit for a value below sixteen.
pub open spec fn hex_digit_spec(value: u8) -> u8 {
    if value < 10 {
        (0x30 + value) as u8
    } else {
        (0x61 + (value - 10)) as u8
    }
}

/// The value of a hexadecimal digit, of either case.
pub open spec fn hex_value_spec(digit: u8) -> Option<u8> {
    if 0x30 <= digit <= 0x39 {
        Some((digit - 0x30) as u8)
    } else if 0x61 <= digit <= 0x66 {
        Some((digit - 0x61 + 10) as u8)
    } else if 0x41 <= digit <= 0x46 {
        Some((digit - 0x41 + 10) as u8)
    } else {
        None
    }
}

/// The letter that follows the backslash in the short escape of `byte`, for
/// the bytes that have one.
pub open spec fn short_escape_spec(byte: u8) -> Option<u8> {
    if byte == QUOTE {
        Some(QUOTE)
    } else if byte == BACKSLASH {
        Some(BACKSLASH)
    } else if byte == 0x08 {
        Some(0x62u8)
    } else if byte == 0x0c {
        Some(0x66u8)
    } else if byte == 0x0a {
        Some(0x6eu8)
    } else if byte == 0x0d {
        Some(0x72u8)
    } else if byte == 0x09 {
        Some(0x74u8)
    } else {
        None
    }
}

/// The byte that a backslash and `letter` stand for, for the letters that
/// JSON gives a meaning to on their own.
pub open spec fn short_unescape_spec(letter: u8) -> Option<u8> {
    if letter == QUOTE {
        Some(QUOTE)
    } else if letter == BACKSLASH {
        Some(BACKSLASH)
    } else if letter == 0x2f {
        Some(0x2fu8)
    } else if letter == 0x62 {
        Some(0x08u8)
    } else if letter == 0x66 {
        Some(0x0cu8)
    } else if letter == 0x6e {
        Some(0x0au8)
    } else if letter == 0x72 {
        Some(0x0du8)
    } else if letter == 0x74 {
        Some(0x09u8)
    } else {
        None
    }
}

/// How one byte is written inside a JSON string: the quote, the backslash
/// and the control bytes are escaped, every other byte stands for itself.
pub open spec fn escape_byte_spec(byte: u8) -> Seq<u8> {
    match short_escape_spec(byte) {
        Some(letter) => seq![BACKSLASH, letter],
        None => if byte < 0x20 {
            seq![
                BACKSLASH,
                0x75u8,
                0x30u8,
                0x30u8,
                hex_digit_spec(byte / 16),
                hex_digit_spec(byte % 16),
            ]
        } else {
            seq![byte]
        },
    }
}

/// How a text is written inside a JSON string.
pub open spec fn escape_spec(text: Seq<u8>) -> Seq<u8>
    decreases text.len(),
{
    if text.len() == 0 {
        Seq::empty()
    } else {
        escape_byte_spec(text[0]) + escape_spec(text.drop_first())
    }
}

/// `byte` before what `rest` decodes to.
pub open spec fn decoded_after(byte: u8, rest: Option<Seq<u8>>) -> Option<Seq<u8>> {
    match rest {
        Some(text) => Some(seq![byte] + text),
        None => None,
    }
}

/// Reads the inside of a JSON string back: the text it stands for, or
/// nothing where it holds a bare quote, a bare control byte, a broken
/// escape, or a `\u` escape of anything beyond the single-byte range.
pub open spec fn unescape_spec(written: Seq<u8>) -> Option<Seq<u8>>
    decreases written.len(),
{
    if written.len() == 0 {
        Some(Seq::empty())
    } else if written[0] == BACKSLASH {
        if written.len() < 2 {
            None
        } else if short_unescape_spec(written[1]) is Some {
            decoded_after(short_unescape_spec(written[1])->0, unescape_spec(written.skip(2)))
        } else if written.len() >= 6 && written[1] == 0x75 && written[2] == 0x30 && written[3]
            == 0x30 && hex_value_spec(written[4]) is Some && hex_value_spec(written[5]) is Some
            && hex_value_spec(written[4])->0 < 8 {
            decoded_after(
                (hex_value_spec(written[4])->0 * 16 + hex_value_spec(written[5])->0) as u8,
                unescape_spec(written.skip(6)),
            )
        } else {
            None
        }
    } else if written[0] == QUOTE || written[0] < 0x20 {
        None
    } else {
        decoded_after(written[0], unescape_spec(written.skip(1)))
    }
}

/// Escaping a text and then another is escaping the two joined.
pub proof fn lemma_escape_concat(first: Seq<u8>, second: Seq<u8>)
    ensures
        escape_spec(first + second) == escape_spec(first) + escape_spec(second),
    decreases first.len(),
{
    if first.len() == 0 {
        assert(first + second =~= second);
        assert(escape_spec(first) + escape_spec(second) =~= escape_spec(second));
    } else {
        lemma_escape_concat(first.drop_first(), second);
        assert((first + second).drop_first() =~= first.drop_first() + second);
        assert(escape_byte_spec(first[0]) + (escape_spec(first.drop_first()) + escape_spec(second))
            =~= (escape_byte_spec(first[0]) + escape_spec(first.drop_first())) + escape_spec(
            second,
        ));
    }
}

/// Reading back one escaped byte gives that byte, whatever follows it.
pub proof fn lemma_unescape_one(byte: u8, rest: Seq<u8>)
    ensures
        unescape_spec(escape_byte_spec(byte) + rest) == decoded_after(byte, unescape_spec(rest)),
{
    let written = escape_byte_spec(byte) + rest;
    if short_escape_spec(byte) is Some {
        assert(written.skip(2) =~= rest);
    } else if byte < 0x20 {
        assert(written.skip(6) =~= rest);
        assert(short_unescape_spec(written[1]) is None);
        let high = (byte / 16) as u8;
        let low = (byte % 16) as u8;
        assert(hex_value_spec(hex_digit_spec(high)) == Some(high));
        assert(hex_value_spec(hex_digit_spec(low)) == Some(low));
        assert(high * 16 + low == byte);
    } else {
        assert(written.skip(1) =~= rest);
    }
}

/// Escaping loses nothing: what is read back from an escaped text is the
/// text, for every text.
pub proof fn law_escape_round_trip(text: Seq<u8>)
    ensures
        unescape_spec(escape_spec(text)) == Some(text),
    decreases text.len(),
{
    if text.len() > 0 {
        law_escape_round_trip(text.drop_first());
        lemma_unescape_one(text[0], escape_spec(text.drop_first()));
        assert(seq![text[0]] + text.drop_first() =~= text);
    }
}

/// An escaped text holds no control byte, and no quote without a backslash
/// right before it.
pub proof fn law_escaped_text_is_inert(text: Seq<u8>, at: int)
    requires
        0 <= at < escape_spec(text).len(),
    ensures
        escape_spec(text)[at] >= 0x20,
        escape_spec(text)[at] == QUOTE ==> at > 0 && escape_spec(text)[at - 1] == BACKSLASH,
    decreases text.len(),
{
    if text.len() > 0 {
        let head = escape_byte_spec(text[0]);
        let tail = escape_spec(text.drop_first());
        if at >= head.len() {
            law_escaped_text_is_inert(text.drop_first(), at - head.len());
            assert(escape_spec(text)[at] == tail[at - head.len()]);
            if at - head.len() > 0 {
                assert(escape_spec(text)[at - 1] == tail[at - head.len() - 1]);
            }
        }
    }
}

/// The lower-case hexadecimal digit for a value below sixteen.
fn hex_digit(value: u8) -> (digit: u8)
    requires
        value < 16,
    ensures
        digit == hex_digit_spec(value),
{
    if value < 10 {
        0x30 + value
    } else {
        0x61 + (value - 10)
    }
}

/// Appends one byte to `out` as it is written inside a JSON string.
pub fn escape_byte_into(out: &mut Vec<u8>, byte: u8)
    ensures
        final(out)@ == old(out)@ + escape_byte_spec(byte),
{
    let ghost before = out@;
    if byte == QUOTE {
        out.push(BACKSLASH);
        out.push(QUOTE);
    } else if byte == BACKSLASH {
        out.push(BACKSLASH);
        out.push(BACKSLASH);
    } else if byte == 0x08 {
        out.push(BACKSLASH);
        out.push(0x62);
    } else if byte == 0x0c {
        out.push(BACKSLASH);
        out.push(0x66);
    } else if byte == 0x0a {
        out.push(BACKSLASH);
        out.push(0x6e);
    } else if byte == 0x0d {
        out.push(BACKSLASH);
        out.push(0x72);
    } else if byte == 0x09 {
        out.push(BACKSLASH);
        out.push(0x74);
    } else if byte < 0x20 {
        out.push(BACKSLASH);
        out.push(0x75);
        out.push(0x30);
        out.push(0x30);
        out.push(hex_digit(byte / 16));
        out.push(hex_digit(byte % 16));
    } else {
        out.push(byte);
    }
    assert(out@ =~= before + escape_byte_spec(byte));
}

/// Appends `text` to `out` as it is written inside a JSON string.
pub fn escape_into(out: &mut Vec<u8>, text: &[u8])
    ensures
        final(out)@ == old(out)@ + escape_spec(text@),
{
    let ghost before = out@;
    let mut i: usize = 0;
    assert(text@.take(0) =~= Seq::<u8>::empty());
    assert(out@ =~= before + escape_spec(text@.take(0)));
    while i < text.len()
        invariant
            i <= text.len(),
            out@ == before + escape_spec(text@.take(i as int)),
        decreases text.len() - i,
    {
        escape_byte_into(out, text[i]);
        proof {
            let done = text@.take(i as int);
            let one = seq![text@[i as int]];
            lemma_escape_concat(done, one);
            assert(done + one =~= text@.take(i + 1));
            assert(one.drop_first() =~= Seq::<u8>::empty());
            assert(escape_spec(one.drop_first()) =~= Seq::<u8>::empty());
            assert(escape_spec(one) == escape_byte_spec(one[0]) + escape_spec(one.drop_first()));
            assert(escape_spec(one) =~= escape_byte_spec(text@[i as int]));
            assert(out@ =~= before + escape_spec(text@.take(i + 1)));
        }
        i += 1;
    }
    assert(text@.take(i as int) =~= text@);
}

} // verus!
