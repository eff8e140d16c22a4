//! Base64 with the standard alphabet and padding, as a function on bytes.
//!
//! The encoding itself is done by the `base64` crate. What it returns is
//! stated here, together with the proof that nothing is lost: the bytes can
//! be read back from the text.

use base64::engine::general_purpose::STANDARD;
use base64::Engine;
use vstd::prelude::*;

verus! {

/// The character that stands for the six-bit value `v`.
pub open spec fn symbol(v: int) -> char {
    if 0 <= v < 26 {
        ((65 + v) as u8) as char
    } else if 26 <= v < 52 {
        ((71 + v) as u8) as char
    } else if 52 <= v < 62 {
        ((v - 4) as u8) as char
    } else if v == 62 {
        '+'
    } else {
        '/'
    }
}

/// The six-bit value that `c` stands for, if it is a character of the alphabet.
pub open spec fn symbol_value(c: char) -> Option<int> {
    if 'A' <= c && c <= 'Z' {
        Some(c as u8 - 65)
    } else if 'a' <= c && c <= 'z' {
        Some(c as u8 - 71)
    } else if '0' <= c && c <= '9' {
        Some(c as u8 + 4)
    } else if c == '+' {
        Some(62)
    } else if c == '/' {
        Some(63)
    } else {
        None
    }
}

/// The base64 text of `data`: four characters for every three bytes, the
/// last group filled up with `=`.
pub open spec fn base64_text(data: Seq<u8>) -> Seq<char>
    decreases data.len(),
{
    if data.len() == 0 {
        Seq::empty()
    } else if data.len() == 1 {
        let a = data[0] as int;
        seq![symbol(a / 4), symbol((a % 4) * 16), '=', '=']
    } else if data.len() == 2 {
        let a = data[0] as int;
        let b = data[1] as int;
        seq![symbol(a / 4), symbol((a % 4) * 16 + b / 16), symbol((b % 16) * 4), '=']
    } else {
        let a = data[0] as int;
        let b = data[1] as int;
        let c = data[2] as int;
        seq![
            symbol(a / 4),
            symbol((a % 4) * 16 + b / 16),
            symbol((b % 16) * 4 + c / 64),
            symbol(c % 64),
        ] + base64_text(data.skip(3))
    }
}

/// The bytes that the base64 text `text` stands for, if it is one.
pub open spec fn base64_bytes(text: Seq<char>) -> Option<Seq<u8>>
    decreases text.len(),
{
    if text.len() == 0 {
        Some(Seq::empty())
    } else if text.len() < 4 {
        None
    } else {
        match (symbol_value(text[0]), symbol_value(text[1])) {
            (Some(p), Some(q)) => {
                if text.len() == 4 && text[3] == '=' {
                    if text[2] == '=' {
                        Some(seq![(p * 4 + q / 16) as u8])
                    } else {
                        match symbol_value(text[2]) {
                            Some(r) => Some(
                                seq![(p * 4 + q / 16) as u8, ((q % 16) * 16 + r / 4) as u8],
                            ),
                            None => None,
                        }
                    }
                } else {
                    match (symbol_value(text[2]), symbol_value(text[3]), base64_bytes(text.skip(4))) {
                        (Some(r), Some(s), Some(rest)) => Some(
                            seq![
                                (p * 4 + q / 16) as u8,
                                ((q % 16) * 16 + r / 4) as u8,
                                ((r % 4) * 64 + s) as u8,
                            ] + rest,
                        ),
                        _ => None,
                    }
                }
            },
            _ => None,
        }
    }
}

/// Each six-bit value is read back from its character, and no character of
/// the alphabet is the padding character.
pub proof fn lemma_symbol_value(v: int)
    requires
        0 <= v < 64,
    ensures
        symbol_value(symbol(v)) == Some(v),
        symbol(v) != '=',
{
}

/// Decoding the base64 text of `data` gives `data` back.
pub proof fn lemma_base64_round_trip(data: Seq<u8>)
    ensures
        base64_bytes(base64_text(data)) == Some(data),
    decreases data.len(),
{
    let text = base64_text(data);
    if data.len() == 0 {
    } else if data.len() == 1 {
        let a = data[0] as int;
        lemma_symbol_value(a / 4);
        lemma_symbol_value((a % 4) * 16);
        assert(seq![((a / 4) * 4 + ((a % 4) * 16) / 16) as u8] =~= data);
    } else if data.len() == 2 {
        let a = data[0] as int;
        let b = data[1] as int;
        lemma_symbol_value(a / 4);
        lemma_symbol_value((a % 4) * 16 + b / 16);
        lemma_symbol_value((b % 16) * 4);
        let q = (a % 4) * 16 + b / 16;
        let r = (b % 16) * 4;
        assert(seq![((a / 4) * 4 + q / 16) as u8, ((q % 16) * 16 + r / 4) as u8] =~= data);
    } else {
        let a = data[0] as int;
        let b = data[1] as int;
        let c = data[2] as int;
        let q = (a % 4) * 16 + b / 16;
        let r = (b % 16) * 4 + c / 64;
        let s = c % 64;
        lemma_symbol_value(a / 4);
        lemma_symbol_value(q);
        lemma_symbol_value(r);
        lemma_symbol_value(s);
        lemma_base64_round_trip(data.skip(3));
        assert(text.skip(4) =~= base64_text(data.skip(3)));
        assert(text.len() > 4 || text[3] != '=');
        assert(seq![
            ((a / 4) * 4 + q / 16) as u8,
            ((q % 16) * 16 + r / 4) as u8,
            ((r % 4) * 64 + s) as u8,
        ] + data.skip(3) =~= data);
    }
}

/// `Engine::encode` of the `STANDARD` engine of `base64`: the standard
/// alphabet of RFC 4648 with padding. The contract states that encoding;
/// the crate computes it. The call panics only where the length of the text
/// does not fit a `usize`, which no slice in memory is long enough for.
#[verifier::external_body]
pub(crate) fn base64_encode(data: &[u8]) -> (text: String)
    ensures
        text@ == base64_text(data@),
{
    STANDARD.encode(data)
}

} // verus!
