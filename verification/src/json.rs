//! JSON string framing for response bodies.
//!
//! A JSON string holds the text between double quotes, with the quote, the
//! backslash and the control bytes escaped. `escape_bytes` is the
//! specification of that escaping; `escape_json` computes it. `unescape_bytes`
//! reads an escaped run back, and `lemma_unescape_escape` shows that the two
//! are inverse, so a name can always be recovered exactly from the body it
//! was framed into.

use vstd::prelude::*;

verus! {

/// Double quote, `"`.
pub const QUOTE: u8 = 0x22;

/// Backslash, `\`.
pub const BACKSLASH: u8 = 0x5c;

/// The ASCII digit or lowercase letter for a value below sixteen.
pub open spec fn hex_digit(n: u8) -> u8
    recommends
        n < 16,
{
    if n < 10 {
        (0x30 + n) as u8
    } else {
        (0x57 + n) as u8
    }
}

/// How one byte appears inside a JSON string: itself, a two-byte short
/// escape, or a six-byte `\u00..` escape for the remaining control bytes.
pub open spec fn escape_byte(b: u8) -> Seq<u8> {
    if b == QUOTE {
        seq![BACKSLASH, QUOTE]
    } else if b == BACKSLASH {
        seq![BACKSLASH, BACKSLASH]
    } else if b == 0x08 {
        seq![BACKSLASH, 0x62u8]  // \b
    } else if b == 0x09 {
        seq![BACKSLASH, 0x74u8]  // \t
    } else if b == 0x0a {
        seq![BACKSLASH, 0x6eu8]  // \n
    } else if b == 0x0c {
        seq![BACKSLASH, 0x66u8]  // \f
    } else if b == 0x0d {
        seq![BACKSLASH, 0x72u8]  // \r
    } else if b < 0x20 {
        seq![BACKSLASH, 0x75u8, 0x30u8, 0x30u8, hex_digit(b / 16), hex_digit(b % 16)]
    } else {
        seq![b]
    }
}

/// A byte that appears in a JSON string as itself.
pub open spec fn is_plain_byte(b: u8) -> bool {
    b >= 0x20 && b != QUOTE && b != BACKSLASH
}

/// The escaped form of a whole text.
pub open spec fn escape_bytes(s: Seq<u8>) -> Seq<u8>
    decreases s.len(),
{
    if s.len() == 0 {
        Seq::empty()
    } else {
        escape_byte(s[0]) + escape_bytes(s.drop_first())
    }
}

/// Escaping a text one byte longer appends that byte's escape.
pub proof fn lemma_escape_bytes_push(s: Seq<u8>, b: u8)
    ensures
        escape_bytes(s.push(b)) == escape_bytes(s) + escape_byte(b),
    decreases s.len(),
{
    if s.len() == 0 {
        assert(s.push(b).drop_first() =~= Seq::<u8>::empty());
        assert(s.push(b)[0] == b);
        assert(escape_bytes(s.push(b)) == escape_byte(b) + escape_bytes(Seq::<u8>::empty()));
        assert(escape_byte(b) + escape_bytes(Seq::<u8>::empty()) =~= escape_byte(b));
        assert(escape_bytes(s) + escape_byte(b) =~= escape_byte(b));
    } else {
        assert(s.push(b).drop_first() =~= s.drop_first().push(b));
        lemma_escape_bytes_push(s.drop_first(), b);
        assert(escape_bytes(s.push(b)) =~= escape_bytes(s) + escape_byte(b));
    }
}

/// A text of plain bytes is its own escaped form.
pub proof fn lemma_escape_plain(s: Seq<u8>)
    requires
        forall|i: int| 0 <= i < s.len() ==> is_plain_byte(s[i]),
    ensures
        escape_bytes(s) == s,
    decreases s.len(),
{
    if s.len() > 0 {
        lemma_escape_plain(s.drop_first());
        assert(escape_bytes(s) =~= s);
    }
}

/// The digit value of an ASCII hex digit written by `hex_digit`.
pub open spec fn unhex(c: u8) -> u8 {
    if 0x30 <= c && c <= 0x39 {
        (c - 0x30) as u8
    } else {
        (c - 0x57) as u8
    }
}

/// The byte a short escape code stands for.
pub open spec fn unescape_code(c: u8) -> u8 {
    if c == 0x62 {
        0x08
    } else if c == 0x74 {
        0x09
    } else if c == 0x6e {
        0x0a
    } else if c == 0x66 {
        0x0c
    } else if c == 0x72 {
        0x0d
    } else {
        c
    }
}

/// Reads an escaped run back to the text it frames.
pub open spec fn unescape_bytes(s: Seq<u8>) -> Seq<u8>
    decreases s.len(),
{
    if s.len() == 0 {
        Seq::empty()
    } else if s[0] != BACKSLASH {
        seq![s[0]] + unescape_bytes(s.drop_first())
    } else if s.len() >= 6 && s[1] == 0x75 {
        seq![((unhex(s[4]) * 16 + unhex(s[5])) as u8)] + unescape_bytes(s.skip(6))
    } else if s.len() >= 2 {
        seq![unescape_code(s[1])] + unescape_bytes(s.skip(2))
    } else {
        Seq::empty()
    }
}

/// Escaping loses nothing: reading the escaped form back gives the text
/// itself, for every byte sequence.
pub proof fn lemma_unescape_escape(s: Seq<u8>)
    ensures
        unescape_bytes(escape_bytes(s)) == s,
    decreases s.len(),
{
    if s.len() == 0 {
    } else {
        let b = s[0];
        let eb = escape_byte(b);
        let tail = escape_bytes(s.drop_first());
        lemma_unescape_escape(s.drop_first());
        assert(escape_bytes(s) == eb + tail);
        if is_plain_byte(b) {
            assert((eb + tail)[0] == b);
            assert((eb + tail).drop_first() =~= tail);
            assert(unescape_bytes(eb + tail) =~= s);
        } else if b < 0x20 && b != 0x08 && b != 0x09 && b != 0x0a && b != 0x0c && b != 0x0d {
            assert((eb + tail)[0] == BACKSLASH);
            assert((eb + tail)[1] == 0x75);
            assert((eb + tail).len() >= 6);
            assert((eb + tail)[4] == hex_digit(b / 16));
            assert((eb + tail)[5] == hex_digit(b % 16));
            assert(unhex(hex_digit(b / 16)) == b / 16);
            assert(unhex(hex_digit(b % 16)) == b % 16);
            assert(b / 16 * 16 + b % 16 == b) by (nonlinear_arith);
            assert((eb + tail).skip(6) =~= tail);
            assert(unescape_bytes(eb + tail) =~= s);
        } else {
            assert((eb + tail)[0] == BACKSLASH);
            assert((eb + tail)[1] == eb[1]);
            assert(eb[1] != 0x75);
            assert((eb + tail).len() >= 2);
            assert(unescape_code(eb[1]) == b);
            assert((eb + tail).skip(2) =~= tail);
            assert(unescape_bytes(eb + tail) =~= s);
        }
    }
}

/// The ASCII digit or lowercase letter for a value below sixteen.
fn to_hex_digit(n: u8) -> (r: u8)
    requires
        n < 16,
    ensures
        r == hex_digit(n),
{
    if n < 10 {
        0x30 + n
    } else {
        0x57 + n
    }
}

/// Escapes a text for inclusion in a JSON string.
pub fn escape_json(s: &[u8]) -> (out: Vec<u8>)
    ensures
        out@ == escape_bytes(s@),
{
    let mut out: Vec<u8> = Vec::new();
    let mut i: usize = 0;
    while i < s.len()
        invariant
            i <= s.len(),
            out@ == escape_bytes(s@.take(i as int)),
        decreases s.len() - i,
    {
        let b = s[i];
        proof {
            assert(s@.take(i as int).push(b) =~= s@.take(i + 1 as int));
            lemma_escape_bytes_push(s@.take(i as int), b);
        }
        if b == QUOTE {
            out.push(BACKSLASH);
            out.push(QUOTE);
        } else if b == BACKSLASH {
            out.push(BACKSLASH);
            out.push(BACKSLASH);
        } else if b == 0x08 {
            out.push(BACKSLASH);
            out.push(0x62);
        } else if b == 0x09 {
            out.push(BACKSLASH);
            out.push(0x74);
        } else if b == 0x0a {
            out.push(BACKSLASH);
            out.push(0x6e);
        } else if b == 0x0c {
            out.push(BACKSLASH);
            out.push(0x66);
        } else if b == 0x0d {
            out.push(BACKSLASH);
            out.push(0x72);
        } else if b < 0x20 {
            out.push(BACKSLASH);
            out.push(0x75);
            out.push(0x30);
            out.push(0x30);
            out.push(to_hex_digit(b / 16));
            out.push(to_hex_digit(b % 16));
        } else {
            out.push(b);
        }
        assert(out@ =~= escape_bytes(s@.take(i + 1 as int)));
        i = i + 1;
    }
    proof {
        assert(s@.take(s@.len() as int) =~= s@);
    }
    out
}

} // verus!
