//! What a JSON text has to keep to before it is handed to the parser.
//!
//! The parser calls itself once for each array or object inside another,
//! keeps the keys of the objects that are open in a buffer that it indexes
//! with sixteen bits, counts the items of an array in thirty-two bits, and
//! adds up the digits of an exponent in a machine word. A text within the
//! limits below brings none of these to its end. The parser also loses its
//! place where an object closes right behind a comma, so such a text, which
//! is never JSON, is told apart here as well. The text is scanned as its
//! UTF-8 bytes: the bytes that the scan looks for occur in no other
//! character.

use vstd::prelude::*;

verus! {

/// How deep arrays and objects may nest.
pub const MAX_NESTING: usize = 128;

/// How many bytes a key may take in the text, between its quotes.
pub const MAX_KEY: usize = 511;

/// How many digits an exponent may have.
pub const MAX_EXPONENT: usize = 9;

/// How many bytes a text may have.
pub const MAX_TEXT: usize = 0xFFFF_FFFF;

/// Where a scan of the bytes of a text stands.
pub struct Scan {
    /// The arrays and objects that are open.
    pub open: nat,
    /// The most that were open at once.
    pub deepest: nat,
    /// The scan is inside a string.
    pub in_string: bool,
    /// Inside a string, the byte before was a backslash that escapes this one.
    pub escaped: bool,
    /// The bytes of the string that is open, or of the one that closed last.
    pub length: nat,
    /// A string has closed and only blanks have followed: a colon now makes it
    /// a key.
    pub pending: bool,
    /// The bytes of the longest key.
    pub longest_key: nat,
    /// The scan is behind the `e` of an exponent, its sign or its digits.
    pub in_exponent: bool,
    /// The byte before was the `e` of an exponent: a sign may follow.
    pub sign_allowed: bool,
    /// The digits of the exponent that is being read.
    pub digits: nat,
    /// The digits of the longest exponent.
    pub longest_exponent: nat,
    /// Outside a string a comma has come and only blanks have followed.
    pub after_comma: bool,
    /// Somewhere a `}` has followed a comma with only blanks between.
    pub dangling_comma: bool,
}

pub open spec fn is_blank(b: u8) -> bool {
    b == 32 || b == 9 || b == 10 || b == 13
}

pub open spec fn is_digit(b: u8) -> bool {
    48 <= b <= 57
}

pub open spec fn larger(a: nat, b: nat) -> nat {
    if a >= b {
        a
    } else {
        b
    }
}

/// The scan with no exponent under way, no string waiting for its colon and
/// no comma waiting for what follows it.
pub open spec fn settled(s: Scan) -> Scan {
    Scan {
        pending: false,
        in_exponent: false,
        sign_allowed: false,
        digits: 0,
        after_comma: false,
        ..s
    }
}

/// The scan after one more byte of a string. Only a quote that no backslash
/// escapes ends the string.
pub open spec fn scan_inside(s: Scan, b: u8) -> Scan {
    if s.escaped {
        Scan { escaped: false, length: s.length + 1, ..s }
    } else if b == 92 {
        Scan { escaped: true, length: s.length + 1, ..s }
    } else if b == 34 {
        Scan { in_string: false, pending: true, ..s }
    } else {
        Scan { length: s.length + 1, ..s }
    }
}

/// The scan after one more byte outside a string.
pub open spec fn scan_outside(s: Scan, b: u8) -> Scan {
    if b == 34 {
        Scan { in_string: true, escaped: false, length: 0, ..settled(s) }
    } else if is_blank(b) {
        Scan { pending: s.pending, after_comma: s.after_comma, ..settled(s) }
    } else if b == 44 {
        Scan { after_comma: true, ..settled(s) }
    } else if b == 58 {
        Scan {
            longest_key: if s.pending {
                larger(s.longest_key, s.length)
            } else {
                s.longest_key
            },
            ..settled(s)
        }
    } else if b == 91 || b == 123 {
        Scan { open: s.open + 1, deepest: larger(s.deepest, s.open + 1), ..settled(s) }
    } else if b == 93 || b == 125 {
        Scan {
            open: if s.open > 0 {
                (s.open - 1) as nat
            } else {
                0
            },
            dangling_comma: s.dangling_comma || (b == 125 && s.after_comma),
            ..settled(s)
        }
    } else if b == 101 || b == 69 {
        Scan { in_exponent: true, sign_allowed: true, ..settled(s) }
    } else if (b == 43 || b == 45) && s.in_exponent && s.sign_allowed {
        Scan { pending: false, after_comma: false, sign_allowed: false, ..s }
    } else if is_digit(b) && s.in_exponent {
        Scan {
            pending: false,
            after_comma: false,
            sign_allowed: false,
            digits: s.digits + 1,
            longest_exponent: larger(s.longest_exponent, s.digits + 1),
            ..s
        }
    } else {
        settled(s)
    }
}

/// The scan before the first byte.
pub open spec fn scan_start() -> Scan {
    Scan {
        open: 0,
        deepest: 0,
        in_string: false,
        escaped: false,
        length: 0,
        pending: false,
        longest_key: 0,
        in_exponent: false,
        sign_allowed: false,
        digits: 0,
        longest_exponent: 0,
        after_comma: false,
        dangling_comma: false,
    }
}

/// The scan after one more byte.
pub open spec fn scan_byte(s: Scan, b: u8) -> Scan {
    if s.in_string {
        scan_inside(s, b)
    } else {
        scan_outside(s, b)
    }
}

/// The scan after the first `n` bytes.
pub open spec fn scan(bytes: Seq<u8>, n: int) -> Scan
    decreases n,
{
    if n <= 0 {
        scan_start()
    } else {
        scan_byte(scan(bytes, n - 1), bytes[n - 1])
    }
}

/// The scan of a whole text.
pub open spec fn spec_measure(text: Seq<char>) -> Scan {
    let bytes = vstd::utf8::encode_utf8(text);
    scan(bytes, bytes.len() as int)
}

/// Whether a text keeps to the limits: its length, how deep it nests, the
/// length of its keys and of its exponents.
pub open spec fn within_limits(text: Seq<char>) -> bool {
    &&& vstd::utf8::encode_utf8(text).len() <= MAX_TEXT
    &&& spec_measure(text).deepest <= MAX_NESTING
    &&& spec_measure(text).longest_key <= MAX_KEY
    &&& spec_measure(text).longest_exponent <= MAX_EXPONENT
}

/// Whether somewhere in a text, outside its strings, a `}` follows a comma
/// with only blanks between. No such text is JSON.
pub open spec fn has_dangling_comma(text: Seq<char>) -> bool {
    spec_measure(text).dangling_comma
}

/// What a scan has measured.
#[derive(Debug, Clone, Copy, PartialEq, Eq)]
pub struct Measure {
    /// How deep arrays and objects nest.
    pub nesting: usize,
    /// The bytes of the longest key.
    pub key: usize,
    /// The digits of the longest exponent.
    pub exponent: usize,
    /// A `}` follows a comma with only blanks between.
    pub dangling_comma: bool,
}

/// Measures a text.
pub fn measure(text: &str) -> (m: Measure)
    ensures
        m.nesting == spec_measure(text@).deepest,
        m.key == spec_measure(text@).longest_key,
        m.exponent == spec_measure(text@).longest_exponent,
        m.dangling_comma == has_dangling_comma(text@),
{
    let bytes = text.as_bytes();
    let mut open: usize = 0;
    let mut deepest: usize = 0;
    let mut in_string = false;
    let mut escaped = false;
    let mut length: usize = 0;
    let mut pending = false;
    let mut longest_key: usize = 0;
    let mut in_exponent = false;
    let mut sign_allowed = false;
    let mut digits: usize = 0;
    let mut longest_exponent: usize = 0;
    let mut after_comma = false;
    let mut dangling_comma = false;
    let mut i: usize = 0;
    while i < bytes.len()
        invariant
            i <= bytes.len(),
            bytes@ == vstd::utf8::encode_utf8(text@),
            open <= i,
            deepest <= i,
            length <= i,
            longest_key <= i,
            digits <= i,
            longest_exponent <= i,
            scan(bytes@, i as int) == (Scan {
                open: open as nat,
                deepest: deepest as nat,
                in_string,
                escaped,
                length: length as nat,
                pending,
                longest_key: longest_key as nat,
                in_exponent,
                sign_allowed,
                digits: digits as nat,
                longest_exponent: longest_exponent as nat,
                after_comma,
                dangling_comma,
            }),
        decreases bytes.len() - i,
    {
        let b: u8 = bytes[i];
        if in_string {
            if escaped {
                escaped = false;
                length = length + 1;
            } else if b == 92 {
                escaped = true;
                length = length + 1;
            } else if b == 34 {
                in_string = false;
                pending = true;
            } else {
                length = length + 1;
            }
        } else if (b == 43 || b == 45) && in_exponent && sign_allowed {
            pending = false;
            after_comma = false;
            sign_allowed = false;
        } else if 48 <= b && b <= 57 && in_exponent {
            pending = false;
            after_comma = false;
            sign_allowed = false;
            digits = digits + 1;
            if longest_exponent < digits {
                longest_exponent = digits;
            }
        } else {
            let was_pending = pending;
            let was_after_comma = after_comma;
            pending = false;
            after_comma = false;
            in_exponent = false;
            sign_allowed = false;
            digits = 0;
            if b == 34 {
                in_string = true;
                escaped = false;
                length = 0;
            } else if b == 32 || b == 9 || b == 10 || b == 13 {
                pending = was_pending;
                after_comma = was_after_comma;
            } else if b == 44 {
                after_comma = true;
            } else if b == 58 {
                if was_pending && longest_key < length {
                    longest_key = length;
                }
            } else if b == 91 || b == 123 {
                open = open + 1;
                if deepest < open {
                    deepest = open;
                }
            } else if b == 93 || b == 125 {
                if open > 0 {
                    open = open - 1;
                }
                if b == 125 && was_after_comma {
                    dangling_comma = true;
                }
            } else if b == 101 || b == 69 {
                in_exponent = true;
                sign_allowed = true;
            }
        }
        i += 1;
    }
    Measure { nesting: deepest, key: longest_key, exponent: longest_exponent, dangling_comma }
}

/// Whether what was measured is within the limits.
pub fn within_measure(m: Measure) -> (b: bool)
    ensures
        b == (m.nesting <= MAX_NESTING && m.key <= MAX_KEY && m.exponent <= MAX_EXPONENT),
{
    m.nesting <= MAX_NESTING && m.key <= MAX_KEY && m.exponent <= MAX_EXPONENT
}

/// Whether a text keeps to the limits.
pub fn check_limits(text: &str) -> (b: bool)
    ensures
        b == within_limits(text@),
{
    if text.as_bytes().len() > MAX_TEXT {
        return false;
    }
    within_measure(measure(text))
}

} // verus!
