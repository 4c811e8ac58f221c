//! A scan of the text of an interface description, made before the text is handed
//! to the decoder.
//!
//! The decoder reads every parameter type from a string of the text. On a string
//! that ends in `)` or `]` it cuts the string at the positions of its brackets,
//! counted in characters, and reads the pieces again, once for each bracket. It
//! does so without a check: a `]` with no `[` before it, a character of more than
//! one byte, or a very long run of brackets stops the program. The scan here
//! finds every string of the text and says whether all of them are tame, so that
//! no such string reaches the decoder.

use vstd::prelude::*;

verus! {

/// The longest string ending in `)` or `]` that counts as tame, in bytes.
pub const MAX_TYPE_LENGTH: usize = 256;

/// What the scan knows after a number of bytes.
#[derive(Clone, Copy, Debug, PartialEq, Eq, Structural)]
pub struct Scan {
    /// Whether every string that has ended so far is tame.
    pub tame: bool,
    /// Whether the scan is inside a string.
    pub in_string: bool,
    /// Whether the last byte was a backslash that escapes the next one.
    pub escaped: bool,
    /// Whether the string holds a backslash.
    pub has_escape: bool,
    /// Whether the string holds a byte outside ASCII.
    pub non_ascii: bool,
    /// Whether a `[` of the string still waits for its `]`.
    pub open: bool,
    /// Whether the string breaks the form of brackets: only digits between a `[`
    /// and the next `]`, and no `]` without a `[`.
    pub bad_brackets: bool,
    /// The number of bytes of the string, counted up to one above the bound.
    pub len: usize,
    /// The last byte of the string.
    pub last: u8,
}

/// The scan before the first byte.
pub open spec fn scan_start() -> Scan {
    Scan {
        tame: true,
        in_string: false,
        escaped: false,
        has_escape: false,
        non_ascii: false,
        open: false,
        bad_brackets: false,
        len: 0,
        last: 0,
    }
}

/// Whether a byte is a decimal digit.
pub open spec fn is_digit(b: u8) -> bool {
    0x30 <= b <= 0x39
}

/// Whether a byte is a hexadecimal digit of either case.
pub open spec fn is_hex_digit(b: u8) -> bool {
    is_digit(b) || 0x41 <= b <= 0x46 || 0x61 <= b <= 0x66
}

/// Whether a byte is `)` or `]`.
pub open spec fn is_closer(b: u8) -> bool {
    b == 0x29 || b == 0x5d
}

/// Whether the string that the scan has just seen to its end is tame.
///
/// A string without a backslash is the text that the decoder gets. If it ends in
/// `)` or `]` it must be ASCII, at most `MAX_TYPE_LENGTH` bytes long, and every
/// `[` in it must be followed by digits only and then by `]`, with no other `]`.
/// A string with a backslash stands for another text; it is tame if that text
/// cannot end in `)` or `]`: its last byte is neither of the two nor a
/// hexadecimal digit, which is how an escaped character code ends.
pub open spec fn string_is_tame(s: Scan) -> bool {
    if s.has_escape {
        !is_closer(s.last) && !is_hex_digit(s.last)
    } else if s.len > 0 && is_closer(s.last) {
        !s.non_ascii && !s.bad_brackets && !s.open && s.len <= MAX_TYPE_LENGTH
    } else {
        true
    }
}

/// The count of a string's bytes after one more.
pub open spec fn counted(len: usize) -> usize {
    if len <= MAX_TYPE_LENGTH {
        (len + 1) as usize
    } else {
        len
    }
}

/// The scan after one more byte. Outside a string only a quote matters: it
/// starts a string. Inside a string a backslash escapes the next byte, and a
/// quote that is not escaped ends the string.
pub open spec fn scan_step(s: Scan, b: u8) -> Scan {
    if !s.in_string {
        if b == 0x22 {
            Scan {
                tame: s.tame,
                in_string: true,
                escaped: false,
                has_escape: false,
                non_ascii: false,
                open: false,
                bad_brackets: false,
                len: 0,
                last: 0,
            }
        } else {
            s
        }
    } else if s.escaped {
        Scan {
            tame: s.tame,
            in_string: true,
            escaped: false,
            has_escape: true,
            non_ascii: s.non_ascii || b >= 0x80,
            open: s.open,
            bad_brackets: s.bad_brackets,
            len: counted(s.len),
            last: b,
        }
    } else if b == 0x5c {
        Scan {
            tame: s.tame,
            in_string: true,
            escaped: true,
            has_escape: true,
            non_ascii: s.non_ascii,
            open: s.open,
            bad_brackets: s.bad_brackets,
            len: counted(s.len),
            last: b,
        }
    } else if b == 0x22 {
        Scan {
            tame: s.tame && string_is_tame(s),
            in_string: false,
            escaped: false,
            has_escape: false,
            non_ascii: false,
            open: false,
            bad_brackets: false,
            len: 0,
            last: 0,
        }
    } else {
        Scan {
            tame: s.tame,
            in_string: true,
            escaped: false,
            has_escape: s.has_escape,
            non_ascii: s.non_ascii || b >= 0x80,
            open: if b == 0x5b {
                true
            } else if b == 0x5d {
                false
            } else {
                s.open
            },
            bad_brackets: s.bad_brackets || (if b == 0x5b {
                s.open
            } else if b == 0x5d {
                !s.open
            } else {
                s.open && !is_digit(b)
            }),
            len: counted(s.len),
            last: b,
        }
    }
}

/// The scan after all the bytes of a text.
pub open spec fn scan_of(text: Seq<u8>) -> Scan
    decreases text.len(),
{
    if text.len() == 0 {
        scan_start()
    } else {
        scan_step(scan_of(text.drop_last()), text.last())
    }
}

/// Whether every string of a text that comes to its end is tame.
pub open spec fn tame_text(text: Seq<u8>) -> bool {
    scan_of(text).tame
}

/// One step of the scan.
pub fn advance(s: Scan, b: u8) -> (r: Scan)
    ensures
        r == scan_step(s, b),
{
    if !s.in_string {
        if b == 0x22 {
            Scan {
                tame: s.tame,
                in_string: true,
                escaped: false,
                has_escape: false,
                non_ascii: false,
                open: false,
                bad_brackets: false,
                len: 0,
                last: 0,
            }
        } else {
            s
        }
    } else {
        let len = if s.len <= MAX_TYPE_LENGTH {
            s.len + 1
        } else {
            s.len
        };
        if s.escaped {
            Scan {
                tame: s.tame,
                in_string: true,
                escaped: false,
                has_escape: true,
                non_ascii: s.non_ascii || b >= 0x80,
                open: s.open,
                bad_brackets: s.bad_brackets,
                len,
                last: b,
            }
        } else if b == 0x5c {
            Scan {
                tame: s.tame,
                in_string: true,
                escaped: true,
                has_escape: true,
                non_ascii: s.non_ascii,
                open: s.open,
                bad_brackets: s.bad_brackets,
                len,
                last: b,
            }
        } else if b == 0x22 {
            let closer = s.last == 0x29 || s.last == 0x5d;
            let digit = 0x30 <= s.last && s.last <= 0x39;
            let hex = digit || (0x41 <= s.last && s.last <= 0x46) || (0x61 <= s.last && s.last
                <= 0x66);
            let string_tame = if s.has_escape {
                !closer && !hex
            } else if s.len > 0 && closer {
                !s.non_ascii && !s.bad_brackets && !s.open && s.len <= MAX_TYPE_LENGTH
            } else {
                true
            };
            Scan {
                tame: s.tame && string_tame,
                in_string: false,
                escaped: false,
                has_escape: false,
                non_ascii: false,
                open: false,
                bad_brackets: false,
                len: 0,
                last: 0,
            }
        } else {
            let digit = 0x30 <= b && b <= 0x39;
            let breaks = if b == 0x5b {
                s.open
            } else if b == 0x5d {
                !s.open
            } else {
                s.open && !digit
            };
            Scan {
                tame: s.tame,
                in_string: true,
                escaped: false,
                has_escape: s.has_escape,
                non_ascii: s.non_ascii || b >= 0x80,
                open: if b == 0x5b {
                    true
                } else if b == 0x5d {
                    false
                } else {
                    s.open
                },
                bad_brackets: s.bad_brackets || breaks,
                len,
                last: b,
            }
        }
    }
}

/// Whether every string of a text that comes to its end is tame.
pub fn is_tame(text: &[u8]) -> (ok: bool)
    ensures
        ok == tame_text(text@),
{
    let mut s = Scan {
        tame: true,
        in_string: false,
        escaped: false,
        has_escape: false,
        non_ascii: false,
        open: false,
        bad_brackets: false,
        len: 0,
        last: 0,
    };
    let mut i: usize = 0;
    assert(text@.take(0) =~= Seq::<u8>::empty());
    while i < text.len()
        invariant
            i <= text.len(),
            s == scan_of(text@.take(i as int)),
        decreases text.len() - i,
    {
        assert(text@.take(i + 1).drop_last() =~= text@.take(i as int));
        s = advance(s, text[i]);
        i += 1;
    }
    assert(text@.take(text.len() as int) =~= text@);
    s.tame
}

} // verus!
