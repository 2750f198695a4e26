//! How deep the text of a TOML file nests its tables and arrays.
//!
//! The parser that the file is handed to goes one call deeper for each table
//! or array that lies in another, without a limit of its own. This module
//! reads the bytes of a text as that parser's tokenizer does, far enough to
//! tell what stands in a string or a comment from what gives the text its
//! structure, and follows two counts: how many brackets and braces are open,
//! and how long a dotted name runs. A text is within the limits while neither
//! count goes over its limit. What stands in strings and comments counts for
//! nothing, and neither does the size of the text.
//!
//! The tokenizer's rules that the scan follows:
//! - a comment runs from `#` to the end of its line;
//! - `"` opens a basic string and `'` a literal one; two quotes at once are
//!   an empty string, three open a multi-line string;
//! - a string of one line ends at its quote, and a multi-line string at three
//!   of its quotes in a row, to which up to two more that follow at once
//!   belong;
//! - in a basic string a backslash takes the byte after it along.
//!
//! A table lies one deeper for each part of a dotted name or of a section's
//! name, and for each bracket or brace that is open around it. With at most
//! `MAX_OPEN` brackets and braces open and at most `MAX_DOTS` dots in a name,
//! no value lies deeper than `(MAX_OPEN + 2) * (MAX_DOTS + 1)`.

use vstd::prelude::*;

verus! {

/// The most brackets and braces that may be open at once.
pub const MAX_OPEN: usize = 16;

/// The most dots that a dotted name may hold: it has up to 8 parts.
pub const MAX_DOTS: usize = 7;

/// Where the tokenizer stands between two bytes.
#[derive(Clone, Copy, Debug, PartialEq, Eq, Structural)]
pub enum Lex {
    /// Outside strings and comments.
    Normal,
    /// In a comment, up to the end of the line.
    Comment,
    /// After the quote that opens a string.
    Open1 { basic: bool },
    /// After two quotes: an empty string, or the start of a multi-line one.
    Open2 { basic: bool },
    /// In a string of one line.
    Text { basic: bool },
    /// After a backslash in a basic string.
    Escape { multi: bool },
    /// In a multi-line string.
    Multi { basic: bool },
    /// In a multi-line string, after one quote.
    Close1 { basic: bool },
    /// In a multi-line string, after two quotes in a row.
    Close2 { basic: bool },
    /// After the three quotes that close a multi-line string. Up to two
    /// quotes that follow at once belong to the string.
    Close3 { basic: bool },
    /// After the three quotes that close a multi-line string and one more.
    Close4 { basic: bool },
}

/// What the scan knows after some bytes of a text.
#[derive(Clone, Copy, Debug, PartialEq, Eq, Structural)]
pub struct Scan {
    /// Where the tokenizer stands.
    pub lex: Lex,
    /// The brackets and braces that are open.
    pub open: usize,
    /// The dots of the dotted name that is being read.
    pub dots: usize,
    /// Whether a count went over its limit. The scan stops there.
    pub over: bool,
}

/// The quote that delimits a basic string (`"`) or a literal one (`'`).
pub open spec fn quote(basic: bool) -> u8 {
    if basic {
        0x22
    } else {
        0x27
    }
}

/// The scan before the first byte.
pub open spec fn start() -> Scan {
    Scan { lex: Lex::Normal, open: 0, dots: 0, over: false }
}

/// The scan after a byte that stands outside strings and comments. A bracket
/// or a brace opens or closes; a dot lengthens the dotted name; a dotted name
/// ends where a bracket, a brace, `=`, `,` or the line does.
pub open spec fn outside(s: Scan, byte: u8) -> Scan {
    let s = Scan { lex: Lex::Normal, ..s };
    if byte == 0x23 {
        Scan { lex: Lex::Comment, ..s }
    } else if byte == 0x22 {
        Scan { lex: Lex::Open1 { basic: true }, ..s }
    } else if byte == 0x27 {
        Scan { lex: Lex::Open1 { basic: false }, ..s }
    } else if byte == 0x5b || byte == 0x7b {
        if s.open >= MAX_OPEN {
            Scan { over: true, ..s }
        } else {
            Scan { open: (s.open + 1) as usize, dots: 0, ..s }
        }
    } else if byte == 0x5d || byte == 0x7d {
        Scan {
            open: if s.open > 0 {
                (s.open - 1) as usize
            } else {
                0
            },
            dots: 0,
            ..s
        }
    } else if byte == 0x2e {
        if s.dots >= MAX_DOTS {
            Scan { over: true, ..s }
        } else {
            Scan { dots: (s.dots + 1) as usize, ..s }
        }
    } else if byte == 0x3d || byte == 0x2c || byte == 0x0a {
        Scan { dots: 0, ..s }
    } else {
        s
    }
}

/// The scan after a byte that stands in a string. The string's quote closes
/// a string of one line and may begin the end of a multi-line one; in a basic
/// string a backslash takes the next byte with it; a string of one line does
/// not go past the end of its line.
pub open spec fn inside(s: Scan, basic: bool, multi: bool, byte: u8) -> Scan {
    if byte == quote(basic) {
        if multi {
            Scan { lex: Lex::Close1 { basic }, ..s }
        } else {
            Scan { lex: Lex::Normal, ..s }
        }
    } else if basic && byte == 0x5c {
        Scan { lex: Lex::Escape { multi }, ..s }
    } else if multi {
        Scan { lex: Lex::Multi { basic }, ..s }
    } else if byte == 0x0a {
        Scan { lex: Lex::Normal, dots: 0, ..s }
    } else {
        Scan { lex: Lex::Text { basic }, ..s }
    }
}

/// The scan after one more byte.
pub open spec fn step(s: Scan, byte: u8) -> Scan {
    if s.over {
        s
    } else {
        match s.lex {
            Lex::Normal => outside(s, byte),
            Lex::Comment => if byte == 0x0a {
                Scan { lex: Lex::Normal, dots: 0, ..s }
            } else {
                s
            },
            Lex::Open1 { basic } => if byte == quote(basic) {
                Scan { lex: Lex::Open2 { basic }, ..s }
            } else {
                inside(s, basic, false, byte)
            },
            Lex::Open2 { basic } => if byte == quote(basic) {
                Scan { lex: Lex::Multi { basic }, ..s }
            } else {
                outside(s, byte)
            },
            Lex::Text { basic } => inside(s, basic, false, byte),
            Lex::Escape { multi } => if multi {
                Scan { lex: Lex::Multi { basic: true }, ..s }
            } else {
                Scan { lex: Lex::Text { basic: true }, ..s }
            },
            Lex::Multi { basic } => inside(s, basic, true, byte),
            Lex::Close1 { basic } => if byte == quote(basic) {
                Scan { lex: Lex::Close2 { basic }, ..s }
            } else {
                inside(s, basic, true, byte)
            },
            Lex::Close2 { basic } => if byte == quote(basic) {
                Scan { lex: Lex::Close3 { basic }, ..s }
            } else {
                inside(s, basic, true, byte)
            },
            Lex::Close3 { basic } => if byte == quote(basic) {
                Scan { lex: Lex::Close4 { basic }, ..s }
            } else {
                outside(s, byte)
            },
            Lex::Close4 { basic } => if byte == quote(basic) {
                Scan { lex: Lex::Normal, ..s }
            } else {
                outside(s, byte)
            },
        }
    }
}

/// The scan after all the bytes of a text.
pub open spec fn scan(bytes: Seq<u8>) -> Scan
    decreases bytes.len(),
{
    if bytes.len() == 0 {
        start()
    } else {
        step(scan(bytes.drop_last()), bytes.last())
    }
}

/// Whether the counts of a scan are within their limits.
pub open spec fn bounded(s: Scan) -> bool {
    s.open <= MAX_OPEN && s.dots <= MAX_DOTS
}

/// Whether a text nests within the limits: at no byte are more than
/// `MAX_OPEN` brackets and braces open, and no dotted name holds more than
/// `MAX_DOTS` dots.
pub open spec fn nests_within(bytes: Seq<u8>) -> bool {
    !scan(bytes).over
}

fn quote_of(basic: bool) -> (q: u8)
    ensures
        q == quote(basic),
{
    if basic {
        0x22
    } else {
        0x27
    }
}

fn after_outside(s: Scan, byte: u8) -> (r: Scan)
    requires
        bounded(s),
    ensures
        r == outside(s, byte),
        bounded(r),
{
    let s = Scan { lex: Lex::Normal, open: s.open, dots: s.dots, over: s.over };
    if byte == 0x23 {
        Scan { lex: Lex::Comment, open: s.open, dots: s.dots, over: s.over }
    } else if byte == 0x22 {
        Scan { lex: Lex::Open1 { basic: true }, open: s.open, dots: s.dots, over: s.over }
    } else if byte == 0x27 {
        Scan { lex: Lex::Open1 { basic: false }, open: s.open, dots: s.dots, over: s.over }
    } else if byte == 0x5b || byte == 0x7b {
        if s.open >= MAX_OPEN {
            Scan { lex: s.lex, open: s.open, dots: s.dots, over: true }
        } else {
            Scan { lex: s.lex, open: s.open + 1, dots: 0, over: s.over }
        }
    } else if byte == 0x5d || byte == 0x7d {
        let open: usize = if s.open > 0 {
            s.open - 1
        } else {
            0
        };
        Scan { lex: s.lex, open, dots: 0, over: s.over }
    } else if byte == 0x2e {
        if s.dots >= MAX_DOTS {
            Scan { lex: s.lex, open: s.open, dots: s.dots, over: true }
        } else {
            Scan { lex: s.lex, open: s.open, dots: s.dots + 1, over: s.over }
        }
    } else if byte == 0x3d || byte == 0x2c || byte == 0x0a {
        Scan { lex: s.lex, open: s.open, dots: 0, over: s.over }
    } else {
        s
    }
}

fn after_inside(s: Scan, basic: bool, multi: bool, byte: u8) -> (r: Scan)
    requires
        bounded(s),
    ensures
        r == inside(s, basic, multi, byte),
        bounded(r),
{
    let lex = if byte == quote_of(basic) {
        if multi {
            Lex::Close1 { basic }
        } else {
            Lex::Normal
        }
    } else if basic && byte == 0x5c {
        Lex::Escape { multi }
    } else if multi {
        Lex::Multi { basic }
    } else if byte == 0x0a {
        return Scan { lex: Lex::Normal, open: s.open, dots: 0, over: s.over };
    } else {
        Lex::Text { basic }
    };
    Scan { lex, open: s.open, dots: s.dots, over: s.over }
}

fn with_lex(s: Scan, lex: Lex) -> (r: Scan)
    ensures
        r == (Scan { lex, ..s }),
{
    Scan { lex, open: s.open, dots: s.dots, over: s.over }
}

fn after(s: Scan, byte: u8) -> (r: Scan)
    requires
        bounded(s),
    ensures
        r == step(s, byte),
        bounded(r),
{
    if s.over {
        return s;
    }
    match s.lex {
        Lex::Normal => after_outside(s, byte),
        Lex::Comment => if byte == 0x0a {
            Scan { lex: Lex::Normal, open: s.open, dots: 0, over: s.over }
        } else {
            s
        },
        Lex::Open1 { basic } => if byte == quote_of(basic) {
            with_lex(s, Lex::Open2 { basic })
        } else {
            after_inside(s, basic, false, byte)
        },
        Lex::Open2 { basic } => if byte == quote_of(basic) {
            with_lex(s, Lex::Multi { basic })
        } else {
            after_outside(s, byte)
        },
        Lex::Text { basic } => after_inside(s, basic, false, byte),
        Lex::Escape { multi } => if multi {
            with_lex(s, Lex::Multi { basic: true })
        } else {
            with_lex(s, Lex::Text { basic: true })
        },
        Lex::Multi { basic } => after_inside(s, basic, true, byte),
        Lex::Close1 { basic } => if byte == quote_of(basic) {
            with_lex(s, Lex::Close2 { basic })
        } else {
            after_inside(s, basic, true, byte)
        },
        Lex::Close2 { basic } => if byte == quote_of(basic) {
            with_lex(s, Lex::Close3 { basic })
        } else {
            after_inside(s, basic, true, byte)
        },
        Lex::Close3 { basic } => if byte == quote_of(basic) {
            with_lex(s, Lex::Close4 { basic })
        } else {
            after_outside(s, byte)
        },
        Lex::Close4 { basic } => if byte == quote_of(basic) {
            with_lex(s, Lex::Normal)
        } else {
            after_outside(s, byte)
        },
    }
}

/// Whether the bytes of a text nest within the limits.
pub fn nests_within_limits(bytes: &[u8]) -> (within: bool)
    ensures
        within == nests_within(bytes@),
{
    let mut s = Scan { lex: Lex::Normal, open: 0, dots: 0, over: false };
    let mut i: usize = 0;
    while i < bytes.len()
        invariant
            i <= bytes.len(),
            bounded(s),
            s == scan(bytes@.take(i as int)),
        decreases bytes.len() - i,
    {
        proof {
            assert(bytes@.take(i + 1).drop_last() =~= bytes@.take(i as int));
        }
        s = after(s, bytes[i]);
        i += 1;
    }
    assert(bytes@.take(i as int) =~= bytes@);
    !s.over
}

} // verus!
