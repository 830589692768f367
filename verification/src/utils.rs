//! Presentation helpers: ANSI-colored text, right padding and file-tree
//! indentation for the per-file status lines. Pure string formatting; the
//! pipeline itself never depends on these.

use vstd::prelude::*;
use vstd::string::*;

verus! {

/// A sequence of `n` copies of the character `c`.
pub open spec fn spec_char_repeat(c: char, n: int) -> Seq<char> {
    if n <= 0 {
        Seq::empty()
    } else {
        Seq::new(n as nat, |i: int| c)
    }
}

/// `body` repeated `n` times.
pub open spec fn spec_seq_repeat(body: Seq<char>, n: int) -> Seq<char>
    decreases n,
{
    if n <= 0 {
        Seq::empty()
    } else {
        spec_seq_repeat(body, n - 1) + body
    }
}

/// `s` padded on the right with `c` up to `w` characters; `s` itself when it
/// is already that long.
pub open spec fn spec_pad_right(s: Seq<char>, w: int, c: char) -> Seq<char> {
    if s.len() >= w {
        s
    } else {
        s + spec_char_repeat(c, w - s.len())
    }
}

fn pad_right_with(s: String, pad_width: usize, pad: &str, c: Ghost<char>) -> (r: String)
    requires
        pad@ == seq![c@],
    ensures
        r@ == spec_pad_right(s@, pad_width as int, c@),
{
    let ghost s0 = s@;
    let n = s.unicode_len();
    let mut r = s;
    let mut i = n;
    proof {
        assert(r@ =~= s0 + spec_char_repeat(c@, 0));
    }
    while i < pad_width
        invariant
            s0.len() == n,
            n <= i,
            i <= pad_width || i == n,
            pad@ == seq![c@],
            r@ == s0 + spec_char_repeat(c@, i as int - n as int),
        decreases pad_width - i,
    {
        r.append(pad);
        i = i + 1;
        proof {
            assert(r@ =~= s0 + spec_char_repeat(c@, i as int - n as int));
        }
    }
    proof {
        assert(r@ =~= spec_pad_right(s0, pad_width as int, c@));
    }
    r
}

pub struct ColoredString;

/// Static methods that wrap a string in ANSI color escape codes for the
/// console status lines.
impl ColoredString {
    pub fn magenta(s: &str) -> (r: String)
        ensures
            r@ == "\x1b[95m"@ + s@ + "\x1b[0m"@,
    {
        String::from_str("\x1b[95m").concat(s).concat("\x1b[0m")
    }

    pub fn blue(s: &str) -> (r: String)
        ensures
            r@ == "\x1b[94m"@ + s@ + "\x1b[0m"@,
    {
        String::from_str("\x1b[94m").concat(s).concat("\x1b[0m")
    }

    pub fn cyan(s: &str) -> (r: String)
        ensures
            r@ == "\x1b[96m"@ + s@ + "\x1b[0m"@,
    {
        String::from_str("\x1b[96m").concat(s).concat("\x1b[0m")
    }

    pub fn green(s: &str) -> (r: String)
        ensures
            r@ == "\x1b[92m"@ + s@ + "\x1b[0m"@,
    {
        String::from_str("\x1b[92m").concat(s).concat("\x1b[0m")
    }

    pub fn red(s: &str) -> (r: String)
        ensures
            r@ == "\x1b[91m"@ + s@ + "\x1b[0m"@,
    {
        String::from_str("\x1b[91m").concat(s).concat("\x1b[0m")
    }

    pub fn no_color(s: &str) -> (r: String)
        ensures
            r@ == "\x1b[0m"@ + s@ + "\x1b[0m"@,
    {
        String::from_str("\x1b[0m").concat(s).concat("\x1b[0m")
    }

    pub fn orange(s: &str) -> (r: String)
        ensures
            r@ == "\x1b[93m"@ + s@ + "\x1b[0m"@,
    {
        String::from_str("\x1b[93m").concat(s).concat("\x1b[0m")
    }

    pub fn bold_white(s: &str) -> (r: String)
        ensures
            r@ == "\x1b[1m"@ + s@ + "\x1b[0m"@,
    {
        String::from_str("\x1b[1m").concat(s).concat("\x1b[0m")
    }

    pub fn underline(s: &str) -> (r: String)
        ensures
            r@ == "\x1b[4m"@ + s@ + "\x1b[0m"@,
    {
        String::from_str("\x1b[4m").concat(s).concat("\x1b[0m")
    }

    pub fn warn_arrow() -> (r: String)
        ensures
            r@ == "\x1b[93m"@ + ">"@ + "\x1b[0m"@,
    {
        Self::orange(">")
    }
}

pub enum OutputColor {
    Error,
    Warning,
    Neutral,
    Good,
}

pub struct RightPadding;

/// Static methods that pad a string on the right up to a given width, each
/// with its own filler character.
impl RightPadding {
    pub fn space(s: String, pad_width: usize) -> (r: String)
        ensures
            r@ == spec_pad_right(s@, pad_width as int, ' '),
    {
        proof {
            reveal_strlit(" ");
            assert(" "@ =~= seq![' ']);
        }
        pad_right_with(s, pad_width, " ", Ghost(' '))
    }

    pub fn dot(s: String, pad_width: usize) -> (r: String)
        ensures
            r@ == spec_pad_right(s@, pad_width as int, '.'),
    {
        proof {
            reveal_strlit(".");
            assert("."@ =~= seq!['.']);
        }
        pad_right_with(s, pad_width, ".", Ghost('.'))
    }

    pub fn dash(s: String, pad_width: usize) -> (r: String)
        ensures
            r@ == spec_pad_right(s@, pad_width as int, '-'),
    {
        proof {
            reveal_strlit("-");
            assert("-"@ =~= seq!['-']);
        }
        pad_right_with(s, pad_width, "-", Ghost('-'))
    }

    pub fn em_dash(s: String, pad_width: usize) -> (r: String)
        ensures
            r@ == spec_pad_right(s@, pad_width as int, '─'),
    {
        proof {
            reveal_strlit("─");
            assert("─"@ =~= seq!['─']);
        }
        pad_right_with(s, pad_width, "─", Ghost('─'))
    }

    pub fn middle_dot(s: String, pad_width: usize) -> (r: String)
        ensures
            r@ == spec_pad_right(s@, pad_width as int, '·'),
    {
        proof {
            reveal_strlit("·");
            assert("·"@ =~= seq!['·']);
        }
        pad_right_with(s, pad_width, "·", Ghost('·'))
    }
}

pub const SEPARATOR_STATUS: &'static str = "...";

pub const SEPARATOR_DRY_RUN: &'static str = "--->";

pub const SEPARATOR_COPY_MOVE: &'static str = "──>";

pub const FILE_TREE_ENTRY: &'static str = " └── ";

pub const FILE_TREE_INDENT: &'static str = " |   ";

/// Prefixes `file_name` with `indent_level` repetitions of the tree indent
/// column and one tree-entry marker.
pub fn indent_string(indent_level: usize, file_name: String) -> (r: String)
    ensures
        r@ == spec_seq_repeat(" |   "@, indent_level as int) + " └── "@ + file_name@,
{
    let mut indents = String::new();
    let mut i: usize = 0;
    while i < indent_level
        invariant
            i <= indent_level,
            indents@ == spec_seq_repeat(" |   "@, i as int),
        decreases indent_level - i,
    {
        indents.append(" |   ");
        i = i + 1;
    }
    indents.concat(" └── ").concat(file_name.as_str())
}

} // verus!
