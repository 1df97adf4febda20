//! Rendering an error chain into its stable textual report.
//!
//! The report starts with a `lerror::Error` heading and a blank line; each
//! frame then renders as its index, right-aligned in a five-character field
//! and followed by `": "`, the location `file:line:column`, and, unless the
//! message is empty, the message on the following lines, each indented seven
//! spaces.  The report ends with a newline after the last frame.

use vstd::prelude::*;

use crate::chain::Error;
use crate::chain::FrameModel;

verus! {

/// The decimal digit `d` as a character; `d` must be below ten.
pub open spec fn digit_char(d: nat) -> char {
    if d == 0 {
        '0'
    } else if d == 1 {
        '1'
    } else if d == 2 {
        '2'
    } else if d == 3 {
        '3'
    } else if d == 4 {
        '4'
    } else if d == 5 {
        '5'
    } else if d == 6 {
        '6'
    } else if d == 7 {
        '7'
    } else if d == 8 {
        '8'
    } else {
        '9'
    }
}

/// The decimal representation of `n`, without padding or sign.
pub open spec fn dec_rep(n: nat) -> Seq<char>
    decreases n,
{
    if n < 10 {
        seq![digit_char(n)]
    } else {
        dec_rep(n / 10) + seq![digit_char(n % 10)]
    }
}

/// `n` space characters.
pub open spec fn spaces(n: nat) -> Seq<char> {
    Seq::new(n, |i: int| ' ')
}

/// A frame index as it heads its first line: right-aligned in a field of
/// five characters (wider only if the number needs more), then `": "`.
pub open spec fn padded_index(n: nat) -> Seq<char> {
    let d = dec_rep(n);
    if d.len() >= 5 {
        d + ": "@
    } else {
        spaces((5 - d.len()) as nat) + d + ": "@
    }
}

/// What an indented writer puts before its first line: the padded index in
/// numbered mode, four spaces in plain mode.
pub open spec fn first_prefix(number: Option<usize>) -> Seq<char> {
    match number {
        Option::Some(n) => padded_index(n as nat),
        Option::None => "    "@,
    }
}

/// What replaces each line break: a break plus a seven-space indent in
/// numbered mode (aligning under the first message line), four spaces in
/// plain mode.
pub open spec fn line_sep(number: Option<usize>) -> Seq<char> {
    match number {
        Option::Some(_) => "\n       "@,
        Option::None => "\n    "@,
    }
}

/// The first `i` characters of `s`, with every line break replaced by `sep`.
pub open spec fn indent_upto(s: Seq<char>, sep: Seq<char>, i: int) -> Seq<char>
    decreases i,
{
    if i <= 0 {
        Seq::empty()
    } else {
        indent_upto(s, sep, i - 1) + (if s[i - 1] == '\n' {
            sep
        } else {
            seq![s[i - 1]]
        })
    }
}

/// `s` with every line break replaced by `sep`; breaks inside `s` are kept,
/// only their indentation changes.
pub open spec fn indented_text(s: Seq<char>, sep: Seq<char>) -> Seq<char> {
    indent_upto(s, sep, s.len() as int)
}

/// The digit `d` as a one-character string slice.
fn digit_str(d: u64) -> (r: &'static str)
    requires
        d < 10,
    ensures
        r@ == seq![digit_char(d as nat)],
{
    let r = match d {
        0u64 => "0",
        1u64 => "1",
        2u64 => "2",
        3u64 => "3",
        4u64 => "4",
        5u64 => "5",
        6u64 => "6",
        7u64 => "7",
        8u64 => "8",
        _ => "9",
    };
    proof {
        reveal_strlit("0");
        reveal_strlit("1");
        reveal_strlit("2");
        reveal_strlit("3");
        reveal_strlit("4");
        reveal_strlit("5");
        reveal_strlit("6");
        reveal_strlit("7");
        reveal_strlit("8");
        reveal_strlit("9");
        assert(r@ =~= seq![digit_char(d as nat)]);
    }
    r
}

/// Format `n` in decimal.
fn fmt_u64(n: u64) -> (r: String)
    ensures
        r@ == dec_rep(n as nat),
    decreases n,
{
    if n < 10 {
        digit_str(n).to_owned()
    } else {
        let mut r = fmt_u64(n / 10);
        r.append(digit_str(n % 10));
        r
    }
}

/// Format a frame index: right-aligned in five characters, then `": "`.
fn fmt_padded_index(n: usize) -> (r: String)
    ensures
        r@ == padded_index(n as nat),
{
    let digits = fmt_u64(n as u64);
    let dl = digits.as_str().unicode_len();
    let mut r = String::new();
    let mut k: usize = dl;
    while k < 5
        invariant
            dl <= k,
            dl < 5 ==> k <= 5,
            dl >= 5 ==> k == dl,
            dl == dec_rep(n as nat).len(),
            r@ == spaces((k - dl) as nat),
        decreases 5 - k,
    {
        r.append(" ");
        proof {
            reveal_strlit(" ");
            assert(r@ =~= spaces((k + 1 - dl) as nat));
        }
        k += 1;
    }
    r.append(digits.as_str());
    r.append(": ");
    proof {
        if dec_rep(n as nat).len() >= 5 {
            assert(r@ =~= padded_index(n as nat));
        } else {
            assert(r@ =~= padded_index(n as nat));
        }
    }
    r
}

/// A writer that lays text out under a frame heading: the first line gets
/// the heading (the padded index, or four spaces when numbering is off), and
/// every further line is indented to align under the first.
pub struct Indented {
    pub number: Option<usize>,
    pub started: bool,
}

impl Indented {
    /// Append `s` to `out`, indented.  The heading is written once, before
    /// the first text this writer puts out; line breaks inside `s` are kept,
    /// each followed by the continuation indent.
    pub fn write_str(&mut self, out: &mut String, s: &str)
        ensures
            final(self).number == old(self).number,
            final(self).started,
            final(out)@ == old(out)@ + (if old(self).started {
                Seq::<char>::empty()
            } else {
                first_prefix(old(self).number)
            }) + indented_text(s@, line_sep(old(self).number)),
    {
        if !self.started {
            self.started = true;
            match self.number {
                Option::Some(n) => {
                    let p = fmt_padded_index(n);
                    out.append(p.as_str());
                },
                Option::None => {
                    out.append("    ");
                },
            }
        }
        let ghost base = out@;
        let ghost sep = line_sep(self.number);
        let len = s.unicode_len();
        let mut i: usize = 0;
        while i < len
            invariant
                i <= len,
                len == s@.len(),
                self.number == old(self).number,
                self.started,
                sep == line_sep(self.number),
                out@ == base + indent_upto(s@, sep, i as int),
        decreases len - i,
        {
            let c = s.get_char(i);
            if c == '\n' {
                match self.number {
                    Option::Some(_) => {
                        out.append("\n       ");
                    },
                    Option::None => {
                        out.append("\n    ");
                    },
                }
            } else {
                let piece = s.substring_char(i, i + 1);
                proof {
                    assert(piece@ =~= seq![s@[i as int]]);
                }
                out.append(piece);
            }
            proof {
                assert(out@ =~= base + indent_upto(s@, sep, i as int + 1));
            }
            i += 1;
        }
    }
}

/// One frame's block in the report: the padded index, the location line, the
/// indented message lines if the message is not empty, and a final line
/// break.
pub open spec fn frame_block(i: nat, f: FrameModel) -> Seq<char> {
    padded_index(i) + indented_text(frame_content(f), "\n       "@) + "\n"@
}

/// What a frame renders of itself, before indentation: the location, then
/// the message on its own lines — or the location alone when the message is
/// empty.
pub open spec fn frame_content(f: FrameModel) -> Seq<char> {
    if f.context.len() == 0 {
        location_text(f)
    } else {
        location_text(f) + "\n"@ + f.context
    }
}

/// A frame's location as text: `file:line:column`.
pub open spec fn location_text(f: FrameModel) -> Seq<char> {
    f.file + ":"@ + dec_rep(f.line as nat) + ":"@ + dec_rep(f.column as nat)
}

/// The blocks of the first `i` frames, in order, index 0 first.
pub open spec fn render_upto(frames: Seq<FrameModel>, i: int) -> Seq<char>
    decreases i,
{
    if i <= 0 {
        Seq::empty()
    } else {
        render_upto(frames, i - 1) + frame_block((i - 1) as nat, frames[i - 1])
    }
}

/// The full report of a chain: the heading, a blank line, then every frame's
/// block in stored order — index 0 is the most recently attached frame.
pub open spec fn render_chain(frames: Seq<FrameModel>) -> Seq<char> {
    "lerror::Error\n\n"@ + render_upto(frames, frames.len() as int)
}

impl Error {
    /// Render the chain into its report.  The output is a function of the
    /// chain's frames alone, so rendering the same chain twice gives the
    /// identical text.
    pub fn render(&self) -> (out: String)
        ensures
            out@ == render_chain(self@),
    {
        let frames = self.frames();
        let mut out = String::new();
        out.append("lerror::Error\n\n");
        let n = frames.len();
        let mut i: usize = 0;
        while i < n
            invariant
                i <= n,
                n == frames@.len(),
                frames@.len() == self@.len(),
                forall|j: int| 0 <= j < frames@.len() ==> frames@[j]@ == self@[j],
                out@ == "lerror::Error\n\n"@ + render_upto(self@, i as int),
            decreases n - i,
        {
            let f = &frames[i];
            let mut content = f.file.clone();
            content.append(":");
            let line_s = fmt_u64(f.line as u64);
            content.append(line_s.as_str());
            content.append(":");
            let col_s = fmt_u64(f.column as u64);
            content.append(col_s.as_str());
            if !f.context.as_str().is_empty() {
                content.append("\n");
                content.append(f.context.as_str());
            }
            proof {
                assert(content@ =~= frame_content(self@[i as int]));
            }
            let mut ind = Indented { number: Option::Some(i), started: false };
            ind.write_str(&mut out, content.as_str());
            out.append("\n");
            proof {
                assert(out@ =~= "lerror::Error\n\n"@ + render_upto(self@, i as int + 1));
            }
            i += 1;
        }
        out
    }
}

} // verus!
