//! The diagnostic reporter: renders a violation as a multi-line report — a
//! header, a windowed excerpt of the source around the offending line with a
//! pointer in the gutter, and a location footer. It is a pure function of
//! the text, the position and the message; colour is presentation applied by
//! the caller when printing, so the rendering stays deterministic and
//! independently testable.

use crate::Position;
use crate::strutil::dec_len;
use crate::strutil::dec_string;
use crate::strutil::lemma_dec_len_mono;
use crate::strutil::spaces;
use crate::strutil::spec_dec;
use crate::strutil::spec_lines_of;
use crate::strutil::spec_spaces;
use crate::strutil::split_lines;
use vstd::prelude::*;
use vstd::string::*;

verus! {

/// One line of the context window, with its rendered parts kept separate so
/// a caller can colour the gutter and the number column independently.
pub struct ContextLine {
    /// 1-based display number of the source line.
    pub number: usize,
    /// Whether this is the offending line.
    pub marked: bool,
    /// The pointer gutter: `"> "` on the offending line, `"  "` elsewhere,
    /// so alignment is preserved.
    pub gutter: String,
    /// Right-aligned line number and separator: padding, the number, `" |"`.
    pub prefix: String,
    /// The source line itself.
    pub text: String,
}

/// A rendered diagnostic: header, context window, footer.
pub struct Report {
    /// `error: <message>`.
    pub header: String,
    /// The context window, at most 3 leading lines, the offending line, and
    /// at most 1 trailing line, clamped at the text's boundaries.
    pub window: Vec<ContextLine>,
    /// `at <path>:<line>:<col>`.
    pub footer: String,
}

/// 0-based index of the first window line for a violation at 1-based `line`:
/// up to 3 lines of leading context.
pub open spec fn spec_window_lo(line: nat) -> nat {
    if line >= 4 {
        (line - 4) as nat
    } else {
        0
    }
}

/// 0-based index of the last window line: up to 1 line of trailing context,
/// clamped at the end of the text.
pub open spec fn spec_window_hi(line: nat, nlines: nat) -> nat
    recommends
        1 <= line <= nlines,
{
    if line + 1 <= nlines {
        line
    } else {
        (nlines - 1) as nat
    }
}

/// Builds the report for one violation. The window holds exactly the lines
/// whose 0-based index lies between `spec_window_lo` and `spec_window_hi`;
/// the offending line and only it is marked; numbers are right-aligned to
/// the widest number in the window.
pub fn build_report(path: &str, content: &str, pos: &Position, message: &str) -> (r: Report)
    requires
        pos.line >= 1,
        pos.line <= spec_lines_of(content@).len(),
        pos.col >= 1,
    ensures
        r.header@ == "error: "@ + message@,
        r.footer@ == "at "@ + path@ + ":"@ + spec_dec(pos.line as nat) + ":"@ + spec_dec(
            pos.col as nat,
        ),
        r.window.len() == spec_window_hi(pos.line as nat, spec_lines_of(content@).len())
            - spec_window_lo(pos.line as nat) + 1,
        forall|t: int|
            0 <= t < r.window.len() ==> {
                let idx = spec_window_lo(pos.line as nat) + t;
                let num = (idx + 1) as nat;
                let width = spec_dec(
                    (spec_window_hi(pos.line as nat, spec_lines_of(content@).len()) + 1) as nat,
                ).len();
                &&& (#[trigger] r.window[t]).number == idx + 1
                &&& r.window[t].text@ == spec_lines_of(content@)[idx as int]
                &&& (r.window[t].marked <==> idx == pos.line - 1)
                &&& r.window[t].gutter@ == (if idx == pos.line - 1 {
                    "> "@
                } else {
                    "  "@
                })
                &&& r.window[t].prefix@ == spec_spaces((width - spec_dec(num).len()) as nat)
                    + spec_dec(num) + " |"@
            },
{
    let ghost all_lines = spec_lines_of(content@);
    let lines = split_lines(content);
    let nlines = lines.len();
    let line = pos.line;
    let lo: usize = if line >= 4 {
        line - 4
    } else {
        0
    };
    let hi: usize = if line < nlines {
        line
    } else {
        nlines - 1
    };
    proof {
        assert(lo == spec_window_lo(line as nat));
        assert(hi == spec_window_hi(line as nat, all_lines.len()));
    }
    let width = dec_len(hi + 1);
    let mut window: Vec<ContextLine> = Vec::new();
    let mut idx: usize = lo;
    while idx <= hi
        invariant
            all_lines == lines.deep_view(),
            nlines == lines.len(),
            1 <= line <= nlines,
            lo == spec_window_lo(line as nat),
            hi == spec_window_hi(line as nat, all_lines.len()),
            lo <= idx <= hi + 1,
            hi < nlines,
            width == spec_dec((hi + 1) as nat).len(),
            window.len() == idx - lo,
            forall|t: int|
                0 <= t < window.len() ==> {
                    let j = lo + t;
                    let num = (j + 1) as nat;
                    &&& (#[trigger] window[t]).number == j + 1
                    &&& window[t].text@ == all_lines[j as int]
                    &&& (window[t].marked <==> j == line - 1)
                    &&& window[t].gutter@ == (if j == line - 1 {
                        "> "@
                    } else {
                        "  "@
                    })
                    &&& window[t].prefix@ == spec_spaces((width - spec_dec(num).len()) as nat)
                        + spec_dec(num) + " |"@
                },
        decreases hi + 1 - idx,
    {
        let marked = idx == line - 1;
        let gutter = String::from_str(
            if marked {
                "> "
            } else {
                "  "
            },
        );
        let num_len = dec_len(idx + 1);
        proof {
            lemma_dec_len_mono((idx + 1) as nat, (hi + 1) as nat);
        }
        let mut prefix = spaces(width - num_len);
        let num_str = dec_string(idx + 1);
        prefix.append(num_str.as_str());
        prefix.append(" |");
        proof {
            assert(lines.deep_view()[idx as int] == lines@[idx as int]@);
        }
        let text = lines[idx].clone();
        window.push(ContextLine { number: idx + 1, marked, gutter, prefix, text });
        idx += 1;
    }
    let mut header = String::from_str("error: ");
    header.append(message);
    let mut footer = String::from_str("at ");
    footer.append(path);
    footer.append(":");
    let line_str = dec_string(line);
    footer.append(line_str.as_str());
    footer.append(":");
    let col_str = dec_string(pos.col);
    footer.append(col_str.as_str());
    Report { header, window, footer }
}

/// Assembles the printable lines of a report: the header, a blank line, the
/// window lines (gutter, a space, the number column, the text), a blank
/// line, and the footer.
pub fn render_lines(r: &Report) -> (out: Vec<String>)
    ensures
        out.len() == r.window.len() + 4,
        out.deep_view()[0] == r.header@,
        out.deep_view()[1] == Seq::<char>::empty(),
        forall|t: int|
            0 <= t < r.window.len() ==> out.deep_view()[2 + t] == (#[trigger] r.window[t]).gutter@
                + " "@ + r.window[t].prefix@ + r.window[t].text@,
        out.deep_view()[r.window.len() + 2] == Seq::<char>::empty(),
        out.deep_view()[r.window.len() + 3] == r.footer@,
{
    proof {
        reveal_strlit("");
    }
    let mut out: Vec<String> = Vec::new();
    out.push(r.header.clone());
    out.push(String::from_str(""));
    let n = r.window.len();
    let mut t: usize = 0;
    while t < n
        invariant
            n == r.window.len(),
            t <= n,
            out.len() == t + 2,
            out.deep_view()[0] == r.header@,
            out.deep_view()[1] == Seq::<char>::empty(),
            forall|u: int|
                0 <= u < t ==> out.deep_view()[2 + u] == (#[trigger] r.window[u]).gutter@ + " "@
                    + r.window[u].prefix@ + r.window[u].text@,
        decreases n - t,
    {
        let cl = &r.window[t];
        let mut s = cl.gutter.clone();
        s.append(" ");
        s.append(cl.prefix.as_str());
        s.append(cl.text.as_str());
        out.push(s);
        t += 1;
    }
    out.push(String::from_str(""));
    out.push(r.footer.clone());
    proof {
        assert(out.deep_view()[0] == r.header@);
    }
    out
}

} // verus!
