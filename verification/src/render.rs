use vstd::prelude::*;
use vstd::string::StringExecFns;

use crate::frame::Frame;
use crate::frame::FrameData;

verus! {

/// The decimal digit character for `d`, which must be below ten.
pub open spec fn digit_char(d: nat) -> char {
    if d == 0 {
        '0'
    } else if d == 1 {
        '1'
    } else if d == 2 {
        '2'
    } else if d == 3 {
        '3'
    } else if d == 4 {
        '4'
    } else if d == 5 {
        '5'
    } else if d == 6 {
        '6'
    } else if d == 7 {
        '7'
    } else if d == 8 {
        '8'
    } else {
        '9'
    }
}

/// The decimal rendering of `n`, most significant digit first, with no
/// leading zero except for `n == 0` itself.
pub open spec fn decimal_of(n: nat) -> Seq<char>
    decreases n,
{
    if n < 10 {
        seq![digit_char(n)]
    } else {
        decimal_of(n / 10) + seq![digit_char(n % 10)]
    }
}

/// The first rendered line of a frame: its file path, or `<no file>` when it
/// has none, followed by a colon and the line number when both file and line
/// are present. A line number is never shown without its file.
pub open spec fn header_text(f: FrameData) -> Seq<char> {
    match f.file {
        Some(file) => {
            match f.line {
                Some(line) => file + seq![':'] + decimal_of(line as nat),
                None => file,
            }
        },
        None => seq!['<', 'n', 'o', ' ', 'f', 'i', 'l', 'e', '>'],
    }
}

/// The full rendered block for one frame: the header line, then a tab and
/// the function symbol, then a blank line.
pub open spec fn frame_text(f: FrameData) -> Seq<char> {
    header_text(f) + seq!['\n', '\t'] + f.function + seq!['\n', '\n']
}

/// The rendered text for a whole frame sequence: each frame's block in
/// sequence order, nothing before, between, or after.
pub open spec fn render_text(frames: Seq<FrameData>) -> Seq<char>
    decreases frames.len(),
{
    if frames.len() == 0 {
        Seq::empty()
    } else {
        frame_text(frames[0]) + render_text(frames.drop_first())
    }
}

/// Append the decimal rendering of `n` to `out`.
fn append_decimal(out: &mut String, n: usize)
    ensures
        final(out)@ == old(out)@ + decimal_of(n as nat),
    decreases n,
{
    if n >= 10 {
        append_decimal(out, n / 10);
    }
    let d: usize = n % 10;
    let digit: &str = if d == 0 {
        "0"
    } else if d == 1 {
        "1"
    } else if d == 2 {
        "2"
    } else if d == 3 {
        "3"
    } else if d == 4 {
        "4"
    } else if d == 5 {
        "5"
    } else if d == 6 {
        "6"
    } else if d == 7 {
        "7"
    } else if d == 8 {
        "8"
    } else {
        "9"
    };
    proof {
        reveal_strlit("0");
        reveal_strlit("1");
        reveal_strlit("2");
        reveal_strlit("3");
        reveal_strlit("4");
        reveal_strlit("5");
        reveal_strlit("6");
        reveal_strlit("7");
        reveal_strlit("8");
        reveal_strlit("9");
        assert(digit@ =~= seq![digit_char((n % 10) as nat)]);
    }
    out.append(digit);
}

/// Append the header line of `f` to `out`.
fn append_header(out: &mut String, f: &Frame)
    ensures
        final(out)@ == old(out)@ + header_text(f@),
{
    match &f.file {
        Some(file) => {
            out.append(file.as_str());
            if let Some(line) = f.line {
                proof {
                    reveal_strlit(":");
                }
                out.append(":");
                append_decimal(out, line);
            }
        },
        None => {
            proof {
                reveal_strlit("<no file>");
            }
            out.append("<no file>");
        },
    }
}

/// Append the full block of `f` to `out`.
fn append_frame(out: &mut String, f: &Frame)
    ensures
        final(out)@ == old(out)@ + frame_text(f@),
{
    append_header(out, f);
    proof {
        reveal_strlit("\n\t");
        reveal_strlit("\n\n");
    }
    out.append("\n\t");
    out.append(f.function.as_str());
    out.append("\n\n");
}

/// Render `frames` in sequence order as plain text: for each frame, its file
/// (or `<no file>`) with the line number when both are known, then a tab and
/// the function symbol, then a blank line.
pub fn render(frames: &Vec<Frame>) -> (r: String)
    ensures
        r@ == render_text(frames.deep_view()),
{
    let ghost fs = frames.deep_view();
    let mut out = String::new();
    let mut i: usize = 0;
    proof {
        assert(fs.skip(0) =~= fs);
    }
    while i < frames.len()
        invariant
            0 <= i <= frames.len(),
            fs == frames.deep_view(),
            out@ + render_text(fs.skip(i as int)) == render_text(fs),
        decreases frames.len() - i,
    {
        proof {
            assert(fs.skip(i as int).drop_first() =~= fs.skip(i + 1));
            assert(fs.skip(i as int)[0] == fs[i as int]);
        }
        let ghost old_out = out@;
        append_frame(&mut out, &frames[i]);
        proof {
            assert(old_out + (frame_text(fs[i as int]) + render_text(fs.skip(i + 1))) =~= (old_out
                + frame_text(fs[i as int])) + render_text(fs.skip(i + 1)));
        }
        i = i + 1;
    }
    proof {
        assert(fs.skip(i as int) =~= Seq::<FrameData>::empty());
        assert(out@ + Seq::<char>::empty() =~= out@);
    }
    out
}

/// Whether `outer` is `inner` with some prefix and suffix around it, such as
/// terminal escape codes. The prefix and suffix may be empty.
pub open spec fn embeds(inner: Seq<char>, outer: Seq<char>) -> bool {
    exists|a: Seq<char>, b: Seq<char>| outer == a + inner + b
}

/// Whether `a` occurs in `b` as a subsequence: all of `a`'s characters, in
/// order, though other characters may stand between them.
pub open spec fn is_char_subsequence(a: Seq<char>, b: Seq<char>) -> bool
    decreases b.len(),
{
    if a.len() == 0 {
        true
    } else if b.len() == 0 {
        false
    } else {
        (a[0] == b[0] && is_char_subsequence(a.drop_first(), b.drop_first()))
            || is_char_subsequence(a, b.drop_first())
    }
}

/// The terminal reset sequence, which ends a run of styled text.
pub open spec fn reset_sequence() -> Seq<char> {
    seq!['\u{1b}', '[', '0', 'm']
}

/// Whether `s` holds the terminal reset sequence anywhere.
pub open spec fn contains_reset(s: Seq<char>) -> bool {
    exists|i: int| 0 <= i && i + 4 <= s.len() && #[trigger] s.subrange(i, i + 4) == reset_sequence()
}

/// What decorating a symbol may produce: every character of the symbol is
/// kept, in order, and when the symbol holds no terminal reset sequence the
/// additions are only a prefix and a suffix around it.
pub open spec fn painted_symbol(symbol: Seq<char>, painted: Seq<char>) -> bool {
    is_char_subsequence(symbol, painted) && (!contains_reset(symbol) ==> embeds(symbol, painted))
}

/// Relies on colored::Colorize::yellow and the display of its result: with
/// coloring disabled the text comes back unchanged; with it enabled, escape
/// codes are put around the text, and the style code is also re-inserted
/// after any terminal reset sequence the text itself holds. Either way every
/// character of the text is kept in order, and a text without a reset
/// sequence gains only a prefix and a suffix.
#[verifier::external_body]
fn paint_symbol(s: &str) -> (r: String)
    ensures
        painted_symbol(s@, r@),
{
    format!("{}", colored::Colorize::yellow(s))
}

/// The rendered block for one frame whose function symbol was replaced by
/// the decorated text `painted`.
pub open spec fn decorated_frame_text(f: FrameData, painted: Seq<char>) -> Seq<char> {
    header_text(f) + seq!['\n', '\t'] + painted + seq!['\n', '\n']
}

/// Whether `out` renders `frames` as [`render_text`] does, except that each
/// function symbol was replaced by a decorated text as [`painted_symbol`]
/// allows: the symbol kept in order, with only a prefix and a suffix added
/// unless the symbol itself holds a terminal reset sequence.
pub open spec fn is_decorated_render(frames: Seq<FrameData>, out: Seq<char>) -> bool
    decreases frames.len(),
{
    if frames.len() == 0 {
        out == Seq::<char>::empty()
    } else {
        exists|painted: Seq<char>, rest: Seq<char>|
            painted_symbol(frames[0].function, painted) && out == decorated_frame_text(
                frames[0],
                painted,
            ) + rest && is_decorated_render(frames.drop_first(), rest)
    }
}

/// Render the frames from index `i` on, decorating each function symbol.
fn render_decorated_from(frames: &Vec<Frame>, i: usize) -> (r: String)
    requires
        i <= frames.len(),
    ensures
        is_decorated_render(frames.deep_view().skip(i as int), r@),
    decreases frames.len() - i,
{
    let ghost fs = frames.deep_view();
    if i == frames.len() {
        let out = String::new();
        proof {
            assert(fs.skip(i as int) =~= Seq::<FrameData>::empty());
        }
        out
    } else {
        let f = &frames[i];
        let mut out = String::new();
        append_header(&mut out, f);
        proof {
            reveal_strlit("\n\t");
            reveal_strlit("\n\n");
        }
        out.append("\n\t");
        let painted = paint_symbol(f.function.as_str());
        out.append(painted.as_str());
        out.append("\n\n");
        let rest = render_decorated_from(frames, i + 1);
        out.append(rest.as_str());
        proof {
            assert(fs.skip(i as int).drop_first() =~= fs.skip(i + 1));
            assert(fs.skip(i as int)[0] == fs[i as int]);
            assert(out@ =~= decorated_frame_text(fs[i as int], painted@) + rest@);
        }
        out
    }
}

/// Render `frames` as [`render`] does, but with each function symbol passed
/// through the terminal decoration, which adds escape codes around it when
/// the process has coloring enabled and leaves it untouched otherwise.
pub fn render_decorated(frames: &Vec<Frame>) -> (r: String)
    ensures
        is_decorated_render(frames.deep_view(), r@),
{
    let r = render_decorated_from(frames, 0);
    proof {
        assert(frames.deep_view().skip(0) =~= frames.deep_view());
    }
    r
}

} // verus!
