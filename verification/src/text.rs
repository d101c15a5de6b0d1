use vstd::prelude::*;

use crate::fixed::Fx;

verus! {

/// The index of the first line break in `s`, or `s.len()` if there is
/// none.
pub open spec fn line_break(s: Seq<char>) -> int
    decreases s.len(),
{
    if s.len() == 0 {
        0
    } else if s[0] == '\n' {
        0
    } else {
        1 + line_break(s.drop_first())
    }
}

/// Where the first line break lies: within bounds, on a break character,
/// with none before it.
pub proof fn lemma_line_break(s: Seq<char>)
    ensures
        0 <= line_break(s) <= s.len(),
        line_break(s) < s.len() ==> s[line_break(s)] == '\n',
        forall|j: int| 0 <= j < line_break(s) ==> s[j] != '\n',
    decreases s.len(),
{
    if s.len() == 0 {
    } else if s[0] == '\n' {
    } else {
        lemma_line_break(s.drop_first());
        assert forall|j: int| 0 <= j < line_break(s) implies s[j] != '\n' by {
            if j > 0 {
                assert(s.drop_first()[j - 1] == s[j]);
            }
        }
        if line_break(s) < s.len() {
            assert(s.drop_first()[line_break(s) - 1] == s[line_break(s)]);
        }
    }
}

/// The lines of `s`: what splitting on line breaks yields, in order. The
/// empty text is one empty line, and a trailing break ends with one.
pub open spec fn spec_lines(s: Seq<char>) -> Seq<Seq<char>>
    decreases s.len(),
{
    let b = line_break(s);
    if 0 <= b && b < s.len() {
        seq![s.take(b)] + spec_lines(s.skip(b + 1))
    } else {
        seq![s]
    }
}

/// Splitting at a first line break: the part before it is one line, and
/// the rest splits on its own.
pub proof fn lemma_lines_at_break(s: Seq<char>, i: int)
    requires
        0 <= i < s.len(),
        s[i] == '\n',
        forall|j: int| 0 <= j < i ==> s[j] != '\n',
    ensures
        spec_lines(s) == seq![s.take(i)] + spec_lines(s.skip(i + 1)),
{
    lemma_line_break(s);
    if line_break(s) < i {
        assert(s[line_break(s)] == '\n');
    }
    if line_break(s) > i {
        assert(s[i] != '\n');
    }
}

/// A text without a line break is a single line.
pub proof fn lemma_lines_no_break(s: Seq<char>)
    requires
        forall|j: int| 0 <= j < s.len() ==> s[j] != '\n',
    ensures
        spec_lines(s) == seq![s],
{
    lemma_line_break(s);
    if line_break(s) < s.len() {
        assert(s[line_break(s)] == '\n');
    }
}

/// How many lines a text can have: one more than its length at most.
pub proof fn lemma_lines_count(s: Seq<char>)
    ensures
        1 <= spec_lines(s).len() <= s.len() + 1,
    decreases s.len(),
{
    let b = line_break(s);
    lemma_line_break(s);
    if 0 <= b && b < s.len() {
        lemma_lines_count(s.skip(b + 1));
    }
}

/// The character sequences of a sequence of strings.
pub open spec fn lines_view(lines: Seq<String>) -> Seq<Seq<char>> {
    lines.map_values(|l: String| l@)
}

/// Splits a text into its lines, in order, exactly as `spec_lines` says:
/// one line per stretch between line breaks, with empty lines kept.
pub fn split_lines(text: &str) -> (lines: Vec<String>)
    ensures
        lines_view(lines@) == spec_lines(text@),
{
    let n = text.unicode_len();
    let mut lines: Vec<String> = Vec::new();
    let mut start: usize = 0;
    let mut i: usize = 0;
    proof {
        assert(text@.skip(0) =~= text@);
        assert(lines_view(lines@) + spec_lines(text@) =~= spec_lines(text@));
    }
    while i < n
        invariant
            n == text@.len(),
            start <= i <= n,
            forall|j: int| start <= j < i ==> text@[j] != '\n',
            spec_lines(text@) == lines_view(lines@) + spec_lines(text@.skip(start as int)),
        decreases n - i,
    {
        let c = text.get_char(i);
        if c == '\n' {
            let ghost before = lines_view(lines@);
            let piece = text.substring_char(start, i);
            lines.push(piece.to_owned());
            proof {
                let rest = text@.skip(start as int);
                assert(rest[(i - start) as int] == '\n');
                assert forall|j: int| 0 <= j < i - start implies rest[j] != '\n' by {
                    assert(rest[j] == text@[start + j]);
                }
                lemma_lines_at_break(rest, i - start);
                assert(rest.take((i - start) as int) =~= piece@);
                assert(rest.skip((i - start) + 1) =~= text@.skip((i + 1) as int));
                assert(lines_view(lines@) =~= before.push(piece@));
                assert(spec_lines(text@) =~= lines_view(lines@) + spec_lines(text@.skip(
                    (i + 1) as int,
                )));
            }
            start = i + 1;
        }
        i += 1;
    }
    let ghost before = lines_view(lines@);
    let piece = text.substring_char(start, n);
    lines.push(piece.to_owned());
    proof {
        let rest = text@.skip(start as int);
        assert forall|j: int| 0 <= j < rest.len() implies rest[j] != '\n' by {
            assert(rest[j] == text@[start + j]);
        }
        lemma_lines_no_break(rest);
        assert(rest =~= piece@);
        assert(lines_view(lines@) =~= before.push(piece@));
        assert(lines_view(lines@) =~= spec_lines(text@));
    }
    lines
}

/// Lays a text out line by line: the lines of the text in order, each
/// paired with its baseline, starting at `y` and advancing by
/// `line_spacing` per line. The bounds keep every baseline within the
/// scalar range.
pub fn multiline_layout(text: &str, y: Fx, line_spacing: Fx) -> (lines: Vec<(String, Fx)>)
    requires
        text@.len() <= 0x1_0000_0000,
        -0x4000_0000_0000 <= y.raw <= 0x4000_0000_0000,
        -0x4000_0000 <= line_spacing.raw <= 0x4000_0000,
    ensures
        lines@.len() == spec_lines(text@).len(),
        forall|k: int|
            0 <= k < lines@.len() ==> (#[trigger] lines@[k]).0@ == spec_lines(text@)[k]
                && lines@[k].1.raw == y.raw + k * line_spacing.raw,
{
    proof {
        lemma_lines_count(text@);
    }
    let raw_lines = split_lines(text);
    let mut out: Vec<(String, Fx)> = Vec::new();
    let mut k: usize = 0;
    while k < raw_lines.len()
        invariant
            lines_view(raw_lines@) == spec_lines(text@),
            raw_lines@.len() <= 0x1_0000_0001,
            -0x4000_0000_0000 <= y.raw <= 0x4000_0000_0000,
            -0x4000_0000 <= line_spacing.raw <= 0x4000_0000,
            k <= raw_lines@.len(),
            out@.len() == k,
            forall|m: int|
                0 <= m < k ==> (#[trigger] out@[m]).0@ == spec_lines(text@)[m] && out@[m].1.raw
                    == y.raw + m * line_spacing.raw,
        decreases raw_lines@.len() - k,
    {
        proof {
            assert((k as int) * (line_spacing.raw as int) <= 0x1_0000_0001 * 0x4000_0000
                && (k as int) * (line_spacing.raw as int) >= 0x1_0000_0001 * -0x4000_0000) by (nonlinear_arith)
                requires
                    0 <= k as int <= 0x1_0000_0001,
                    -0x4000_0000 <= line_spacing.raw as int <= 0x4000_0000,
            ;
        }
        let offset: i64 = (k as i64) * line_spacing.raw;
        let baseline = Fx { raw: y.raw + offset };
        let line = raw_lines[k].clone();
        proof {
            assert(line@ == raw_lines@[k as int]@);
            assert(lines_view(raw_lines@)[k as int] == raw_lines@[k as int]@);
        }
        out.push((line, baseline));
        k += 1;
    }
    out
}

} // verus!
