//! Cleaning the raw UART transcript of the OCaml REPL.
//!
//! The REPL writes a prompt `"> "` at the start of each input line and
//! echoes the input back; the VM prints a boot banner `PVM OK` and a final
//! `HALT`. What the user wants to see is only what the program printed.

use vstd::prelude::*;
use crate::text::{cr_and_trim_bounds, push_char, range_eq, str_chars, trim, trim_end, trim_end_cr, trim_start};

verus! {

/// Index just past the first newline at or after `j` in `s`, or the length
/// of `s` when there is none.
pub open spec fn past_newline(s: Seq<char>, j: int) -> int
    decreases s.len() - j,
{
    if j >= s.len() {
        s.len() as int
    } else if s[j] == '\n' {
        j + 1
    } else {
        past_newline(s, j + 1)
    }
}

pub proof fn lemma_past_newline_bounds(s: Seq<char>, j: int)
    requires
        0 <= j,
    ensures
        j <= s.len() ==> j <= past_newline(s, j) <= s.len(),
        j > s.len() ==> past_newline(s, j) == s.len(),
    decreases s.len() - j,
{
    if j < s.len() && s[j] != '\n' {
        lemma_past_newline_bounds(s, j + 1);
    }
}

/// Whether index `i` of `s` holds a prompt `"> "`, `at_line_start` saying
/// whether `i` starts a line.
pub open spec fn prompt_at(s: Seq<char>, i: int, at_line_start: bool) -> bool {
    at_line_start && 0 <= i && i + 1 < s.len() && s[i] == '>' && s[i + 1] == ' '
}

/// The transcript `s` from index `i` on, with every prompt `"> "` that
/// starts a line removed together with the echoed input that follows it, up
/// to and including the next newline; everything else passes through.
/// `at_line_start` says whether index `i` starts a line.
pub open spec fn strip_from(s: Seq<char>, i: int, at_line_start: bool) -> Seq<char>
    decreases s.len() - i,
{
    if i < 0 || i >= s.len() {
        seq![]
    } else if prompt_at(s, i, at_line_start) {
        proof {
            lemma_past_newline_bounds(s, i + 2);
        }
        strip_from(s, past_newline(s, i + 2), true)
    } else {
        seq![s[i]] + strip_from(s, i + 1, s[i] == '\n')
    }
}

/// The whole transcript `s` without its prompts and echoed input lines.
pub open spec fn prompt_free(s: Seq<char>) -> Seq<char> {
    strip_from(s, 0, true)
}

/// Whether index `k` of `t` starts a line, `first` saying whether index 0
/// does.
pub open spec fn starts_line(t: Seq<char>, k: int, first: bool) -> bool {
    if k == 0 {
        first
    } else {
        t[k - 1] == '\n'
    }
}

/// Whether the line of `s` starting at index `i` starts with the prompt.
pub open spec fn prompt_line_at(s: Seq<char>, i: int) -> bool {
    prompt_at(s, i, starts_line(s, i, true))
}

/// Whether some line of `s` starts with the prompt `"> "`.
pub open spec fn has_prompt_line(s: Seq<char>) -> bool {
    exists|i: int| #[trigger] prompt_line_at(s, i)
}

/// Remove REPL prompt segments from a raw UART transcript: wherever a line
/// starts with `"> "`, drop the prompt and the echoed source that follows
/// it up to and including the next newline. Result text on the other lines
/// passes through unchanged; a transcript without a prompt line comes back
/// as it is.
pub fn strip_prompt_echoes(raw: &str) -> (r: String)
    ensures
        r@ == prompt_free(raw@),
        !has_prompt_line(raw@) ==> r@ == raw@,
{
    let cs = str_chars(raw);
    let ghost b = cs@;
    let n = cs.len();
    let mut out = String::new();
    let mut i: usize = 0;
    let mut at_line_start = true;
    while i < n
        invariant
            b == cs@,
            b == raw@,
            n == b.len(),
            i <= n,
            out@ + strip_from(b, i as int, at_line_start) == prompt_free(b),
        decreases n - i,
    {
        if at_line_start && i + 1 < n && cs[i] == '>' && cs[i + 1] == ' ' {
            let ghost start = (i + 2) as int;
            proof {
                lemma_past_newline_bounds(b, start);
            }
            i += 2;
            while i < n
                invariant_except_break
                    b == cs@,
                    n == b.len(),
                    start <= i <= n,
                    past_newline(b, i as int) == past_newline(b, start),
                ensures
                    i == past_newline(b, start),
                decreases n - i,
            {
                let x = cs[i];
                i += 1;
                if x == '\n' {
                    break;
                }
            }
            at_line_start = true;
        } else {
            let x = cs[i];
            let ghost before = out@;
            push_char(&mut out, x);
            proof {
                assert(out@ + strip_from(b, i + 1, x == '\n') =~= before + strip_from(
                    b,
                    i as int,
                    at_line_start,
                ));
            }
            at_line_start = x == '\n';
            i += 1;
        }
    }
    proof {
        assert(out@ =~= out@ + strip_from(b, i as int, at_line_start));
        if !has_prompt_line(b) {
            lemma_prompt_free_passthrough(b);
        }
    }
    out
}

/// Index of the first newline at or after `j` in `s`, or the length of `s`.
pub open spec fn line_end(s: Seq<char>, j: int) -> int
    decreases s.len() - j,
{
    if j >= s.len() {
        s.len() as int
    } else if s[j] == '\n' {
        j
    } else {
        line_end(s, j + 1)
    }
}

pub proof fn lemma_line_end_bounds(s: Seq<char>, j: int)
    requires
        0 <= j <= s.len(),
    ensures
        j <= line_end(s, j) <= s.len(),
        line_end(s, j) < s.len() ==> s[line_end(s, j)] == '\n',
    decreases s.len() - j,
{
    if j < s.len() && s[j] != '\n' {
        lemma_line_end_bounds(s, j + 1);
    }
}

/// The lines of `s` from index `i` on: the pieces between newlines, where a
/// final newline ends the last line rather than starting an empty one.
pub open spec fn lines_from(s: Seq<char>, i: int) -> Seq<Seq<char>>
    decreases s.len() + 1 - i,
{
    if i < 0 || i >= s.len() {
        seq![]
    } else {
        proof {
            lemma_line_end_bounds(s, i);
        }
        seq![s.subrange(i, line_end(s, i))] + lines_from(s, line_end(s, i) + 1)
    }
}

/// The lines of `s`, as `str::lines` gives them before trailing carriage
/// returns are removed.
pub open spec fn lines(s: Seq<char>) -> Seq<Seq<char>> {
    lines_from(s, 0)
}

/// Whether a line (already without trailing carriage returns) is program
/// output: not blank, and not the VM's boot banner or halt notice.
pub open spec fn is_program_output(line: Seq<char>) -> bool {
    let t = trim(line);
    t.len() > 0 && t != "PVM OK"@ && t != "HALT"@
}

/// The lines joined with a newline between each two of them.
pub open spec fn join_lines(ls: Seq<Seq<char>>) -> Seq<char>
    decreases ls.len(),
{
    if ls.len() == 0 {
        seq![]
    } else if ls.len() == 1 {
        ls[0]
    } else {
        join_lines(ls.drop_last()) + seq!['\n'] + ls.last()
    }
}

/// The lines of `s` that are program output, without trailing carriage
/// returns.
pub open spec fn output_lines(s: Seq<char>) -> Seq<Seq<char>> {
    lines(s).map_values(|l: Seq<char>| trim_end_cr(l)).filter(|l: Seq<char>| is_program_output(l))
}

/// What the output panel shows for the raw transcript `raw`: the
/// program-output lines of the prompt-free transcript, joined by newlines.
pub open spec fn shown_output(raw: Seq<char>) -> Seq<char> {
    join_lines(output_lines(prompt_free(raw)))
}

proof fn lemma_join_push(ls: Seq<Seq<char>>, l: Seq<char>)
    ensures
        join_lines(ls.push(l)) == if ls.len() == 0 {
            l
        } else {
            join_lines(ls) + seq!['\n'] + l
        },
{
    assert(ls.push(l).drop_last() =~= ls);
}

proof fn lemma_join_nonempty(ls: Seq<Seq<char>>)
    requires
        ls.len() > 0,
        ls.last().len() > 0,
    ensures
        join_lines(ls).len() > 0,
{
}

proof fn lemma_output_lines_nonempty(ls: Seq<Seq<char>>)
    requires
        forall|k: int| 0 <= k < ls.len() ==> is_program_output(#[trigger] ls[k]),
    ensures
        forall|k: int| 0 <= k < ls.len() ==> (#[trigger] ls[k]).len() > 0,
{
    assert forall|k: int| 0 <= k < ls.len() implies (#[trigger] ls[k]).len() > 0 by {
        let l = ls[k];
        if l.len() == 0 {
            assert(trim_start(l) == l);
            assert(trim_end(l) == l);
        }
    }
}

proof fn lemma_filter_push(
    xs: Seq<Seq<char>>,
    x: Seq<char>,
    pred: spec_fn(Seq<char>) -> bool,
)
    ensures
        xs.push(x).filter(pred) == if pred(x) {
            xs.filter(pred).push(x)
        } else {
            xs.filter(pred)
        },
{
    reveal(Seq::filter);
    assert(xs.push(x).drop_last() =~= xs);
}

/// UART output with the VM's boot banner, REPL prompts, echoed source,
/// blank lines and trailing carriage returns removed: only what the
/// program itself printed remains, one line per printed line.
pub fn clean_output(raw: &str) -> (r: String)
    ensures
        r@ == shown_output(raw@),
{
    let stripped = strip_prompt_echoes(raw);
    let cs = str_chars(stripped.as_str());
    let ghost s = cs@;
    let banner = str_chars("PVM OK");
    let halt = str_chars("HALT");
    let n = cs.len();
    let mut out = String::new();
    let mut pos: usize = 0;
    let ghost mut done: Seq<Seq<char>> = seq![];
    let ghost keep = |l: Seq<char>| is_program_output(l);
    let ghost cut = |l: Seq<char>| trim_end_cr(l);
    while pos < n
        invariant
            s == cs@,
            n == s.len(),
            banner@ == "PVM OK"@,
            halt@ == "HALT"@,
            pos <= n,
            done + lines_from(s, pos as int) == lines(s),
            out@ == join_lines(done.map_values(cut).filter(keep)),
            keep == (|l: Seq<char>| is_program_output(l)),
            cut == (|l: Seq<char>| trim_end_cr(l)),
        decreases n - pos,
    {
        let mut j = pos;
        while j < n && cs[j] != '\n'
            invariant
                s == cs@,
                n == s.len(),
                pos <= j <= n,
                line_end(s, j as int) == line_end(s, pos as int),
            decreases n - j,
        {
            j += 1;
        }
        proof {
            lemma_line_end_bounds(s, pos as int);
        }
        let ghost line = s.subrange(pos as int, j as int);
        let (end, lo, hi) = cr_and_trim_bounds(cs.as_slice(), pos, j);
        let shown = hi > lo && !range_eq(cs.as_slice(), lo, hi, banner.as_slice()) && !range_eq(
            cs.as_slice(),
            lo,
            hi,
            halt.as_slice(),
        );
        let ghost old_done = done;
        let ghost kept_before = old_done.map_values(cut).filter(keep);
        proof {
            assert(lines_from(s, pos as int) == seq![line] + lines_from(s, j + 1));
            done = done.push(line);
            assert(done + lines_from(s, j + 1) =~= old_done + lines_from(s, pos as int));
            assert(done.map_values(cut) =~= old_done.map_values(cut).push(trim_end_cr(line)));
            lemma_filter_push(old_done.map_values(cut), trim_end_cr(line), keep);
            assert(shown == is_program_output(trim_end_cr(line)));
            assert(forall|k: int|
                0 <= k < kept_before.len() ==> is_program_output(#[trigger] kept_before[k])) by {
                broadcast use Seq::lemma_filter_pred;

            }
            lemma_output_lines_nonempty(kept_before);
            if kept_before.len() > 0 {
                lemma_join_nonempty(kept_before);
            }
        }
        if shown {
            let ghost mid = out@;
            if !out.as_str().is_empty() {
                push_char(&mut out, '\n');
            }
            let mut k = pos;
            while k < end
                invariant
                    s == cs@,
                    n == s.len(),
                    pos <= k <= end <= n,
                    out@ == (if mid.len() > 0 {
                        mid + seq!['\n']
                    } else {
                        mid
                    }) + s.subrange(pos as int, k as int),
                decreases end - k,
            {
                push_char(&mut out, cs[k]);
                k += 1;
                assert(s.subrange(pos as int, k as int) =~= s.subrange(pos as int, k - 1).push(
                    s[k - 1],
                ));
            }
            proof {
                lemma_join_push(kept_before, trim_end_cr(line));
                if mid.len() > 0 {
                    assert(kept_before.len() > 0);
                } else {
                    assert(kept_before.len() == 0);
                }
                assert(out@ =~= join_lines(done.map_values(cut).filter(keep)));
            }
        }
        pos = if j < n {
            j + 1
        } else {
            j
        };
        proof {
            if j == n {
                assert(lines_from(s, pos as int) == lines_from(s, j + 1));
            }
        }
    }
    proof {
        assert(done =~= lines(s));
    }
    out
}

proof fn lemma_strip_from_passthrough(s: Seq<char>, i: int, at_line_start: bool)
    requires
        0 <= i <= s.len(),
        !has_prompt_line(s),
        at_line_start == starts_line(s, i, true),
    ensures
        strip_from(s, i, at_line_start) == s.skip(i),
    decreases s.len() - i,
{
    if i < s.len() {
        assert(!prompt_line_at(s, i));
        lemma_strip_from_passthrough(s, i + 1, s[i] == '\n');
        assert(s.skip(i) =~= seq![s[i]] + s.skip(i + 1));
    } else {
        assert(s.skip(i) =~= Seq::<char>::empty());
    }
}

/// A transcript in which no line starts with the prompt passes through
/// unchanged.
pub proof fn lemma_prompt_free_passthrough(s: Seq<char>)
    requires
        !has_prompt_line(s),
    ensures
        prompt_free(s) == s,
{
    lemma_strip_from_passthrough(s, 0, true);
    assert(s.skip(0) =~= s);
}

proof fn lemma_strip_from_len(s: Seq<char>, i: int, at_line_start: bool)
    requires
        0 <= i <= s.len(),
    ensures
        strip_from(s, i, at_line_start).len() <= s.len() - i,
    decreases s.len() - i,
{
    if i < s.len() {
        if prompt_at(s, i, at_line_start) {
            lemma_past_newline_bounds(s, i + 2);
            lemma_strip_from_len(s, past_newline(s, i + 2), true);
        } else {
            lemma_strip_from_len(s, i + 1, s[i] == '\n');
        }
    }
}

/// Removing prompts never lengthens a transcript.
pub proof fn lemma_prompt_free_shorter(s: Seq<char>)
    ensures
        prompt_free(s).len() <= s.len(),
{
    lemma_strip_from_len(s, 0, true);
}

/// Whether `t` holds no prompt at a line start, `at_line_start` saying
/// whether its first index starts a line.
pub open spec fn no_prompt(t: Seq<char>, at_line_start: bool) -> bool {
    forall|k: int| #![trigger t[k]] !prompt_at(t, k, starts_line(t, k, at_line_start))
}

proof fn lemma_strip_from_no_prompt(s: Seq<char>, i: int, at_line_start: bool)
    requires
        0 <= i <= s.len(),
    ensures
        no_prompt(strip_from(s, i, at_line_start), at_line_start),
    decreases s.len() - i,
{
    let t = strip_from(s, i, at_line_start);
    if i < s.len() {
        if prompt_at(s, i, at_line_start) {
            lemma_past_newline_bounds(s, i + 2);
            lemma_strip_from_no_prompt(s, past_newline(s, i + 2), true);
        } else {
            let r = strip_from(s, i + 1, s[i] == '\n');
            lemma_strip_from_no_prompt(s, i + 1, s[i] == '\n');
            assert(t == seq![s[i]] + r);
            assert forall|k: int| #![trigger t[k]] !prompt_at(t, k, starts_line(t, k, at_line_start)) by {
                if 0 < k < t.len() {
                    assert(t[k] == r[k - 1]);
                    assert(t[k - 1] == if k == 1 { s[i] } else { r[k - 2] });
                    if k + 1 < t.len() {
                        assert(t[k + 1] == r[k]);
                    }
                    assert(!prompt_at(r, k - 1, starts_line(r, k - 1, s[i] == '\n')));
                } else if k == 0 && at_line_start && t.len() > 1 && s[i] == '>' {
                    assert(i + 1 < s.len());
                    assert(!prompt_at(s, i + 1, false));
                    assert(r[0] == s[i + 1]);
                }
            }
        }
    }
}

/// Removing prompts leaves no line that starts with a prompt, so removing
/// them a second time changes nothing.
pub proof fn lemma_prompt_free_idempotent(s: Seq<char>)
    ensures
        !has_prompt_line(prompt_free(s)),
        prompt_free(prompt_free(s)) == prompt_free(s),
{
    let t = prompt_free(s);
    lemma_strip_from_no_prompt(s, 0, true);
    if has_prompt_line(t) {
        let k = choose|k: int| #[trigger] prompt_line_at(t, k);
        assert(t[k] == '>');
        assert(!prompt_at(t, k, starts_line(t, k, true)));
    }
    lemma_prompt_free_passthrough(t);
}

/// Every line the output panel shows is program output: not blank, not the
/// boot banner, not the halt notice.
pub proof fn lemma_shown_lines_are_program_output(raw: Seq<char>)
    ensures
        forall|k: int|
            0 <= k < output_lines(prompt_free(raw)).len() ==> is_program_output(
                #[trigger] output_lines(prompt_free(raw))[k],
            ),
{
    broadcast use Seq::lemma_filter_pred;

}

proof fn lemma_line_end_of_line(t: Seq<char>, n: int, j: int)
    requires
        0 <= j <= n < t.len(),
        t[n] == '\n',
        forall|k: int| 0 <= k < n ==> t[k] != '\n',
    ensures
        line_end(t, j) == n,
    decreases n - j,
{
    if j < n {
        lemma_line_end_of_line(t, n, j + 1);
    }
}

/// A transcript made of one line `l` and its newline (a line without a
/// prompt and without trailing carriage returns) shows `l` itself exactly
/// when `l`, trimmed of surrounding whitespace, is not empty and is neither
/// the boot banner `PVM OK` nor the halt notice `HALT`; otherwise it shows
/// nothing. So every other line the program prints, whatever it starts
/// with, is shown as printed.
pub proof fn lemma_single_line_shown(l: Seq<char>)
    requires
        forall|k: int| 0 <= k < l.len() ==> l[k] != '\n',
        l.len() == 0 || l.last() != '\r',
        !(l.len() >= 2 && l[0] == '>' && l[1] == ' '),
    ensures
        shown_output(l.push('\n')) == if trim(l).len() > 0 && trim(l) != "PVM OK"@ && trim(l)
            != "HALT"@ {
            l
        } else {
            Seq::<char>::empty()
        },
{
    let t = l.push('\n');
    let n = l.len() as int;
    assert forall|i: int| !#[trigger] prompt_line_at(t, i) by {
        if prompt_line_at(t, i) {
            if i > 0 {
                assert(t[i - 1] == '\n');
                assert(i - 1 < n);
                assert(t[i - 1] == l[i - 1]);
            } else {
                assert(t[0] == l[0] && t[1] == l[1]);
            }
        }
    }
    lemma_prompt_free_passthrough(t);
    assert(prompt_free(t) == t);
    assert forall|k: int| 0 <= k < n implies t[k] != '\n' by {
        assert(t[k] == l[k]);
    }
    lemma_line_end_of_line(t, n, 0);
    assert(t.subrange(0, n) =~= l);
    assert(lines_from(t, n + 1) == Seq::<Seq<char>>::empty());
    assert(lines(t) == seq![l] + Seq::<Seq<char>>::empty());
    assert(lines(t) =~= seq![l]);
    assert(trim_end_cr(l) == l);
    let cut = |x: Seq<char>| trim_end_cr(x);
    let keep = |x: Seq<char>| is_program_output(x);
    assert(seq![l].map_values(cut) =~= Seq::<Seq<char>>::empty().push(l));
    lemma_filter_push(Seq::<Seq<char>>::empty(), l, keep);
    assert(Seq::<Seq<char>>::empty().filter(keep) =~= Seq::<Seq<char>>::empty()) by {
        reveal(Seq::filter);
    }
    assert(trim_end_cr(l) == l);
    if is_program_output(l) {
        assert(output_lines(t) =~= seq![l]);
        assert(join_lines(seq![l]) == l);
    } else {
        assert(output_lines(t) =~= Seq::<Seq<char>>::empty());
    }
}

proof fn lemma_past_newline_shift(p: Seq<char>, u: Seq<char>, j: int)
    requires
        0 <= j <= u.len(),
    ensures
        past_newline(p + u, p.len() + j) == p.len() + past_newline(u, j),
    decreases u.len() - j,
{
    if j < u.len() {
        assert((p + u)[p.len() + j] == u[j]);
        if u[j] != '\n' {
            lemma_past_newline_shift(p, u, j + 1);
        }
    }
}

proof fn lemma_strip_shift(p: Seq<char>, u: Seq<char>, i: int, at_line_start: bool)
    requires
        0 <= i <= u.len(),
    ensures
        strip_from(p + u, p.len() + i, at_line_start) == strip_from(u, i, at_line_start),
    decreases u.len() - i,
{
    let s = p + u;
    if i < u.len() {
        assert(s[p.len() + i] == u[i]);
        if i + 1 < u.len() {
            assert(s[p.len() + i + 1] == u[i + 1]);
        }
        assert(prompt_at(s, p.len() + i, at_line_start) == prompt_at(u, i, at_line_start));
        if prompt_at(u, i, at_line_start) {
            lemma_past_newline_bounds(u, i + 2);
            lemma_past_newline_shift(p, u, i + 2);
            lemma_strip_shift(p, u, past_newline(u, i + 2), true);
        } else {
            lemma_strip_shift(p, u, i + 1, u[i] == '\n');
        }
    }
}

proof fn lemma_line_end_shift(p: Seq<char>, u: Seq<char>, j: int)
    requires
        0 <= j <= u.len(),
    ensures
        line_end(p + u, p.len() + j) == p.len() + line_end(u, j),
    decreases u.len() - j,
{
    if j < u.len() {
        assert((p + u)[p.len() + j] == u[j]);
        if u[j] != '\n' {
            lemma_line_end_shift(p, u, j + 1);
        }
    }
}

proof fn lemma_lines_shift(p: Seq<char>, u: Seq<char>, i: int)
    requires
        0 <= i,
    ensures
        lines_from(p + u, p.len() + i) == lines_from(u, i),
    decreases u.len() + 1 - i,
{
    if i < u.len() {
        lemma_line_end_shift(p, u, i);
        lemma_line_end_bounds(u, i);
        assert((p + u).subrange(p.len() + i, p.len() + line_end(u, i)) =~= u.subrange(
            i,
            line_end(u, i),
        ));
        lemma_lines_shift(p, u, line_end(u, i) + 1);
    }
}

/// An echoed input line (the prompt `"> "`, the input `e` and its newline)
/// at the start of a transcript is dropped whole: what follows it is
/// cleaned as if it stood alone.
pub proof fn lemma_echo_line_dropped(e: Seq<char>, t: Seq<char>)
    requires
        forall|k: int| 0 <= k < e.len() ==> e[k] != '\n',
    ensures
        prompt_free(("> "@ + e).push('\n') + t) == prompt_free(t),
        shown_output(("> "@ + e).push('\n') + t) == shown_output(t),
{
    reveal_strlit("> ");
    let q = ("> "@ + e).push('\n');
    let s = q + t;
    assert(s[0] == '>' && s[1] == ' ');
    assert(prompt_at(s, 0, true));
    assert forall|k: int| 2 <= k < q.len() - 1 implies s[k] != '\n' by {
        assert(s[k] == e[k - 2]);
    }
    assert(s[q.len() - 1] == '\n');
    assert forall|j: int| 2 <= j <= q.len() - 1 implies past_newline(s, j) == q.len() by {
        lemma_past_newline_to(s, j, q.len() - 1);
    }
    assert(past_newline(s, 2) == q.len());
    lemma_strip_shift(q, t, 0, true);
    assert(s.len() == q.len() + t.len());
    assert(prompt_free(s) == strip_from(s, q.len() as int, true));
}

proof fn lemma_past_newline_to(s: Seq<char>, j: int, n: int)
    requires
        0 <= j <= n < s.len(),
        s[n] == '\n',
        forall|k: int| j <= k < n ==> s[k] != '\n',
    ensures
        past_newline(s, j) == n + 1,
    decreases n - j,
{
    if j < n {
        lemma_past_newline_to(s, j + 1, n);
    }
}

/// The boot banner line `PVM OK` at the start of a transcript is never
/// shown: the rest is cleaned as if it stood alone.
pub proof fn lemma_banner_dropped(t: Seq<char>)
    ensures
        shown_output("PVM OK\n"@ + t) == shown_output(t),
{
    reveal_strlit("PVM OK\n");
    reveal_strlit("PVM OK");
    let b = "PVM OK\n"@;
    let s = b + t;
    assert(s[0] == 'P' && s[1] == 'V' && s[2] == 'M' && s[3] == ' ' && s[4] == 'O' && s[5]
        == 'K' && s[6] == '\n');
    lemma_strip_shift(b, t, 0, true);
    assert(strip_from(s, 7, true) == prompt_free(t));
    assert(strip_from(s, 6, false) == seq!['\n'] + prompt_free(t));
    assert(strip_from(s, 5, false) == seq!['K', '\n'] + prompt_free(t));
    assert(strip_from(s, 4, false) == seq!['O', 'K', '\n'] + prompt_free(t));
    assert(strip_from(s, 3, false) == seq![' ', 'O', 'K', '\n'] + prompt_free(t));
    assert(strip_from(s, 2, false) == seq!['M', ' ', 'O', 'K', '\n'] + prompt_free(t));
    assert(strip_from(s, 1, false) == seq!['V', 'M', ' ', 'O', 'K', '\n'] + prompt_free(t));
    assert(!prompt_at(s, 0, true));
    assert(prompt_free(s) =~= b + prompt_free(t));
    let w = prompt_free(t);
    let bw = b + w;
    assert(bw[6] == '\n');
    assert forall|k: int| 0 <= k < 6 implies bw[k] != '\n' by {
        assert(bw[k] == b[k]);
    }
    lemma_line_end_of_line(bw, 6, 0);
    assert(bw.subrange(0, 6) =~= "PVM OK"@);
    lemma_lines_shift(b, w, 0);
    assert(lines(bw) == seq!["PVM OK"@] + lines(w));
    let cut = |x: Seq<char>| trim_end_cr(x);
    let keep = |x: Seq<char>| is_program_output(x);
    assert((seq!["PVM OK"@] + lines(w)).map_values(cut) =~= seq![trim_end_cr("PVM OK"@)]
        + lines(w).map_values(cut));
    assert(trim_end_cr("PVM OK"@) == "PVM OK"@);
    assert(trim_start("PVM OK"@) == "PVM OK"@);
    assert(trim_end("PVM OK"@) == "PVM OK"@);
    assert(!is_program_output("PVM OK"@));
    lines(w).map_values(cut).lemma_filter_prepend("PVM OK"@, keep);
    assert(output_lines(bw) =~= output_lines(w));
}

} // verus!
