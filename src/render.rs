//! The line-numbering policy: which lines get a number, and which number.

use vstd::prelude::*;
use vstd::string::*;

use crate::format::{format_number, number_field};

verus! {

/// How the lines of the output are numbered.
#[derive(Clone, Copy, Debug, PartialEq, Eq, Structural)]
pub enum NumberMode {
    /// Lines are copied as they are.
    Plain,
    /// Every line gets a number.
    NumberAll,
    /// Every non-empty line gets a number; empty lines stay empty.
    NumberNonblank,
}

/// A line led by its number and a tab.
pub open spec fn numbered(n: nat, line: Seq<char>) -> Seq<char> {
    number_field(n) + seq!['\t'] + line
}

/// Whether `line` takes a number, and so advances the counter, under `mode`.
pub open spec fn takes_number(line: Seq<char>, mode: NumberMode) -> bool {
    match mode {
        NumberMode::Plain => false,
        NumberMode::NumberAll => true,
        NumberMode::NumberNonblank => line.len() > 0,
    }
}

/// What is printed for `line` when the counter stands at `n`.
pub open spec fn render_one(line: Seq<char>, n: nat, mode: NumberMode) -> Seq<char> {
    if takes_number(line, mode) {
        numbered(n, line)
    } else {
        line
    }
}

/// The number of non-empty lines in `lines`.
pub open spec fn nonblank_count(lines: Seq<Seq<char>>) -> nat
    decreases lines.len(),
{
    if lines.len() == 0 {
        0
    } else {
        nonblank_count(lines.drop_last()) + if lines.last().len() > 0 {
            1nat
        } else {
            0nat
        }
    }
}

/// The number of lines in `lines` that take a number under `mode`.
pub open spec fn numbered_count(lines: Seq<Seq<char>>, mode: NumberMode) -> nat {
    match mode {
        NumberMode::Plain => 0,
        NumberMode::NumberAll => lines.len(),
        NumberMode::NumberNonblank => nonblank_count(lines),
    }
}

/// The counter after `lines` have been rendered from `start` under `mode`.
pub open spec fn next_counter(lines: Seq<Seq<char>>, start: nat, mode: NumberMode) -> nat {
    start + numbered_count(lines, mode)
}

/// What is printed for `lines`, one output line each, with the counter at `start`.
pub open spec fn render_seq(lines: Seq<Seq<char>>, start: nat, mode: NumberMode) -> Seq<Seq<char>>
    decreases lines.len(),
{
    if lines.len() == 0 {
        Seq::empty()
    } else {
        render_seq(lines.drop_last(), start, mode).push(
            render_one(lines.last(), next_counter(lines.drop_last(), start, mode), mode),
        )
    }
}

/// The text of each string in `v`.
pub open spec fn texts(v: Seq<String>) -> Seq<Seq<char>> {
    v.map_values(|s: String| s@)
}

/// Renders one line with the counter at `*counter`, and advances the counter
/// when the line takes a number.
pub fn render_line(line: &str, counter: &mut u64, mode: NumberMode) -> (r: String)
    requires
        takes_number(line@, mode) ==> *old(counter) < u64::MAX,
    ensures
        r@ == render_one(line@, *old(counter) as nat, mode),
        *final(counter) == *old(counter) + if takes_number(line@, mode) {
            1int
        } else {
            0int
        },
{
    let number = match mode {
        NumberMode::Plain => false,
        NumberMode::NumberAll => true,
        NumberMode::NumberNonblank => !line.is_empty(),
    };
    if number {
        let mut r = format_number(*counter);
        r.append("\t");
        r.append(line);
        proof {
            reveal_strlit("\t");
        }
        assert(r@ =~= numbered(*old(counter) as nat, line@));
        *counter = *counter + 1;
        r
    } else {
        line.to_owned()
    }
}

/// Renders `lines` in order, starting at `*counter`, and leaves the counter
/// where the next line would be numbered.
pub fn render_lines(lines: &Vec<String>, counter: &mut u64, mode: NumberMode) -> (r: Vec<String>)
    requires
        next_counter(texts(lines@), *old(counter) as nat, mode) <= u64::MAX,
    ensures
        texts(r@) == render_seq(texts(lines@), *old(counter) as nat, mode),
        *final(counter) == next_counter(texts(lines@), *old(counter) as nat, mode),
{
    let ghost start = *counter as nat;
    let ghost all = texts(lines@);
    let mut r: Vec<String> = Vec::new();
    let mut i: usize = 0;
    while i < lines.len()
        invariant
            i <= lines@.len(),
            all == texts(lines@),
            next_counter(all, start, mode) <= u64::MAX,
            texts(r@) == render_seq(all.take(i as int), start, mode),
            *counter == next_counter(all.take(i as int), start, mode),
        decreases lines@.len() - i,
    {
        let ghost before = all.take(i as int);
        let ghost after = all.take(i + 1);
        assert(after.drop_last() =~= before);
        assert(after.last() == lines@[i as int]@);
        proof {
            lemma_numbered_count_prefix(all, i as int + 1, mode);
        }
        let line = render_line(lines[i].as_str(), counter, mode);
        r.push(line);
        assert(texts(r@) =~= render_seq(after, start, mode));
        i = i + 1;
    }
    assert(all.take(lines@.len() as int) =~= all);
    r
}

proof fn lemma_nonblank_count_prefix(lines: Seq<Seq<char>>, k: int)
    requires
        0 <= k <= lines.len(),
    ensures
        nonblank_count(lines.take(k)) <= nonblank_count(lines),
    decreases lines.len(),
{
    if k < lines.len() {
        assert(lines.drop_last().take(k) =~= lines.take(k));
        lemma_nonblank_count_prefix(lines.drop_last(), k);
    } else {
        assert(lines.take(k) =~= lines);
    }
}

proof fn lemma_numbered_count_prefix(lines: Seq<Seq<char>>, k: int, mode: NumberMode)
    requires
        0 <= k <= lines.len(),
    ensures
        numbered_count(lines.take(k), mode) <= numbered_count(lines, mode),
{
    lemma_nonblank_count_prefix(lines, k);
}

proof fn lemma_nonblank_count_concat(a: Seq<Seq<char>>, b: Seq<Seq<char>>)
    ensures
        nonblank_count(a + b) == nonblank_count(a) + nonblank_count(b),
    decreases b.len(),
{
    if b.len() == 0 {
        assert(a + b =~= a);
    } else {
        assert((a + b).drop_last() =~= a + b.drop_last());
        lemma_nonblank_count_concat(a, b.drop_last());
    }
}

proof fn lemma_render_seq_len(lines: Seq<Seq<char>>, start: nat, mode: NumberMode)
    ensures
        render_seq(lines, start, mode).len() == lines.len(),
    decreases lines.len(),
{
    if lines.len() > 0 {
        lemma_render_seq_len(lines.drop_last(), start, mode);
    }
}

/// The `i`-th output line is the `i`-th input line rendered with the counter
/// advanced by the lines before it.
pub proof fn lemma_render_seq_index(lines: Seq<Seq<char>>, start: nat, mode: NumberMode, i: int)
    requires
        0 <= i < lines.len(),
    ensures
        render_seq(lines, start, mode).len() == lines.len(),
        render_seq(lines, start, mode)[i] == render_one(
            lines[i],
            next_counter(lines.take(i), start, mode),
            mode,
        ),
    decreases lines.len(),
{
    lemma_render_seq_len(lines, start, mode);
    if i < lines.len() - 1 {
        lemma_render_seq_index(lines.drop_last(), start, mode, i);
        assert(lines.drop_last().take(i) =~= lines.take(i));
    } else {
        assert(lines.drop_last() =~= lines.take(i));
    }
}

/// Without numbering, the output lines are the input lines, unchanged.
pub proof fn lemma_plain_is_verbatim(lines: Seq<Seq<char>>, start: nat)
    ensures
        render_seq(lines, start, NumberMode::Plain) == lines,
        next_counter(lines, start, NumberMode::Plain) == start,
    decreases lines.len(),
{
    if lines.len() > 0 {
        lemma_plain_is_verbatim(lines.drop_last(), start);
        assert(render_seq(lines, start, NumberMode::Plain) =~= lines);
    }
}

/// On input without empty lines, numbering all lines and numbering the
/// non-empty lines give the same output and leave the same counter.
pub proof fn lemma_all_and_nonblank_agree(lines: Seq<Seq<char>>, start: nat)
    requires
        forall|i: int| 0 <= i < lines.len() ==> #[trigger] lines[i].len() > 0,
    ensures
        render_seq(lines, start, NumberMode::NumberAll) == render_seq(
            lines,
            start,
            NumberMode::NumberNonblank,
        ),
        next_counter(lines, start, NumberMode::NumberAll) == next_counter(
            lines,
            start,
            NumberMode::NumberNonblank,
        ),
    decreases lines.len(),
{
    if lines.len() > 0 {
        let init = lines.drop_last();
        assert forall|i: int| 0 <= i < init.len() implies #[trigger] init[i].len() > 0 by {
            assert(init[i] == lines[i]);
        }
        lemma_all_and_nonblank_agree(init, start);
        assert(lines.last().len() > 0);
    }
}

/// Numbering the non-empty lines from one, a non-empty line gets one more than
/// the number of non-empty lines before it, and an empty line is printed empty.
pub proof fn lemma_nonblank_numbering(lines: Seq<Seq<char>>, i: int)
    requires
        0 <= i < lines.len(),
    ensures
        lines[i].len() > 0 ==> render_seq(lines, 1, NumberMode::NumberNonblank)[i] == numbered(
            1 + nonblank_count(lines.take(i)),
            lines[i],
        ),
        lines[i].len() == 0 ==> render_seq(lines, 1, NumberMode::NumberNonblank)[i] == Seq::<
            char,
        >::empty(),
{
    lemma_render_seq_index(lines, 1, NumberMode::NumberNonblank, i);
}

/// Numbering all lines from one, the `i`-th line (counted from zero) gets `i + 1`.
pub proof fn lemma_all_numbering(lines: Seq<Seq<char>>, i: int)
    requires
        0 <= i < lines.len(),
    ensures
        render_seq(lines, 1, NumberMode::NumberAll)[i] == numbered((i + 1) as nat, lines[i]),
{
    lemma_render_seq_index(lines, 1, NumberMode::NumberAll, i);
}

/// Rendering two sources one after the other, with the counter carried over,
/// gives the output of rendering them as one: the numbering runs on.
pub proof fn lemma_counter_runs_on(
    a: Seq<Seq<char>>,
    b: Seq<Seq<char>>,
    start: nat,
    mode: NumberMode,
)
    ensures
        render_seq(a + b, start, mode) == render_seq(a, start, mode) + render_seq(
            b,
            next_counter(a, start, mode),
            mode,
        ),
        next_counter(a + b, start, mode) == next_counter(b, next_counter(a, start, mode), mode),
    decreases b.len(),
{
    lemma_nonblank_count_concat(a, b);
    if b.len() == 0 {
        assert(a + b =~= a);
        assert(render_seq(a, start, mode) + render_seq(b, next_counter(a, start, mode), mode)
            =~= render_seq(a, start, mode));
    } else {
        let b0 = b.drop_last();
        assert((a + b).drop_last() =~= a + b0);
        assert((a + b).last() == b.last());
        lemma_counter_runs_on(a, b0, start, mode);
        assert(render_seq(a + b, start, mode) =~= render_seq(a, start, mode) + render_seq(
            b,
            next_counter(a, start, mode),
            mode,
        ));
    }
}

} // verus!
