//! The pipeline driver's decision core. All of the driver's logic that does
//! not itself touch the file system or the network lives here, verified:
//! splitting the input text into lines, selecting the URL-shaped lines in
//! their original order, choosing the run mode from the command-line values,
//! tallying outcomes, and rendering output lines. The surrounding program
//! reads the input file, awaits one request per selected URL in order, and
//! appends each rendered line to the output sink.

use vstd::prelude::*;

use crate::validator::spec_valid_url;
use crate::validator::is_valid_url;

verus! {

/// The views of a sequence of strings, element by element.
pub open spec fn spec_views(lines: Seq<String>) -> Seq<Seq<char>> {
    lines.map_values(|line: String| line@)
}

/// The lines of `s`, split on `'\n'`, scanning from `cur` with the current
/// line having started at `start`: splitting yields one segment between any
/// two newlines, one before the first and one after the last, so a trailing
/// newline yields a final empty line.
pub open spec fn spec_split_from(s: Seq<char>, start: int, cur: int) -> Seq<Seq<char>>
    decreases s.len() - cur,
{
    if cur >= s.len() {
        seq![s.subrange(start, s.len() as int)]
    } else if s[cur] == '\n' {
        seq![s.subrange(start, cur)] + spec_split_from(s, cur + 1, cur + 1)
    } else {
        spec_split_from(s, start, cur + 1)
    }
}

/// The lines of `s`, split on `'\n'`.
pub open spec fn spec_split_lines(s: Seq<char>) -> Seq<Seq<char>> {
    spec_split_from(s, 0, 0)
}

/// The URL-shaped members of `lines`, in their original order.
pub open spec fn spec_select_valid(lines: Seq<Seq<char>>) -> Seq<Seq<char>>
    decreases lines.len(),
{
    if lines.len() == 0 {
        Seq::empty()
    } else if spec_valid_url(lines[0]) {
        seq![lines[0]] + spec_select_valid(lines.skip(1))
    } else {
        spec_select_valid(lines.skip(1))
    }
}

/// How many members of `lines` are URL-shaped.
pub open spec fn spec_valid_count(lines: Seq<Seq<char>>) -> nat
    decreases lines.len(),
{
    if lines.len() == 0 {
        0nat
    } else {
        (if spec_valid_url(lines[0]) {
            1nat
        } else {
            0nat
        }) + spec_valid_count(lines.skip(1))
    }
}

/// Law: selecting the URL-shaped lines keeps exactly one line per match —
/// of N input lines with M matches, M survive — and every survivor is
/// URL-shaped.
pub proof fn lemma_select_valid_count(lines: Seq<Seq<char>>)
    ensures
        spec_select_valid(lines).len() == spec_valid_count(lines),
        spec_valid_count(lines) <= lines.len(),
        forall|k: int|
            0 <= k < spec_select_valid(lines).len() ==> spec_valid_url(
                #[trigger] spec_select_valid(lines)[k],
            ),
    decreases lines.len(),
{
    if lines.len() == 0 {
    } else {
        lemma_select_valid_count(lines.skip(1));
        assert(lines.skip(1).len() == lines.len() - 1);
        if spec_valid_url(lines[0]) {
            assert forall|k: int|
                0 <= k < spec_select_valid(lines).len() implies spec_valid_url(
                #[trigger] spec_select_valid(lines)[k],
            ) by {
                if k > 0 {
                    assert(spec_select_valid(lines)[k] == spec_select_valid(lines.skip(1))[k - 1]);
                }
            }
        }
    }
}

/// The positions of the URL-shaped members of `lines`, in increasing order.
pub open spec fn spec_valid_indices(lines: Seq<Seq<char>>) -> Seq<int>
    decreases lines.len(),
{
    if lines.len() == 0 {
        Seq::empty()
    } else {
        let rest = spec_valid_indices(lines.skip(1)).map_values(|i: int| i + 1);
        if spec_valid_url(lines[0]) {
            seq![0int] + rest
        } else {
            rest
        }
    }
}

/// Law: selection preserves the input's relative order — the selected lines
/// are exactly the lines at the URL-shaped positions, read off in strictly
/// increasing position order.
pub proof fn lemma_select_valid_order(lines: Seq<Seq<char>>)
    ensures
        spec_valid_indices(lines).len() == spec_select_valid(lines).len(),
        forall|k: int|
            0 <= k < spec_valid_indices(lines).len() ==> 0 <= #[trigger] spec_valid_indices(
                lines,
            )[k] < lines.len(),
        forall|k: int|
            0 <= k < spec_valid_indices(lines).len() ==> spec_select_valid(lines)[k] == lines[
                #[trigger] spec_valid_indices(lines)[k]
            ],
        forall|k: int|
            0 < k < spec_valid_indices(lines).len() ==> spec_valid_indices(lines)[k - 1]
                < #[trigger] spec_valid_indices(lines)[k],
    decreases lines.len(),
{
    if lines.len() == 0 {
    } else {
        lemma_select_valid_order(lines.skip(1));
        let tail_indices = spec_valid_indices(lines.skip(1));
        let rest = tail_indices.map_values(|i: int| i + 1);
        let shift: int = if spec_valid_url(lines[0]) {
            1int
        } else {
            0int
        };
        assert forall|k: int|
            0 <= k < spec_valid_indices(lines).len() implies {
            &&& 0 <= spec_valid_indices(lines)[k] < lines.len()
            &&& spec_select_valid(lines)[k] == lines[spec_valid_indices(lines)[k]]
            &&& (k > 0 ==> spec_valid_indices(lines)[k - 1] < spec_valid_indices(lines)[k])
        } by {
            if k >= shift {
                assert(spec_valid_indices(lines)[k] == tail_indices[k - shift] + 1);
                assert(spec_select_valid(lines)[k] == spec_select_valid(lines.skip(1))[k - shift]);
                assert(lines.skip(1)[tail_indices[k - shift]] == lines[tail_indices[k - shift]
                    + 1]);
                if k > shift {
                    assert(spec_valid_indices(lines)[k - 1] == tail_indices[k - 1 - shift] + 1);
                }
            }
        }
    }
}

/// Splits `text` into lines on the newline character. Every line of the
/// input is returned, in order; a trailing newline yields a final empty
/// line, which the validator later rejects.
pub fn split_lines(text: &str) -> (r: Vec<String>)
    ensures
        spec_views(r@) == spec_split_lines(text@),
{
    let n = text.unicode_len();
    let mut r: Vec<String> = Vec::new();
    let mut start: usize = 0;
    let mut cur: usize = 0;
    while cur < n
        invariant
            start <= cur <= n,
            n == text@.len(),
            spec_split_lines(text@) == spec_views(r@) + spec_split_from(
                text@,
                start as int,
                cur as int,
            ),
        decreases n - cur,
    {
        let c = text.get_char(cur);
        if c == '\n' {
            let line = String::from_str(text.substring_char(start, cur));
            let ghost rv = spec_views(r@);
            r.push(line);
            proof {
                assert(spec_views(r@) =~= rv.push(text@.subrange(start as int, cur as int)));
                assert(rv + (seq![text@.subrange(start as int, cur as int)] + spec_split_from(
                    text@,
                    cur as int + 1,
                    cur as int + 1,
                )) =~= spec_views(r@) + spec_split_from(text@, cur as int + 1, cur as int + 1));
            }
            start = cur + 1;
            cur = cur + 1;
        } else {
            cur = cur + 1;
        }
    }
    let last = String::from_str(text.substring_char(start, n));
    let ghost rv = spec_views(r@);
    r.push(last);
    proof {
        assert(spec_split_from(text@, start as int, cur as int) == seq![
            text@.subrange(start as int, n as int),
        ]);
        assert(spec_views(r@) =~= rv.push(text@.subrange(start as int, n as int)));
        assert(rv + seq![text@.subrange(start as int, n as int)] =~= spec_views(r@));
    }
    r
}

/// Keeps the URL-shaped members of `lines`, in their original order; the
/// others are dropped silently.
pub fn select_valid_urls(lines: &Vec<String>) -> (r: Vec<String>)
    ensures
        spec_views(r@) == spec_select_valid(spec_views(lines@)),
{
    let mut r: Vec<String> = Vec::new();
    let mut i: usize = 0;
    proof {
        assert(spec_views(lines@).skip(0) =~= spec_views(lines@));
        assert(spec_views(r@) =~= Seq::<Seq<char>>::empty());
        assert(Seq::<Seq<char>>::empty() + spec_select_valid(spec_views(lines@)) =~= spec_select_valid(spec_views(lines@)));
    }
    while i < lines.len()
        invariant
            i <= lines.len(),
            spec_select_valid(spec_views(lines@)) == spec_views(r@) + spec_select_valid(
                spec_views(lines@).skip(i as int),
            ),
        decreases lines.len() - i,
    {
        let ghost suffix = spec_views(lines@).skip(i as int);
        proof {
            assert(suffix[0] == lines@[i as int]@);
            assert(suffix.skip(1) =~= spec_views(lines@).skip(i as int + 1));
        }
        let valid = is_valid_url(lines[i].as_str());
        if valid {
            let copy = String::from_str(lines[i].as_str());
            let ghost rv = spec_views(r@);
            r.push(copy);
            proof {
                assert(spec_views(r@) =~= rv.push(suffix[0]));
                assert(rv + (seq![suffix[0]] + spec_select_valid(suffix.skip(1))) =~= spec_views(
                    r@,
                ) + spec_select_valid(suffix.skip(1)));
            }
        }
        i = i + 1;
    }
    proof {
        assert(spec_views(lines@).skip(lines@.len() as int) =~= Seq::<Seq<char>>::empty());
        assert(spec_views(r@) + Seq::<Seq<char>>::empty() =~= spec_views(r@));
    }
    r
}

/// The URL-shaped lines of `text`, in their original order: the composition
/// of splitting and selecting. The surrounding program issues exactly one
/// request per returned element, in order.
pub fn valid_urls_of_text(text: &str) -> (r: Vec<String>)
    ensures
        spec_views(r@) == spec_select_valid(spec_split_lines(text@)),
{
    let lines = split_lines(text);
    select_valid_urls(&lines)
}

/// The two counters accumulated across a run.
pub struct RunSummary {
    /// How many outcomes were successes: their lines went to the output sink.
    pub succeeded: u64,
    /// How many outcomes were failures: counted, never written.
    pub failed: u64,
}

impl RunSummary {
    /// A fresh summary: nothing succeeded, nothing failed.
    pub fn new() -> (r: RunSummary)
        ensures
            r.succeeded == 0,
            r.failed == 0,
    {
        RunSummary { succeeded: 0, failed: 0 }
    }

    /// Records one outcome: a success bumps the success counter and hands
    /// back its message for the output sink; a failure bumps the failure
    /// counter and hands back nothing, so the reason is dropped and the URL
    /// never reaches the output.
    pub fn record(&mut self, outcome: Result<String, String>) -> (line: Option<String>)
        requires
            old(self).succeeded < u64::MAX,
            old(self).failed < u64::MAX,
        ensures
            final(self).succeeded == old(self).succeeded + (if outcome is Ok {
                1int
            } else {
                0int
            }),
            final(self).failed == old(self).failed + (if outcome is Ok {
                0int
            } else {
                1int
            }),
            match outcome {
                Ok(message) => line == Some(message),
                Err(_) => line is None,
            },
    {
        match outcome {
            Ok(message) => {
                self.succeeded = self.succeeded + 1;
                Some(message)
            },
            Err(_) => {
                self.failed = self.failed + 1;
                None
            },
        }
    }
}

/// The counters left by recording every outcome of `outcomes` in turn,
/// starting from `succeeded` successes and `failed` failures: the fold that
/// repeated `RunSummary::record` calls perform.
pub open spec fn spec_run_tally(succeeded: nat, failed: nat, outcomes: Seq<Result<String, String>>) -> (
    nat,
    nat,
)
    decreases outcomes.len(),
{
    if outcomes.len() == 0 {
        (succeeded, failed)
    } else if outcomes[0] is Ok {
        spec_run_tally(succeeded + 1, failed, outcomes.skip(1))
    } else {
        spec_run_tally(succeeded, failed + 1, outcomes.skip(1))
    }
}

/// How many of `outcomes` are successes.
pub open spec fn spec_ok_count(outcomes: Seq<Result<String, String>>) -> nat
    decreases outcomes.len(),
{
    if outcomes.len() == 0 {
        0nat
    } else {
        (if outcomes[0] is Ok {
            1nat
        } else {
            0nat
        }) + spec_ok_count(outcomes.skip(1))
    }
}

/// Law: across any run, the success counter grows by exactly the number of
/// success outcomes and the failure counter by exactly the number of failure
/// outcomes, so together the two counters account for every outcome.
pub proof fn lemma_run_tally_counts(
    succeeded: nat,
    failed: nat,
    outcomes: Seq<Result<String, String>>,
)
    ensures
        spec_ok_count(outcomes) <= outcomes.len(),
        spec_run_tally(succeeded, failed, outcomes).0 == succeeded + spec_ok_count(outcomes),
        spec_run_tally(succeeded, failed, outcomes).1 == failed + outcomes.len() - spec_ok_count(
            outcomes,
        ),
    decreases outcomes.len(),
{
    if outcomes.len() == 0 {
    } else if outcomes[0] is Ok {
        lemma_run_tally_counts(succeeded + 1, failed, outcomes.skip(1));
    } else {
        lemma_run_tally_counts(succeeded, failed + 1, outcomes.skip(1));
    }
}

/// One line of the output file: the annotated message, a single trailing
/// space, and the newline.
pub open spec fn spec_output_line(message: Seq<char>) -> Seq<char> {
    message + " \n"@
}

/// Renders one successful message as the line appended to the output file.
pub fn render_output_line(message: &str) -> (r: String)
    ensures
        r@ == spec_output_line(message@),
{
    String::from_str(message).concat(" \n")
}

/// What one invocation is asked to do: check a single target URL, clean a
/// whole file, or — when neither was supplied — nothing.
pub enum RunMode {
    /// Check exactly one URL and print its outcome to the terminal.
    Target(String),
    /// Clean the file at this path and append results to the output file.
    InputFile(String),
    /// Neither a target nor a file was supplied: report and do no work.
    Nothing,
}

/// Chooses the run mode from the two optional command-line values: a target
/// wins, then a file; with neither, no work is done.
pub fn choose_mode(target: Option<String>, file: Option<String>) -> (m: RunMode)
    ensures
        match target {
            Some(t) => m == RunMode::Target(t),
            None => match file {
                Some(f) => m == RunMode::InputFile(f),
                None => m == RunMode::Nothing,
            },
        },
{
    match target {
        Some(t) => RunMode::Target(t),
        None => match file {
            Some(f) => RunMode::InputFile(f),
            None => RunMode::Nothing,
        },
    }
}

/// The report printed when neither a target nor a file was supplied.
pub fn no_input_message() -> (r: String)
    ensures
        r@ == "No target or file provided"@,
{
    String::from_str("No target or file provided")
}

/// The default path of the output file.
pub fn default_output_path() -> (r: String)
    ensures
        r@ == "correct_urls_output.txt"@,
{
    String::from_str("correct_urls_output.txt")
}

} // verus!
