//! The streaming pipeline's decision logic: what one line turns into,
//! and the per-line fault isolation of a whole run.
//!
//! Reading and writing the underlying streams stays outside the library;
//! the functions here decide, for each line in arrival order, whether it
//! yields one JSON output line or one diagnostic, so that a caller's
//! read-parse-serialize-write loop is a plain fold over `process_line`.

use vstd::prelude::*;
use crate::json::{json_of, to_json_line};
use crate::parser::{LogFormat, ParseOutcome, parse_line, parse_line_spec};

verus! {

/// The diagnostic line for a format mismatch on `l`.
pub open spec fn mismatch_warning(l: Seq<char>) -> Seq<char> {
    "redeye: WARNING: "@ + "Invalid log line: "@ + l
}

/// The diagnostic line for an unparseable timestamp capture `t`.
pub open spec fn stamp_warning(t: Seq<char>) -> Seq<char> {
    "redeye: WARNING: "@ + "Invalid timestamp: "@ + t
}

/// The diagnostic line for a transport failure described by `m`.
pub open spec fn transport_warning(m: Seq<char>) -> Seq<char> {
    "redeye: WARNING: "@ + "I/O error: "@ + m
}

/// The diagnostic line for a serialization failure described by `m`.
pub open spec fn serialization_warning(m: Seq<char>) -> Seq<char> {
    "redeye: WARNING: "@ + "Serialization error: "@ + m
}

/// What the pipeline does with one line: write one JSON output line, or
/// skip the line and emit one diagnostic.
pub enum LineOutcome {
    Output(String),
    Skip(String),
}

/// Model of a per-line outcome.
#[verifier::ext_equal]
pub ghost enum LineOutcomeV {
    Output(Seq<char>),
    Skip(Seq<char>),
}

impl View for LineOutcome {
    type V = LineOutcomeV;

    open spec fn view(&self) -> LineOutcomeV {
        match self {
            LineOutcome::Output(s) => LineOutcomeV::Output(s@),
            LineOutcome::Skip(s) => LineOutcomeV::Skip(s@),
        }
    }
}

/// What one line denotes under the selected format: its JSON rendering
/// on success, one diagnostic on any per-line failure.
pub open spec fn line_outcome_spec(fmt: LogFormat, line: Seq<char>) -> LineOutcomeV {
    match parse_line_spec(fmt, line) {
        ParseOutcome::Event(ev) => LineOutcomeV::Output(json_of(ev)),
        ParseOutcome::Mismatch(l) => LineOutcomeV::Skip(mismatch_warning(l)),
        ParseOutcome::BadStamp(t) => LineOutcomeV::Skip(stamp_warning(t)),
        ParseOutcome::Transport(m) => LineOutcomeV::Skip(transport_warning(m)),
        ParseOutcome::Serialization(m) => LineOutcomeV::Skip(serialization_warning(m)),
    }
}

/// Decide one line: parse it and either render the event or build the
/// diagnostic for the failure. Never fails the run.
pub fn process_line(fmt: LogFormat, line: &str) -> (r: LineOutcome)
    ensures
        r@ == line_outcome_spec(fmt, line@),
{
    match parse_line(fmt, line) {
        Ok(ev) => LineOutcome::Output(to_json_line(&ev)),
        Err(e) => {
            let w = e.warning_line();
            proof {
                assert(w@ =~= match parse_line_spec(fmt, line@) {
                    ParseOutcome::Event(ev) => w@,
                    ParseOutcome::Mismatch(l) => mismatch_warning(l),
                    ParseOutcome::BadStamp(t) => stamp_warning(t),
                    ParseOutcome::Transport(m) => transport_warning(m),
                    ParseOutcome::Serialization(m) => serialization_warning(m),
                });
            }
            LineOutcome::Skip(w)
        },
    }
}

/// The JSON lines a run over `lines` writes, in input order: one per
/// line whose parse succeeds, none for a skipped line.
pub open spec fn output_lines(fmt: LogFormat, lines: Seq<Seq<char>>) -> Seq<Seq<char>>
    decreases lines.len(),
{
    if lines.len() == 0 {
        Seq::empty()
    } else {
        output_lines(fmt, lines.drop_last()) + (match line_outcome_spec(fmt, lines.last()) {
            LineOutcomeV::Output(j) => seq![j],
            LineOutcomeV::Skip(_) => Seq::empty(),
        })
    }
}

/// The diagnostics a run over `lines` emits, in input order: one per
/// line whose parse fails, none for an accepted line.
pub open spec fn warning_lines(fmt: LogFormat, lines: Seq<Seq<char>>) -> Seq<Seq<char>>
    decreases lines.len(),
{
    if lines.len() == 0 {
        Seq::empty()
    } else {
        warning_lines(fmt, lines.drop_last()) + (match line_outcome_spec(fmt, lines.last()) {
            LineOutcomeV::Output(_) => Seq::empty(),
            LineOutcomeV::Skip(w) => seq![w],
        })
    }
}

/// Fault isolation accounting: over any input, every line yields exactly
/// one output line or exactly one diagnostic, never both and never
/// neither — so with K failing lines among N, exactly N - K JSON lines
/// and exactly K diagnostics are produced.
pub proof fn lemma_line_accounting(fmt: LogFormat, lines: Seq<Seq<char>>)
    ensures
        output_lines(fmt, lines).len() + warning_lines(fmt, lines).len() == lines.len(),
    decreases lines.len(),
{
    if lines.len() > 0 {
        lemma_line_accounting(fmt, lines.drop_last());
    }
}

/// Drive a whole run over `lines`, strictly in order: returns the JSON
/// output lines and the diagnostics, each in input order.
pub fn run_lines(fmt: LogFormat, lines: &Vec<String>) -> (r: (Vec<String>, Vec<String>))
    ensures
        r.0.deep_view() == output_lines(fmt, lines.deep_view()),
        r.1.deep_view() == warning_lines(fmt, lines.deep_view()),
{
    let mut outs: Vec<String> = Vec::new();
    let mut warns: Vec<String> = Vec::new();
    proof {
        assert(outs.deep_view() =~= output_lines(fmt, lines.deep_view().take(0)));
        assert(warns.deep_view() =~= warning_lines(fmt, lines.deep_view().take(0)));
    }
    let n = lines.len();
    let mut i: usize = 0;
    while i < n
        invariant
            0 <= i <= n,
            n == lines.len(),
            outs.deep_view() == output_lines(fmt, lines.deep_view().take(i as int)),
            warns.deep_view() == warning_lines(fmt, lines.deep_view().take(i as int)),
        decreases n - i,
    {
        let ghost prefix = lines.deep_view().take(i as int);
        proof {
            assert(lines.deep_view().take(i + 1).drop_last() =~= prefix);
            assert(lines.deep_view().take(i + 1).last() == lines.deep_view()[i as int]);
            assert(lines.deep_view()[i as int] == lines@[i as int]@);
        }
        match process_line(fmt, lines[i].as_str()) {
            LineOutcome::Output(j) => {
                outs.push(j);
                proof {
                    assert(outs.deep_view() =~=
                        output_lines(fmt, lines.deep_view().take(i + 1)));
                    assert(warns.deep_view() =~=
                        warning_lines(fmt, lines.deep_view().take(i + 1)));
                }
            },
            LineOutcome::Skip(w) => {
                warns.push(w);
                proof {
                    assert(outs.deep_view() =~=
                        output_lines(fmt, lines.deep_view().take(i + 1)));
                    assert(warns.deep_view() =~=
                        warning_lines(fmt, lines.deep_view().take(i + 1)));
                }
            },
        }
        i = i + 1;
    }
    proof {
        assert(lines.deep_view().take(n as int) =~= lines.deep_view());
    }
    (outs, warns)
}

/// Pick the run's format from the two mutually exclusive selectors:
/// defined exactly when one of the two is supplied.
pub fn select_format(common_format: bool, combined_format: bool) -> (r: Option<LogFormat>)
    ensures
        r == (if common_format && !combined_format {
            Some(LogFormat::Common)
        } else if combined_format && !common_format {
            Some(LogFormat::Combined)
        } else {
            None::<LogFormat>
        }),
{
    if common_format && !combined_format {
        Some(LogFormat::Common)
    } else if combined_format && !common_format {
        Some(LogFormat::Combined)
    } else {
        None
    }
}

} // verus!
