//! Command-line validation and the interactive batch run: which mode the
//! flags select, whether a typed answer confirms a copy, and which keys of a
//! listing a sequence of answers selects.

use vstd::prelude::*;

use crate::strings::{lower_of, lowercase, str_eq, trim_ends, trimmed_of};

verus! {

/// The mode a run operates in: iterate over every setting of the source with
/// a per-item prompt, or copy the one named setting.
#[derive(Debug, Clone, PartialEq)]
pub enum RunMode {
    All,
    Single { key: String },
}

/// Invalid flag combinations; either aborts the run before any network call.
#[derive(Debug, Clone, Copy, PartialEq, Eq)]
pub enum CliError {
    BothAllAndKey,
    NeitherAllNorKey,
}

/// Decides the run mode from the two selection flags: `all` and `key` are
/// mutually exclusive, and at least one of them must be given.
pub fn select_mode(all: bool, key: Option<String>) -> (r: Result<RunMode, CliError>)
    ensures
        match r {
            Ok(RunMode::All) => all && key is None,
            Ok(RunMode::Single { key: k }) => !all && key == Some(k),
            Err(CliError::BothAllAndKey) => all && key is Some,
            Err(CliError::NeitherAllNorKey) => !all && key is None,
        },
{
    if all {
        match key {
            Some(_) => Err(CliError::BothAllAndKey),
            None => Ok(RunMode::All),
        }
    } else {
        match key {
            Some(k) => Ok(RunMode::Single { key: k }),
            None => Err(CliError::NeitherAllNorKey),
        }
    }
}

/// Whether an answer confirms a copy: yes exactly when the answer,
/// lower-cased and trimmed of surrounding whitespace, is the single letter
/// `y`.
pub open spec fn accepted(answer: Seq<char>) -> bool {
    trimmed_of(lower_of(answer)) == "y"@
}

/// Reads one typed confirmation: lower-cases it, trims surrounding
/// whitespace, and accepts exactly the remaining text `y`.
pub fn confirm_accepts(answer: &str) -> (r: bool)
    ensures
        r == accepted(answer@),
{
    let low = lowercase(answer);
    let trimmed = trim_ends(low.as_str());
    str_eq(trimmed, "y")
}

/// The keys a batch run copies: of the keys listed by the source, those whose
/// answer confirms, kept in listing order.
pub open spec fn selected_model(keys: Seq<Seq<char>>, answers: Seq<Seq<char>>) -> Seq<Seq<char>>
    recommends
        keys.len() == answers.len(),
    decreases keys.len(),
{
    if keys.len() == 0 || answers.len() == 0 {
        Seq::empty()
    } else {
        let init = selected_model(keys.drop_last(), answers.drop_last());
        if accepted(answers.last()) {
            init.push(keys.last())
        } else {
            init
        }
    }
}

/// Selects the keys whose answers confirm, in listing order: the `i`-th
/// answer decides the `i`-th key, and the kept keys stay in the order the
/// source listed them.
pub fn selected_keys(keys: &Vec<String>, answers: &Vec<String>) -> (r: Vec<String>)
    requires
        keys@.len() == answers@.len(),
    ensures
        r.deep_view() == selected_model(keys.deep_view(), answers.deep_view()),
{
    let ghost gkeys: Seq<Seq<char>> = keys.deep_view();
    let ghost ganswers: Seq<Seq<char>> = answers.deep_view();
    let mut out: Vec<String> = Vec::new();
    let n: usize = keys.len();
    for i in 0..n
        invariant
            n == keys@.len(),
            keys@.len() == answers@.len(),
            gkeys == keys.deep_view(),
            ganswers == answers.deep_view(),
            out.deep_view() == selected_model(gkeys.take(i as int), ganswers.take(i as int)),
    {
        proof {
            assert(gkeys.take(i + 1).drop_last() =~= gkeys.take(i as int));
            assert(ganswers.take(i + 1).drop_last() =~= ganswers.take(i as int));
            assert(gkeys.take(i + 1).last() == gkeys[i as int]);
            assert(ganswers.take(i + 1).last() == ganswers[i as int]);
        }
        if confirm_accepts(answers[i].as_str()) {
            out.push(keys[i].clone());
        }
        proof {
            assert(out.deep_view() =~= selected_model(gkeys.take(i + 1), ganswers.take(i + 1)));
        }
    }
    proof {
        assert(gkeys.take(n as int) =~= gkeys);
        assert(ganswers.take(n as int) =~= ganswers);
    }
    out
}

} // verus!
