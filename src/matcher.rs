//! Finding the entries that a glob pattern matches.

use std::path::PathBuf;
use vstd::prelude::*;

verus! {

/// `std::path::PathBuf`, carried through unopened.
#[verifier::external_type_specification]
#[verifier::external_body]
pub struct ExPathBuf(std::path::PathBuf);

/// `glob::PatternError`, the error for a malformed pattern, carried through
/// unopened.
#[verifier::external_type_specification]
#[verifier::external_body]
pub struct ExPatternError(glob::PatternError);

/// `glob::GlobError`, the error for a candidate that could not be read,
/// carried through unopened.
#[verifier::external_type_specification]
#[verifier::external_body]
pub struct ExGlobError(glob::GlobError);

/// Whether `glob::glob_with` refuses a pattern as malformed. This depends on
/// the pattern alone: the refusal comes before any directory is read.
pub uninterp spec fn glob_rejects(pattern: Seq<char>) -> bool;

/// How a pattern is compared with the names on disk.
#[derive(Clone, Copy, Debug, PartialEq, Eq, Structural)]
pub struct MatchOptions {
    /// Whether upper and lower case letters are told apart.
    pub case_sensitive: bool,
}

/// The options of a run: letter case counts unless `ignore_case` is set.
pub fn match_options(ignore_case: bool) -> (o: MatchOptions)
    ensures
        o.case_sensitive == !ignore_case,
{
    MatchOptions { case_sensitive: !ignore_case }
}

/// Why matching could not start.
#[derive(Debug)]
pub enum EradicateError {
    /// The pattern is not valid glob syntax.
    InvalidPattern(glob::PatternError),
}

/// Relies on `glob::glob_with`: an error exactly when the pattern (or one of
/// its path components) does not compile, else the walk over the matching
/// entries, collected here with one result per candidate in the order the
/// walk yields them.
#[verifier::external_body]
fn glob_all(pattern: &str, options: MatchOptions) -> (r: Result<Vec<Result<PathBuf, glob::GlobError>>, glob::PatternError>)
    ensures
        r is Err <==> glob_rejects(pattern@),
{
    let options = glob::MatchOptions {
        case_sensitive: options.case_sensitive,
        ..glob::MatchOptions::new()
    };
    match glob::glob_with(pattern, options) {
        Ok(paths) => Ok(paths.collect()),
        Err(e) => Err(e),
    }
}

/// The paths of the candidates that could be read, in their order.
pub open spec fn readable(results: Seq<Result<PathBuf, glob::GlobError>>) -> Seq<PathBuf>
    decreases results.len(),
{
    if results.len() == 0 {
        seq![]
    } else {
        let rest = readable(results.drop_first());
        match results[0] {
            Ok(p) => seq![p] + rest,
            Err(_) => rest,
        }
    }
}

/// Drop the candidates whose reading failed, keeping the others in order.
pub fn keep_readable(results: Vec<Result<PathBuf, glob::GlobError>>) -> (r: Vec<PathBuf>)
    ensures
        r@ == readable(results@),
{
    let ghost all = results@;
    let mut rest = results;
    let mut kept: Vec<PathBuf> = Vec::new();
    while rest.len() > 0
        invariant
            kept@ + readable(rest@) == readable(all),
        decreases rest.len(),
    {
        let ghost before = rest@;
        let first = rest.remove(0);
        assert(rest@ =~= before.drop_first());
        match first {
            Ok(p) => {
                let ghost tail = readable(rest@);
                kept.push(p);
                assert(kept@ + tail =~= kept@.drop_last() + (seq![p] + tail));
            },
            Err(_) => {},
        }
    }
    assert(kept@ + readable(rest@) =~= kept@);
    kept
}

/// The entries that `pattern` matches under `options`, which go to glob as
/// they are. Entries that could not be read while walking are left out; a
/// malformed pattern is an error, and the only one.
pub fn find_entries(pattern: &str, options: MatchOptions) -> (r: Result<Vec<PathBuf>, EradicateError>)
    ensures
        r is Err <==> glob_rejects(pattern@),
{
    match glob_all(pattern, options) {
        Ok(results) => Ok(keep_readable(results)),
        Err(e) => Err(EradicateError::InvalidPattern(e)),
    }
}

} // verus!
