//! What one invocation asks for.

use std::path::PathBuf;
use vstd::prelude::*;
use crate::matcher::{find_entries, glob_rejects, match_options, EradicateError, MatchOptions};
use crate::session::{initial, mode_of, select_mode, Mode, Session};

verus! {

/// Eradicate files/directories with patterns and no mercy.
pub struct Eradicate {
    /// The glob pattern of the entries to delete.
    pub pattern: String,
    /// Ask about each entry before deleting it.
    pub interactive: bool,
    /// Compare letters without regard to case while matching.
    pub ignore_case: bool,
    /// Delete without asking; wins over `interactive`.
    pub force: bool,
    /// List the matched entries and announce each deletion.
    pub verbose: bool,
}

impl Eradicate {
    /// The mode of the run: force, else interactive, else one question for
    /// all entries.
    pub fn mode(&self) -> (m: Mode)
        ensures
            m == mode_of(self.force, self.interactive),
    {
        select_mode(self.force, self.interactive)
    }

    /// The options for matching: letter case counts unless `ignore_case`.
    pub fn match_options(&self) -> (o: MatchOptions)
        ensures
            o.case_sensitive == !self.ignore_case,
    {
        match_options(self.ignore_case)
    }

    /// The entries that the pattern matches, as `find_entries` finds them
    /// with this invocation's `match_options`.
    pub fn find(&self) -> (r: Result<Vec<PathBuf>, EradicateError>)
        ensures
            r is Err <==> glob_rejects(self.pattern@),
    {
        let options = self.match_options();
        find_entries(self.pattern.as_str(), options)
    }

    /// A session over `total` matched entries in this invocation's mode.
    pub fn session(&self, total: usize) -> (s: Session)
        ensures
            s@ == initial(mode_of(self.force, self.interactive), total as nat),
            s.wf(),
    {
        Session::new(self.mode(), total)
    }
}

} // verus!
