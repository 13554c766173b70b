use eradicate::answer::{confirms, is_confirmation};
use eradicate::config::Eradicate;
use eradicate::matcher::{find_entries, keep_readable, match_options, EradicateError, MatchOptions};
use eradicate::session::{delete_paths, select_mode, Action, Event, Mode, Outcome, Phase, Session};
use std::path::PathBuf;

fn config(pattern: &str, interactive: bool, force: bool, ignore_case: bool) -> Eradicate {
    Eradicate {
        pattern: pattern.to_string(),
        interactive,
        ignore_case,
        force,
        verbose: false,
    }
}

#[test]
fn confirmation_accepts_y_and_yes() {
    assert!(is_confirmation("y"));
    assert!(is_confirmation("yes"));
    assert!(is_confirmation("y\n"));
    assert!(is_confirmation("yes\n"));
}

#[test]
fn confirmation_trims_and_lowercases() {
    assert!(is_confirmation("Y\n"));
    assert!(is_confirmation("  YES \n"));
    assert!(is_confirmation("\tYeS\r\n"));
}

#[test]
fn confirmation_declines_everything_else() {
    assert!(!is_confirmation(""));
    assert!(!is_confirmation("\n"));
    assert!(!is_confirmation("n\n"));
    assert!(!is_confirmation("no"));
    assert!(!is_confirmation("ye"));
    assert!(!is_confirmation("yess"));
    assert!(!is_confirmation("y es"));
    assert!(!is_confirmation("sure"));
}

#[test]
fn confirms_takes_exact_answers() {
    assert!(confirms("y"));
    assert!(confirms("yes"));
    assert!(!confirms("Y"));
    assert!(!confirms(" y"));
    assert!(!confirms(""));
    assert!(!confirms("yea"));
}

#[test]
fn mode_priority() {
    assert_eq!(select_mode(true, true), Mode::Force);
    assert_eq!(select_mode(true, false), Mode::Force);
    assert_eq!(select_mode(false, true), Mode::Interactive);
    assert_eq!(select_mode(false, false), Mode::BatchConfirm);
    assert_eq!(config("*", true, true, false).mode(), Mode::Force);
    assert_eq!(config("*", true, false, false).mode(), Mode::Interactive);
    assert_eq!(config("*", false, false, false).mode(), Mode::BatchConfirm);
}

#[test]
fn case_sensitivity_follows_ignore_case() {
    assert_eq!(match_options(false), MatchOptions { case_sensitive: true });
    assert_eq!(match_options(true), MatchOptions { case_sensitive: false });
    assert!(config("*", false, false, false).match_options().case_sensitive);
    assert!(!config("*", false, false, true).match_options().case_sensitive);
}

#[test]
fn delete_paths_decisions() {
    assert_eq!(delete_paths(3, 0, true), Action::Delete(1));
    assert_eq!(delete_paths(3, 1, true), Action::Delete(2));
    assert_eq!(delete_paths(3, 2, true), Action::Finish(Outcome::Completed));
    assert_eq!(delete_paths(3, 1, false), Action::Finish(Outcome::Aborted(1)));
    assert_eq!(delete_paths(1, 0, false), Action::Finish(Outcome::Aborted(0)));
}

#[test]
fn force_two_entries_both_deleted() {
    let mut s = config("*.tmp", false, true, false).session(2);
    assert_eq!(s.step(Event::Begin), Action::Delete(0));
    assert_eq!(s.step(Event::Deleted(true)), Action::Delete(1));
    assert_eq!(s.step(Event::Deleted(true)), Action::Finish(Outcome::Completed));
    assert_eq!(s.deleted, vec![0, 1]);
    assert_eq!(s.prompts, 0);
    assert_eq!(s.phase, Phase::Finished(Outcome::Completed));
}

#[test]
fn force_stops_at_first_failure() {
    let mut s = Session::new(Mode::Force, 4);
    assert_eq!(s.step(Event::Begin), Action::Delete(0));
    assert_eq!(s.step(Event::Deleted(true)), Action::Delete(1));
    assert_eq!(s.step(Event::Deleted(false)), Action::Finish(Outcome::Aborted(1)));
    assert_eq!(s.step(Event::Deleted(true)), Action::Wait);
    assert_eq!(s.step(Event::Answer(true)), Action::Wait);
    assert_eq!(s.deleted, vec![0]);
    assert_eq!(s.prompts, 0);
}

#[test]
fn interactive_single_entry_declined() {
    let mut s = config("*.tmp", true, false, false).session(1);
    assert_eq!(s.step(Event::Begin), Action::AskEntry(0));
    let yes = is_confirmation("n\n");
    assert!(!yes);
    assert_eq!(s.step(Event::Answer(yes)), Action::Finish(Outcome::Completed));
    assert!(s.deleted.is_empty());
    assert_eq!(s.prompts, 1);
}

#[test]
fn interactive_asks_per_entry() {
    let mut s = Session::new(Mode::Interactive, 3);
    assert_eq!(s.step(Event::Begin), Action::AskEntry(0));
    assert_eq!(s.step(Event::Answer(true)), Action::Delete(0));
    assert_eq!(s.step(Event::Deleted(true)), Action::AskEntry(1));
    assert_eq!(s.step(Event::Answer(false)), Action::AskEntry(2));
    assert_eq!(s.step(Event::Answer(true)), Action::Delete(2));
    assert_eq!(s.step(Event::Deleted(true)), Action::Finish(Outcome::Completed));
    assert_eq!(s.deleted, vec![0, 2]);
    assert_eq!(s.prompts, 3);
}

#[test]
fn interactive_goes_on_after_failure() {
    let mut s = Session::new(Mode::Interactive, 2);
    assert_eq!(s.step(Event::Begin), Action::AskEntry(0));
    assert_eq!(s.step(Event::Answer(true)), Action::Delete(0));
    assert_eq!(s.step(Event::Deleted(false)), Action::AskEntry(1));
    assert_eq!(s.step(Event::Answer(true)), Action::Delete(1));
    assert_eq!(s.step(Event::Deleted(true)), Action::Finish(Outcome::Completed));
    assert_eq!(s.deleted, vec![1]);
    assert_eq!(s.prompts, 2);
}

#[test]
fn batch_declined_deletes_nothing() {
    let mut s = Session::new(Mode::BatchConfirm, 3);
    assert_eq!(s.step(Event::Begin), Action::AskAll);
    assert_eq!(s.step(Event::Answer(false)), Action::Finish(Outcome::Declined));
    assert_eq!(s.step(Event::Deleted(true)), Action::Wait);
    assert!(s.deleted.is_empty());
    assert_eq!(s.prompts, 1);
}

#[test]
fn batch_confirmed_deletes_all() {
    let mut s = Session::new(Mode::BatchConfirm, 3);
    assert_eq!(s.step(Event::Begin), Action::AskAll);
    assert_eq!(s.step(Event::Answer(true)), Action::Delete(0));
    assert_eq!(s.step(Event::Deleted(true)), Action::Delete(1));
    assert_eq!(s.step(Event::Deleted(true)), Action::Delete(2));
    assert_eq!(s.step(Event::Deleted(true)), Action::Finish(Outcome::Completed));
    assert_eq!(s.deleted, vec![0, 1, 2]);
    assert_eq!(s.prompts, 1);
}

#[test]
fn batch_confirmed_stops_at_failure() {
    let mut s = Session::new(Mode::BatchConfirm, 3);
    assert_eq!(s.step(Event::Begin), Action::AskAll);
    assert_eq!(s.step(Event::Answer(true)), Action::Delete(0));
    assert_eq!(s.step(Event::Deleted(false)), Action::Finish(Outcome::Aborted(0)));
    assert!(s.deleted.is_empty());
}

#[test]
fn no_matches_in_every_mode() {
    for mode in [Mode::Force, Mode::Interactive, Mode::BatchConfirm] {
        let mut s = Session::new(mode, 0);
        assert_eq!(s.step(Event::Begin), Action::Finish(Outcome::NoMatches));
        assert_eq!(s.step(Event::Answer(true)), Action::Wait);
        assert_eq!(s.step(Event::Deleted(true)), Action::Wait);
        assert_eq!(s.prompts, 0);
        assert!(s.deleted.is_empty());
    }
}

#[test]
fn events_out_of_turn_are_ignored() {
    let mut s = Session::new(Mode::Interactive, 2);
    assert_eq!(s.step(Event::Answer(true)), Action::Wait);
    assert_eq!(s.step(Event::Deleted(true)), Action::Wait);
    assert_eq!(s.phase, Phase::Ready);
    assert_eq!(s.step(Event::Begin), Action::AskEntry(0));
    assert_eq!(s.step(Event::Begin), Action::Wait);
    assert_eq!(s.step(Event::Deleted(true)), Action::Wait);
    assert_eq!(s.prompts, 1);
    assert!(s.deleted.is_empty());
}

#[test]
fn malformed_pattern_is_an_error() {
    assert!(matches!(find_entries("[", match_options(false)), Err(EradicateError::InvalidPattern(_))));
    assert!(matches!(find_entries("a/[/b", match_options(true)), Err(EradicateError::InvalidPattern(_))));
    assert!(config("***", false, false, false).find().is_err());
}

#[test]
fn pattern_matching_nothing_is_empty() {
    let found = find_entries("no_such_entry_here_*.tmp", match_options(false)).unwrap();
    assert!(found.is_empty());
}

#[test]
fn ignore_case_matches_other_letter_case() {
    let passwd = PathBuf::from("/etc/passwd");
    let insensitive = find_entries("/E?C/PASSW?", match_options(true)).unwrap();
    assert_eq!(insensitive, vec![passwd.clone()]);
    let sensitive = find_entries("/E?C/PASSW?", match_options(false)).unwrap();
    assert!(sensitive.is_empty());
    let exact = config("/e?c/passw?", false, false, false).find().unwrap();
    assert_eq!(exact, vec![passwd.clone()]);
    let folded = config("/E?C/PASSW?", false, false, true).find().unwrap();
    assert_eq!(folded, vec![passwd]);
}

#[test]
fn keep_readable_keeps_order() {
    let paths = vec![PathBuf::from("b"), PathBuf::from("a"), PathBuf::from("c")];
    let kept = keep_readable(paths.iter().cloned().map(Ok).collect());
    assert_eq!(kept, paths);
    assert!(keep_readable(Vec::new()).is_empty());
}

#[test]
fn repeated_reports_never_delete_twice() {
    let mut s = Session::new(Mode::Interactive, 2);
    assert_eq!(s.step(Event::Begin), Action::AskEntry(0));
    assert_eq!(s.step(Event::Answer(true)), Action::Delete(0));
    assert_eq!(s.step(Event::Deleted(true)), Action::AskEntry(1));
    assert_eq!(s.step(Event::Deleted(true)), Action::Wait);
    assert_eq!(s.step(Event::Answer(false)), Action::Finish(Outcome::Completed));
    assert_eq!(s.step(Event::Deleted(true)), Action::Wait);
    assert_eq!(s.deleted, vec![0]);
}
