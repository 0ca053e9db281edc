use brim::progress::ProgressState;
use brim::runner::{
    autoremove_args, command_args, estimate_percent, finish_update, is_success, line_update,
    poll_action, poll_limit, start_update, OperationKind, PollAction, RunEnd, Step, StopReason,
};

#[test]
fn percent_from_number_before_sign() {
    assert_eq!(estimate_percent("Downloading 45%"), 45);
    assert_eq!(estimate_percent("[#####     ] 7% done 80%"), 7);
    assert_eq!(estimate_percent("100%"), 100);
    assert_eq!(estimate_percent("0%"), 0);
}

#[test]
fn percent_is_clamped_to_hundred() {
    assert_eq!(estimate_percent("250%"), 100);
    assert_eq!(estimate_percent("progress 99999999999999999999999999%"), 100);
    assert_eq!(estimate_percent("101%"), 100);
}

#[test]
fn percent_sign_without_digit_falls_back_to_keywords() {
    assert_eq!(estimate_percent("% installing"), 60);
    assert_eq!(estimate_percent("abc %"), 50);
}

#[test]
fn percent_keywords_in_priority_order() {
    assert_eq!(estimate_percent("==> Fetching wget"), 10);
    assert_eq!(estimate_percent("==> Downloading https://x"), 30);
    assert_eq!(estimate_percent("==> Installing wget"), 60);
    assert_eq!(estimate_percent("==> Pouring wget.bottle.tar.gz"), 80);
    assert_eq!(estimate_percent("Complete"), 100);
    assert_eq!(estimate_percent("fetch then install"), 10);
    assert_eq!(estimate_percent("something else"), 50);
    assert_eq!(estimate_percent(""), 50);
}

#[test]
fn line_update_sets_message_and_percent() {
    let u = line_update("==> Pouring jq", true);
    assert_eq!(u.state, None);
    assert_eq!(u.percent, Some(80));
    assert_eq!(u.message.as_deref(), Some("==> Pouring jq"));
}

#[test]
fn line_update_from_stderr_keeps_percent() {
    let u = line_update("Warning: 50%", false);
    assert_eq!(u.percent, None);
    assert_eq!(u.message.as_deref(), Some("Warning: 50%"));
}

#[test]
fn line_update_skips_empty_and_long_lines() {
    assert_eq!(line_update("", true).message, None);
    let long = "x".repeat(60);
    assert_eq!(line_update(&long, true).message, None);
    let short = "x".repeat(59);
    assert_eq!(line_update(&short, true).message.as_deref(), Some(short.as_str()));
}

#[test]
fn command_arguments() {
    let name = "wget".to_string();
    assert_eq!(command_args(Step::Install, &name, false), vec!["install", "wget"]);
    assert_eq!(command_args(Step::Install, &name, true), vec!["install", "--cask", "wget"]);
    assert_eq!(command_args(Step::Fetch, &name, true), vec!["fetch", "--cask", "wget"]);
    assert_eq!(command_args(Step::Fetch, &name, false), vec!["fetch", "wget"]);
    assert_eq!(command_args(Step::Remove, &name, true), vec!["remove", "-f", "wget"]);
    assert_eq!(autoremove_args(), vec!["autoremove"]);
}

#[test]
fn step_for_kind() {
    assert_eq!(Step::for_kind(OperationKind::Install), Step::Install);
    assert_eq!(Step::for_kind(OperationKind::Remove), Step::Remove);
}

#[test]
fn poll_limits_per_step() {
    assert_eq!(poll_limit(Step::Remove), 1200);
    assert_eq!(poll_limit(Step::Install), 1800);
    assert_eq!(poll_limit(Step::Fetch), 1200);
}

#[test]
fn poll_decisions() {
    assert_eq!(poll_action(None, false, 3, 10), PollAction::Wait);
    assert_eq!(poll_action(None, false, 10, 10), PollAction::Wait);
    assert_eq!(poll_action(None, false, 11, 10), PollAction::Kill(StopReason::TimedOut));
    assert_eq!(poll_action(None, true, 0, 10), PollAction::Kill(StopReason::Cancelled));
    assert_eq!(poll_action(None, true, 11, 10), PollAction::Kill(StopReason::Cancelled));
    assert_eq!(poll_action(Some(true), true, 11, 10), PollAction::Finish(true));
    assert_eq!(poll_action(Some(false), false, 0, 10), PollAction::Finish(false));
}

#[test]
fn start_updates() {
    let u = start_update(Step::Fetch);
    assert_eq!(u.state, Some(ProgressState::Downloading));
    assert_eq!(u.percent, Some(0));
    assert_eq!(u.message.as_deref(), Some("Fetching..."));
    assert_eq!(start_update(Step::Install).state, Some(ProgressState::Installing));
    assert_eq!(start_update(Step::Remove).state, Some(ProgressState::Removing));
    assert_eq!(start_update(Step::Remove).message.as_deref(), Some("Removing..."));
}

#[test]
fn finish_updates() {
    let ok = finish_update(Step::Install, RunEnd::Exited(true));
    assert_eq!(ok.state, Some(ProgressState::Completed));
    assert_eq!(ok.percent, Some(100));
    assert_eq!(ok.message.as_deref(), Some("Done"));

    let bad = finish_update(Step::Remove, RunEnd::Exited(false));
    assert_eq!(bad.state, Some(ProgressState::Failed));
    assert_eq!(bad.percent, Some(0));
    assert_eq!(bad.message.as_deref(), Some("remove failed"));

    let spawn = finish_update(Step::Fetch, RunEnd::SpawnFailed("No such file or directory".to_string()));
    assert_eq!(spawn.state, Some(ProgressState::Failed));
    assert_eq!(spawn.message.as_deref(), Some("No such file or directory"));

    let cancelled = finish_update(Step::Install, RunEnd::Stopped(StopReason::Cancelled));
    assert_eq!(cancelled.message.as_deref(), Some("cancelled"));
    let timed_out = finish_update(Step::Install, RunEnd::Stopped(StopReason::TimedOut));
    assert_eq!(timed_out.message.as_deref(), Some("timed out"));
    assert_eq!(timed_out.state, Some(ProgressState::Failed));
}

#[test]
fn only_a_clean_exit_succeeds() {
    assert!(is_success(&RunEnd::Exited(true)));
    assert!(!is_success(&RunEnd::Exited(false)));
    assert!(!is_success(&RunEnd::Stopped(StopReason::TimedOut)));
    assert!(!is_success(&RunEnd::SpawnFailed("x".to_string())));
}
