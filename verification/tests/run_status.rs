use openai_rst::run::RunStatus;

fn all_statuses() -> Vec<RunStatus> {
    vec![
        RunStatus::Queued,
        RunStatus::InProgress,
        RunStatus::RequiresAction,
        RunStatus::Cancelling,
        RunStatus::Cancelled,
        RunStatus::Failed,
        RunStatus::Completed,
        RunStatus::Expired,
    ]
}

#[test]
fn status_names_on_the_wire() {
    assert_eq!(RunStatus::Queued.as_str(), "queued");
    assert_eq!(RunStatus::InProgress.as_str(), "in_progress");
    assert_eq!(RunStatus::RequiresAction.as_str(), "requires_action");
    assert_eq!(RunStatus::Cancelling.as_str(), "cancelling");
    assert_eq!(RunStatus::Cancelled.as_str(), "cancelled");
    assert_eq!(RunStatus::Failed.as_str(), "failed");
    assert_eq!(RunStatus::Completed.as_str(), "completed");
    assert_eq!(RunStatus::Expired.as_str(), "expired");
}

#[test]
fn status_names_are_read_back() {
    for status in all_statuses() {
        assert_eq!(RunStatus::from_str(status.as_str()), Some(status));
    }
}

#[test]
fn unknown_status_names_are_refused() {
    assert_eq!(RunStatus::from_str("paused"), None);
    assert_eq!(RunStatus::from_str(""), None);
    assert_eq!(RunStatus::from_str("Queued"), None);
    assert_eq!(RunStatus::from_str("queued "), None);
}

#[test]
fn terminal_statuses_are_the_four_endings() {
    let terminal: Vec<RunStatus> =
        all_statuses().into_iter().filter(|s| s.is_terminal()).collect();
    assert_eq!(
        terminal,
        vec![
            RunStatus::Cancelled,
            RunStatus::Failed,
            RunStatus::Completed,
            RunStatus::Expired
        ]
    );
}

#[test]
fn settled_statuses_are_terminal_or_require_action() {
    for status in all_statuses() {
        let expected = status.is_terminal() || status == RunStatus::RequiresAction;
        assert_eq!(status.is_settled(), expected, "{:?}", status);
    }
    assert!(RunStatus::RequiresAction.is_settled());
    assert!(!RunStatus::RequiresAction.is_terminal());
    assert!(!RunStatus::Cancelling.is_settled());
}

#[test]
fn stages_of_the_statuses() {
    assert_eq!(RunStatus::Queued.stage_number(), 0);
    assert_eq!(RunStatus::InProgress.stage_number(), 1);
    assert_eq!(RunStatus::RequiresAction.stage_number(), 1);
    assert_eq!(RunStatus::Cancelling.stage_number(), 2);
    assert_eq!(RunStatus::Cancelled.stage_number(), 3);
    assert_eq!(RunStatus::Failed.stage_number(), 3);
    assert_eq!(RunStatus::Completed.stage_number(), 3);
    assert_eq!(RunStatus::Expired.stage_number(), 3);
}

#[test]
fn a_terminal_status_is_only_followed_by_itself() {
    for earlier in all_statuses().into_iter().filter(|s| s.is_terminal()) {
        for later in all_statuses() {
            assert_eq!(earlier.can_be_followed_by(later), earlier == later);
        }
    }
}

#[test]
fn the_status_only_moves_forward() {
    assert!(RunStatus::Queued.can_be_followed_by(RunStatus::InProgress));
    assert!(RunStatus::Queued.can_be_followed_by(RunStatus::Completed));
    assert!(RunStatus::InProgress.can_be_followed_by(RunStatus::RequiresAction));
    assert!(RunStatus::RequiresAction.can_be_followed_by(RunStatus::InProgress));
    assert!(RunStatus::InProgress.can_be_followed_by(RunStatus::Cancelling));
    assert!(RunStatus::Cancelling.can_be_followed_by(RunStatus::Cancelled));
    assert!(!RunStatus::InProgress.can_be_followed_by(RunStatus::Queued));
    assert!(!RunStatus::Cancelling.can_be_followed_by(RunStatus::InProgress));
    assert!(!RunStatus::Completed.can_be_followed_by(RunStatus::Failed));
    for status in all_statuses() {
        assert!(status.can_be_followed_by(status));
    }
}

#[test]
fn a_history_that_ends_terminal_stays_there() {
    let history = vec![
        RunStatus::Queued,
        RunStatus::InProgress,
        RunStatus::Completed,
        RunStatus::Completed,
        RunStatus::Completed,
    ];
    for pair in history.windows(2) {
        assert!(pair[0].can_be_followed_by(pair[1]));
    }
    let broken = vec![RunStatus::Completed, RunStatus::InProgress];
    assert!(!broken[0].can_be_followed_by(broken[1]));
}
