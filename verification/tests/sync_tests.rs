use repo_sync::cycle::Event;
use repo_sync::sync::{pull_arguments, PullOutcome, PULL_PROGRAM};

#[test]
fn pull_runs_git_in_the_checkout() {
    assert_eq!(PULL_PROGRAM, "git");
    assert_eq!(
        pull_arguments("/srv/widgets"),
        vec![String::from("-C"), String::from("/srv/widgets"), String::from("pull")]
    );
}

#[test]
fn pull_arguments_keep_the_path_as_it_is() {
    let arguments = pull_arguments("a path/with spaces");
    assert_eq!(arguments.len(), 3);
    assert_eq!(arguments[1], "a path/with spaces");
}

#[test]
fn only_a_successful_exit_counts_as_success() {
    assert!(matches!(
        PullOutcome::Exited { success: true }.into_event(),
        Event::PullFinished(true)
    ));
    assert!(matches!(
        PullOutcome::Exited { success: false }.into_event(),
        Event::PullFinished(false)
    ));
    assert!(matches!(PullOutcome::NotRun.into_event(), Event::PullFinished(false)));
}
