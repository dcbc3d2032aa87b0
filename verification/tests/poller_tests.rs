use persia_core::poller::{dumping_poll_step, loading_poll_step, serving_poll_step, PollOutcome};
use persia_core::status::ShardStatus;

#[test]
fn serving_completes_only_on_ready() {
    assert_eq!(serving_poll_step(Some(true)), PollOutcome::Complete);
    assert_eq!(serving_poll_step(Some(false)), PollOutcome::Continue);
    assert_eq!(serving_poll_step(None), PollOutcome::Continue);
}

#[test]
fn loading_completes_on_ready_flag() {
    assert_eq!(loading_poll_step(Some(true), None), PollOutcome::Complete);
}

#[test]
fn loading_failure_in_statuses_is_fatal() {
    let statuses = vec![ShardStatus::Idle, ShardStatus::Failed(String::from("x"))];
    assert_eq!(
        loading_poll_step(Some(false), Some(statuses)),
        PollOutcome::Fatal(String::from("emb dump FAILED for server 1, due to x."))
    );
}

#[test]
fn loading_in_progress_continues() {
    let statuses = vec![ShardStatus::Loading(300), ShardStatus::Idle];
    assert_eq!(loading_poll_step(Some(false), Some(statuses)), PollOutcome::Continue);
}

#[test]
fn loading_query_failures_are_transient() {
    assert_eq!(loading_poll_step(None, None), PollOutcome::Continue);
    assert_eq!(loading_poll_step(Some(false), None), PollOutcome::Continue);
}

#[test]
fn dump_wait_fails_immediately_when_any_shard_loads() {
    let statuses = vec![
        ShardStatus::Idle,
        ShardStatus::Loading(10),
        ShardStatus::Failed(String::from("y")),
    ];
    assert_eq!(
        dumping_poll_step(Some(statuses)),
        PollOutcome::Fatal(String::from("emb status is loading but waiting for dump."))
    );
}

#[test]
fn dump_wait_loading_guard_holds_even_when_all_else_is_idle() {
    let statuses = vec![ShardStatus::Idle, ShardStatus::Idle, ShardStatus::Loading(990)];
    assert_eq!(
        dumping_poll_step(Some(statuses)),
        PollOutcome::Fatal(String::from("emb status is loading but waiting for dump."))
    );
}

#[test]
fn dump_wait_completes_when_all_idle() {
    let statuses = vec![ShardStatus::Idle, ShardStatus::Idle];
    assert_eq!(dumping_poll_step(Some(statuses)), PollOutcome::Complete);
}

#[test]
fn dump_wait_continues_while_dumping() {
    let statuses = vec![ShardStatus::Idle, ShardStatus::Dumping(400)];
    assert_eq!(dumping_poll_step(Some(statuses)), PollOutcome::Continue);
}

#[test]
fn dump_wait_failure_is_fatal() {
    let statuses = vec![ShardStatus::Idle, ShardStatus::Failed(String::from("z"))];
    assert_eq!(
        dumping_poll_step(Some(statuses)),
        PollOutcome::Fatal(String::from("emb dump FAILED for server 1, due to z."))
    );
}

#[test]
fn dump_wait_query_failure_is_transient() {
    assert_eq!(dumping_poll_step(None), PollOutcome::Continue);
}
