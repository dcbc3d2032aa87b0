use persia_core::status::{reduce_statuses, shard_failure_message, ShardStatus};
use persia_core::text::{join_strings, usize_to_string};
use persia_core::{single_call_result, PersiaError};

#[test]
fn reducer_single_failure_reports_it() {
    let status = vec![
        ShardStatus::Idle,
        ShardStatus::Idle,
        ShardStatus::Failed(String::from("x")),
    ];
    let r = reduce_statuses(&status);
    let msg = r.unwrap_err();
    assert!(msg.contains("x"));
    assert_eq!(msg, "emb dump FAILED for server 2, due to x.");
}

#[test]
fn reducer_all_idle_counts_all() {
    let status = vec![ShardStatus::Idle, ShardStatus::Idle, ShardStatus::Idle];
    assert_eq!(reduce_statuses(&status), Ok(3));
}

#[test]
fn reducer_loading_is_not_idle_and_not_an_error() {
    let status = vec![ShardStatus::Idle, ShardStatus::Loading(500)];
    assert_eq!(reduce_statuses(&status), Ok(1));
}

#[test]
fn reducer_dumping_is_not_idle() {
    let status = vec![ShardStatus::Dumping(250), ShardStatus::Idle];
    assert_eq!(reduce_statuses(&status), Ok(1));
}

#[test]
fn reducer_empty_list_is_zero_idle() {
    let status: Vec<ShardStatus> = Vec::new();
    assert_eq!(reduce_statuses(&status), Ok(0));
}

#[test]
fn reducer_joins_all_failures_in_shard_order() {
    let status = vec![
        ShardStatus::Failed(String::from("a")),
        ShardStatus::Idle,
        ShardStatus::Failed(String::from("b")),
    ];
    let msg = reduce_statuses(&status).unwrap_err();
    assert_eq!(
        msg,
        "emb dump FAILED for server 0, due to a., emb dump FAILED for server 2, due to b."
    );
}

#[test]
fn reducer_failure_wins_over_progress() {
    let status = vec![ShardStatus::Loading(999), ShardStatus::Failed(String::from("disk full"))];
    let msg = reduce_statuses(&status).unwrap_err();
    assert_eq!(msg, "emb dump FAILED for server 1, due to disk full.");
}

#[test]
fn failure_message_format_is_exact() {
    let m = shard_failure_message(17, &String::from("oops"));
    assert_eq!(m, "emb dump FAILED for server 17, due to oops.");
}

#[test]
fn decimal_rendering_matches_std() {
    assert_eq!(usize_to_string(0), "0");
    assert_eq!(usize_to_string(7), "7");
    assert_eq!(usize_to_string(10), "10");
    assert_eq!(usize_to_string(907), "907");
    assert_eq!(usize_to_string(usize::MAX), format!("{}", usize::MAX));
}

#[test]
fn join_strings_matches_std_join() {
    let none: Vec<String> = Vec::new();
    assert_eq!(join_strings(&none, ", "), "");
    let one = vec![String::from("a")];
    assert_eq!(join_strings(&one, ", "), "a");
    let three = vec![String::from("a"), String::from("b"), String::from("c")];
    assert_eq!(join_strings(&three, ", "), "a, b, c");
    assert_eq!(join_strings(&three, ", "), three.join(", "));
}

#[test]
fn error_messages_are_kept() {
    let e = PersiaError::ServerStatusError(String::from("bad status"));
    assert_eq!(e.message(), "bad status");
    let e = PersiaError::ShutdownError(String::from("went away"));
    assert_eq!(e.message(), "went away");
    let e = PersiaError::RpcError(String::from("unreachable shard"));
    assert_eq!(e.message(), "unreachable shard");
}

#[test]
fn single_call_results_keep_the_originating_message() {
    assert_eq!(single_call_result::<u32>(Ok(Ok(5))), Ok(5));
    assert_eq!(
        single_call_result::<u32>(Ok(Err(String::from("bad request")))),
        Err(PersiaError::RpcError(String::from("bad request")))
    );
    assert_eq!(
        single_call_result::<u32>(Err(String::from("timed out"))),
        Err(PersiaError::RpcError(String::from("timed out")))
    );
}
