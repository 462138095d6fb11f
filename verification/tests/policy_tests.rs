use snowflake_mapper::config::{Args, SnowflakeConfig};
use snowflake_mapper::errors::SnowflakeMapperError;
use snowflake_mapper::model::WarehouseInfo;
use snowflake_mapper::orchestrate::{placeholder_databases, RunState};
use snowflake_mapper::retry::{RetryDecision, RetryExecutor, RetryPolicy};
use snowflake_mapper::session::SnowflakeMapper;
use snowflake_mapper::warehouse::{default_fallback_warehouse, select_warehouse};

fn warehouse(name: &str) -> WarehouseInfo {
    WarehouseInfo {
        name: name.to_string(),
        size: "X-Small".to_string(),
        state: "STARTED".to_string(),
        type_: "STANDARD".to_string(),
    }
}

#[test]
fn requested_warehouse_is_activated_case_insensitively() {
    let list = vec![warehouse("LOADING_WH"), warehouse("Compute_WH")];
    let r = select_warehouse("COMPUTE_wh", &list, "COMPUTE_WH");
    assert_eq!(r, "COMPUTE_wh");
}

#[test]
fn missing_warehouse_falls_back_without_error() {
    let list = vec![warehouse("LOADING_WH")];
    let r = select_warehouse("ANALYTICS_WH", &list, "COMPUTE_WH");
    assert_eq!(r, "COMPUTE_WH");
    let r = select_warehouse("ANY", &Vec::new(), "COMPUTE_WH");
    assert_eq!(r, "COMPUTE_WH");
}

#[test]
fn the_default_fallback_name() {
    assert_eq!(default_fallback_warehouse(), "COMPUTE_WH");
}

#[test]
fn two_failures_then_success_sleeps_twice() {
    // maxRetries = 2: two failures are each answered with a delayed retry,
    // the third attempt succeeds, with exactly 2 recorded delays
    let mut exec = RetryExecutor::new(RetryPolicy { max_retries: 2, delay_secs: 5 });
    assert_eq!(exec.on_failure(), RetryDecision::RetryAfterDelay(5));
    assert_eq!(exec.on_failure(), RetryDecision::RetryAfterDelay(5));
    assert_eq!(exec.delays_slept(), 2);
}

#[test]
fn always_failing_gives_up_after_three_attempts() {
    let mut exec = RetryExecutor::new(RetryPolicy { max_retries: 2, delay_secs: 5 });
    let mut attempts = 0u32;
    loop {
        attempts += 1; // one attempt fails
        match exec.on_failure() {
            RetryDecision::RetryAfterDelay(d) => assert_eq!(d, 5),
            RetryDecision::GiveUp => break,
        }
    }
    assert_eq!(attempts, 3);
    assert_eq!(exec.delays_slept(), 2);
}

#[test]
fn zero_retries_give_up_at_once() {
    let mut exec = RetryExecutor::new(RetryPolicy { max_retries: 0, delay_secs: 7 });
    assert_eq!(exec.on_failure(), RetryDecision::GiveUp);
}

#[test]
fn skip_policy_survives_a_failed_database() {
    // three databases, the second fails at the query step, skipping enabled:
    // every database is attempted and the run succeeds
    let mut run = RunState::new(3, true);
    assert!(run.should_continue());
    run.record_success();
    run.record_failure();
    assert!(run.should_continue());
    run.record_success();
    assert!(!run.should_continue());
    assert!(run.run_succeeded());
}

#[test]
fn abort_policy_stops_at_the_first_failure() {
    let mut run = RunState::new(3, false);
    run.record_success();
    run.record_failure();
    assert!(!run.should_continue());
    assert!(!run.run_succeeded());
}

#[test]
fn explicit_databases_become_placeholders() {
    let names = vec!["SALES".to_string(), "HR".to_string()];
    let dbs = placeholder_databases(&names);
    assert_eq!(dbs.len(), 2);
    assert_eq!(dbs[0].name, "SALES");
    assert_eq!(dbs[0].created_on, "");
    assert_eq!(dbs[0].owner, "");
    assert_eq!(dbs[1].name, "HR");
}

#[test]
fn fresh_mapper_is_disconnected() {
    let config = SnowflakeConfig {
        account: "acct".to_string(),
        username: "user".to_string(),
        password: "SECRET-REDACTED".to_string(),
        warehouse: "COMPUTE_WH".to_string(),
        database: None,
        role: Some("SALES".to_string()),
    };
    let args = Args {
        databases: None,
        output_dir: "output".to_string(),
        retries: 3,
        retry_delay: 5,
        skip_failed_tables: false,
    };
    let mapper = SnowflakeMapper::new(config, args);
    assert!(mapper.needs_connection());
    match mapper.get_session() {
        Ok(_) => panic!("expected a connection error"),
        Err(SnowflakeMapperError::ConnectionError(m)) => {
            assert_eq!(m, "Not connected to Snowflake");
        }
        Err(_) => panic!("expected a connection error"),
    }
}
