use std::cell::{Cell, RefCell};

use steam_api::client::{Client, ClientOptions, Error, RequestError, RetryStep};

fn client(max_retries: usize, dont_retry: Vec<u16>) -> Client {
    Client::options()
        .api_key("key".to_string())
        .retries(max_retries)
        .retry_timeout_ms(250)
        .dont_retries(dont_retry)
        .build("session".to_string())
        .unwrap()
}

#[test]
fn retry_bound_with_three_retries() {
    let mut client = client(3, vec![]);
    let attempts = Cell::new(0usize);
    let waits = RefCell::new(Vec::new());
    let (result, retried) = client.run(
        |retried| -> Result<(), RequestError> {
            assert_eq!(retried, attempts.get());
            attempts.set(attempts.get() + 1);
            Err(RequestError::Status(503))
        },
        |ms| waits.borrow_mut().push(ms),
    );
    assert_eq!(result, Err(RequestError::Status(503)));
    assert_eq!(retried, 3);
    assert_eq!(attempts.get(), 4);
    assert_eq!(client.retries(), 3);
    assert_eq!(*waits.borrow(), vec![250, 250, 250]);
}

#[test]
fn retry_bound_holds_for_other_bounds() {
    for max_retries in [0usize, 1, 2, 5, 17] {
        let mut client = client(max_retries, vec![401]);
        let attempts = Cell::new(0usize);
        let (result, retried) = client.run(
            |_| -> Result<u8, RequestError> {
                attempts.set(attempts.get() + 1);
                Err(RequestError::Transport)
            },
            |_| {},
        );
        assert_eq!(result, Err(RequestError::Transport));
        assert_eq!(retried, max_retries);
        assert_eq!(attempts.get(), max_retries + 1);
        assert_eq!(client.retries(), max_retries);
    }
}

#[test]
fn status_in_the_non_retry_set_ends_after_one_attempt() {
    for max_retries in [0usize, 3, 100] {
        let mut client = client(max_retries, vec![404, 401]);
        let attempts = Cell::new(0usize);
        let waits = Cell::new(0usize);
        let (result, retried) = client.run(
            |_| -> Result<(), RequestError> {
                attempts.set(attempts.get() + 1);
                Err(RequestError::Status(401))
            },
            |_| waits.set(waits.get() + 1),
        );
        assert_eq!(result, Err(RequestError::Status(401)));
        assert_eq!(retried, 0);
        assert_eq!(attempts.get(), 1);
        assert_eq!(waits.get(), 0);
        assert_eq!(client.retries(), 0);
    }
}

#[test]
fn answer_of_the_wrong_shape_is_not_retried() {
    let mut client = client(3, vec![]);
    let attempts = Cell::new(0usize);
    let (result, retried) = client.run(
        |_| -> Result<(), RequestError> {
            attempts.set(attempts.get() + 1);
            Err(RequestError::Decode)
        },
        |_| {},
    );
    assert_eq!(result, Err(RequestError::Decode));
    assert_eq!(retried, 0);
    assert_eq!(attempts.get(), 1);
    assert_eq!(client.retries(), 0);
}

#[test]
fn success_after_failures_hands_out_the_value() {
    let mut client = client(3, vec![]);
    let (result, retried) = client.run(
        |retried| {
            if retried < 2 {
                Err(RequestError::Status(500))
            } else {
                Ok(retried * 10)
            }
        },
        |_| {},
    );
    assert_eq!(result, Ok(20));
    assert_eq!(retried, 2);
    assert_eq!(client.retries(), 2);
}

#[test]
fn the_last_error_is_the_one_reported() {
    let mut client = client(2, vec![]);
    let (result, retried) = client.run(
        |retried| -> Result<(), RequestError> { Err(RequestError::Status(500 + retried as u16)) },
        |_| {},
    );
    assert_eq!(result, Err(RequestError::Status(502)));
    assert_eq!(retried, 2);
}

#[test]
fn a_non_retry_status_ends_the_call_mid_way() {
    let mut client = client(5, vec![403]);
    let (result, retried) = client.run(
        |retried| -> Result<(), RequestError> {
            if retried < 2 {
                Err(RequestError::Transport)
            } else {
                Err(RequestError::Status(403))
            }
        },
        |_| {},
    );
    assert_eq!(result, Err(RequestError::Status(403)));
    assert_eq!(retried, 2);
    assert_eq!(client.retries(), 2);
}

#[test]
fn retries_add_up_until_reset() {
    let mut client = client(3, vec![]);
    assert_eq!(client.retries(), 0);
    for _ in 0..2 {
        let _ = client.run(
            |_| -> Result<(), RequestError> { Err(RequestError::Transport) },
            |_| {},
        );
    }
    assert_eq!(client.retries(), 6);
    let _ = client.run(|_| Ok::<u8, RequestError>(1), |_| {});
    assert_eq!(client.retries(), 6);
    client.reset_retries();
    assert_eq!(client.retries(), 0);
    let _ = client.run(
        |_| -> Result<(), RequestError> { Err(RequestError::Transport) },
        |_| {},
    );
    assert_eq!(client.retries(), 3);
}

#[test]
fn decide_follows_the_state_machine() {
    let client = client(3, vec![401, 404]);
    assert_eq!(client.decide(0, None), RetryStep::Done);
    assert_eq!(client.decide(3, None), RetryStep::Done);
    let retry = RetryStep::Retry { delay_ms: 250 };
    assert_eq!(client.decide(0, Some(RequestError::Transport)), retry);
    assert_eq!(client.decide(2, Some(RequestError::Status(500))), retry);
    assert_eq!(
        client.decide(3, Some(RequestError::Status(500))),
        RetryStep::Failed(RequestError::Status(500))
    );
    assert_eq!(
        client.decide(4, Some(RequestError::Transport)),
        RetryStep::Failed(RequestError::Transport)
    );
    assert_eq!(
        client.decide(0, Some(RequestError::Status(401))),
        RetryStep::Failed(RequestError::Status(401))
    );
    assert_eq!(
        client.decide(0, Some(RequestError::Status(404))),
        RetryStep::Failed(RequestError::Status(404))
    );
    assert_eq!(
        client.decide(0, Some(RequestError::Decode)),
        RetryStep::Failed(RequestError::Decode)
    );
    // Deciding does not count.
    assert_eq!(client.retries(), 0);
}

#[test]
fn next_step_counts_only_retries() {
    let mut client = client(1, vec![401]);
    assert_eq!(client.next_step(0, None), RetryStep::Done);
    assert_eq!(client.retries(), 0);
    assert_eq!(
        client.next_step(0, Some(RequestError::Status(401))),
        RetryStep::Failed(RequestError::Status(401))
    );
    assert_eq!(client.retries(), 0);
    assert_eq!(
        client.next_step(0, Some(RequestError::Status(500))),
        RetryStep::Retry { delay_ms: 250 }
    );
    assert_eq!(client.retries(), 1);
    assert_eq!(
        client.next_step(1, Some(RequestError::Status(500))),
        RetryStep::Failed(RequestError::Status(500))
    );
    assert_eq!(client.retries(), 1);
}

#[test]
fn defaults_are_three_retries_one_second_apart() {
    let client = Client::options()
        .api_key("key".to_string())
        .build("s".to_string())
        .unwrap();
    for retried in 0..3 {
        assert_eq!(
            client.decide(retried, Some(RequestError::Transport)),
            RetryStep::Retry { delay_ms: 1000 }
        );
    }
    assert_eq!(
        client.decide(3, Some(RequestError::Transport)),
        RetryStep::Failed(RequestError::Transport)
    );
    // By default even "unauthorized" is retried.
    assert_eq!(
        client.decide(0, Some(RequestError::Status(401))),
        RetryStep::Retry { delay_ms: 1000 }
    );
}

#[test]
fn building_without_a_credential_fails() {
    assert_eq!(
        ClientOptions::new().build("s".to_string()).err(),
        Some(Error::ApiKey)
    );
    assert_eq!(
        ClientOptions::default()
            .retries(1)
            .dont_retry(500)
            .build("s".to_string())
            .err(),
        Some(Error::ApiKey)
    );
    assert_eq!(
        ClientOptions::new()
            .api_keys(vec![])
            .build("s".to_string())
            .err(),
        Some(Error::ApiKey)
    );
}

#[test]
fn the_first_credential_is_the_one_in_use() {
    let client = ClientOptions::new()
        .api_key("first".to_string())
        .api_keys(vec!["second".to_string(), "third".to_string()])
        .api_key("fourth".to_string())
        .build("a0a0".to_string())
        .unwrap();
    assert_eq!(client.api_key(), "first");
    assert_eq!(client.session_id(), "a0a0");

    let client = ClientOptions::new()
        .api_keys(vec!["only".to_string()])
        .build(String::new())
        .unwrap();
    assert_eq!(client.api_key(), "only");
    assert_eq!(client.session_id(), "");
}

#[test]
fn non_retry_statuses_are_a_set() {
    let a = ClientOptions::new()
        .api_key("k".to_string())
        .dont_retry(404)
        .dont_retry_unauthorized()
        .dont_retries(vec![500, 404, 401, 500])
        .build("s".to_string())
        .unwrap();
    let b = ClientOptions::new()
        .api_key("k".to_string())
        .dont_retries(vec![500, 401])
        .dont_retry(404)
        .build("s".to_string())
        .unwrap();
    for code in [0u16, 100, 200, 400, 401, 402, 403, 404, 405, 499, 500, 501, 599, u16::MAX] {
        let failure = Some(RequestError::Status(code));
        assert_eq!(a.decide(0, failure), b.decide(0, failure), "{}", code);
        let listed = code == 401 || code == 404 || code == 500;
        assert_eq!(
            a.decide(0, failure) == RetryStep::Failed(RequestError::Status(code)),
            listed,
            "{}",
            code
        );
    }
}

#[test]
fn later_settings_replace_earlier_ones() {
    let mut options = ClientOptions::new();
    options.api_key("k".to_string());
    options.retries(9).retry_timeout_ms(1);
    options.retries(1);
    options.retry_timeout_ms(7);
    let client = options.build("s".to_string()).unwrap();
    assert_eq!(
        client.decide(0, Some(RequestError::Transport)),
        RetryStep::Retry { delay_ms: 7 }
    );
    assert_eq!(
        client.decide(1, Some(RequestError::Transport)),
        RetryStep::Failed(RequestError::Transport)
    );
    // The settings can be used again.
    let again = options.build("t".to_string()).unwrap();
    assert_eq!(again.session_id(), "t");
    assert_eq!(again.api_key(), "k");
}
