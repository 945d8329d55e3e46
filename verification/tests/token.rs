use agent_supervisor::token::{push_decimal, SessionToken};

#[test]
fn token_is_prefix_nanos_dash_pid() {
    let token = SessionToken::mint(Some(1_700_000_000_123_456_789), 4242);
    assert_eq!(token.as_str(), "local-1700000000123456789-4242");
}

#[test]
fn token_falls_back_to_zero_when_the_clock_fails() {
    let token = SessionToken::mint(None, 77);
    assert_eq!(token.as_str(), "local-0-77");
}

#[test]
fn token_of_zero_clock_and_zero_pid() {
    let token = SessionToken::mint(Some(0), 0);
    assert_eq!(token.as_str(), "local-0-0");
}

#[test]
fn token_of_the_largest_inputs() {
    let token = SessionToken::mint(Some(u128::MAX), u32::MAX);
    assert_eq!(
        token.as_str(),
        "local-340282366920938463463374607431768211455-4294967295"
    );
    assert_eq!(
        token.as_str(),
        format!("local-{}-{}", u128::MAX, u32::MAX)
    );
}

#[test]
fn token_agrees_with_std_formatting() {
    let clocks: [u128; 8] = [0, 1, 9, 10, 99, 100, 1_000_000_007, u64::MAX as u128 + 1];
    let pids: [u32; 5] = [0, 1, 10, 65_535, 4_000_000_000];
    for clock in clocks {
        for pid in pids {
            let token = SessionToken::mint(Some(clock), pid);
            assert_eq!(token.as_str(), format!("local-{}-{}", clock, pid));
        }
    }
}

#[test]
fn sequential_launches_have_distinct_tokens() {
    let first = SessionToken::mint(Some(1_000), 500);
    let later = SessionToken::mint(Some(1_001), 500);
    let other_process = SessionToken::mint(Some(1_000), 501);
    assert_ne!(first.as_str(), later.as_str());
    assert_ne!(first.as_str(), other_process.as_str());
    assert_ne!(later.as_str(), other_process.as_str());
}

#[test]
fn tokens_differ_where_the_digits_only_shift() {
    let a = SessionToken::mint(Some(1), 23);
    let b = SessionToken::mint(Some(12), 3);
    assert_eq!(a.as_str(), "local-1-23");
    assert_eq!(b.as_str(), "local-12-3");
    assert_ne!(a.as_str(), b.as_str());
}

#[test]
fn same_inputs_give_the_same_token() {
    let a = SessionToken::mint(Some(42), 7);
    let b = SessionToken::mint(Some(42), 7);
    assert_eq!(a.as_str(), b.as_str());
}

#[test]
fn token_text_and_clone_keep_the_text() {
    let token = SessionToken::mint(Some(5), 6);
    let copy = token.clone();
    assert_eq!(copy.as_str(), "local-5-6");
    assert_eq!(token.to_text(), String::from("local-5-6"));
    assert_eq!(token.as_str(), copy.as_str());
}

#[test]
fn push_decimal_appends_the_numeral() {
    let mut out = String::from("x");
    push_decimal(&mut out, 907);
    assert_eq!(out, "x907");
    push_decimal(&mut out, 0);
    assert_eq!(out, "x9070");
    push_decimal(&mut out, 10);
    assert_eq!(out, "x907010");
}

#[test]
fn push_decimal_writes_every_digit() {
    let mut out = String::new();
    push_decimal(&mut out, 1_234_567_890);
    assert_eq!(out, "1234567890");
}
