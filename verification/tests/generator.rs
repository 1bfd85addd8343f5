use axum_play::generator::{generate_message, generate_message_with, GenerationError};

const WELCOME: &str = "Welcome to Axum Play!";
const REASON: &str = "no message for you!";

#[test]
fn forced_success_yields_welcome_text() {
    let r = generate_message_with(false);
    assert_eq!(r.ok(), Some(WELCOME));
}

#[test]
fn forced_failure_yields_reason() {
    let r = generate_message_with(true);
    match r {
        Ok(_) => panic!("a raised coin must fail"),
        Err(e) => assert_eq!(e.reason, REASON),
    }
}

#[test]
fn every_outcome_is_one_of_two_values() {
    for _ in 0..1000 {
        match generate_message() {
            Ok(text) => assert_eq!(text, WELCOME),
            Err(e) => assert_eq!(e.reason, REASON),
        }
    }
}

#[test]
fn failure_fraction_is_near_one_half() {
    let trials: u32 = 10_000;
    let mut failures: u32 = 0;
    for _ in 0..trials {
        if generate_message().is_err() {
            failures += 1;
        }
    }
    // 10 standard deviations around the fair-coin mean of 5000
    assert!(
        (4500..=5500).contains(&failures),
        "failure count {} is far from a fair coin",
        failures
    );
}

#[test]
fn generation_error_keeps_its_reason() {
    let e = GenerationError {
        reason: String::from("out of ink"),
    };
    assert_eq!(e.reason, "out of ink");
}
