use ssh_print::session::{
    command_outcome, connection_test_command, connection_test_result, queue_status_command,
    retry_after_failure, signed_decimal_string, socket_address, upload_message, RetryStep,
    MAX_RETRIES, RETRY_DELAY_MS,
};
use ssh_print::text::{decimal_string, ends_with, starts_with};
use ssh_print::types::{SSHAuthType, SSHConfig};

#[test]
fn retry_waits_before_last_attempt() {
    assert_eq!(MAX_RETRIES, 3);
    for attempt in 1..MAX_RETRIES {
        match retry_after_failure(attempt, MAX_RETRIES, "refused") {
            RetryStep::Wait { delay_ms } => assert_eq!(delay_ms, RETRY_DELAY_MS),
            RetryStep::GiveUp { .. } => panic!("gave up too early"),
        }
    }
    assert_eq!(RETRY_DELAY_MS, 2000);
}

#[test]
fn retry_gives_up_after_last_attempt() {
    match retry_after_failure(3, 3, "connection refused") {
        RetryStep::GiveUp { message } => {
            assert_eq!(message, "Failed to connect after 3 attempts: connection refused")
        }
        RetryStep::Wait { .. } => panic!("expected to give up"),
    }
}

#[test]
fn zero_exit_status_returns_stdout() {
    assert_eq!(command_outcome(0, "out\n".to_string(), "warn"), Ok("out\n".to_string()));
}

#[test]
fn nonzero_exit_status_is_failure() {
    assert_eq!(
        command_outcome(1, "out".to_string(), "lpr: unknown printer"),
        Err("Command failed with status 1: lpr: unknown printer".to_string())
    );
    assert_eq!(
        command_outcome(-2, String::new(), ""),
        Err("Command failed with status -2: ".to_string())
    );
}

#[test]
fn decimal_notation() {
    assert_eq!(decimal_string(0), "0");
    assert_eq!(decimal_string(10), "10");
    assert_eq!(decimal_string(18446744073709551615), "18446744073709551615");
    assert_eq!(signed_decimal_string(i32::MIN), "-2147483648");
    assert_eq!(signed_decimal_string(255), "255");
}

#[test]
fn address_joins_host_and_port() {
    let c = SSHConfig {
        host: "h.example".to_string(),
        port: 2022,
        username: "u".to_string(),
        auth_type: SSHAuthType::PrivateKey { key_path: "/k".to_string(), passphrase: None },
    };
    assert_eq!(socket_address(&c), "h.example:2022");
    assert_eq!(c.duplicate().port, 2022);
}

#[test]
fn command_and_message_texts() {
    assert_eq!(queue_status_command("psts"), "lpq -P psts");
    assert_eq!(upload_message("/home/u/a.pdf"), "File uploaded to /home/u/a.pdf");
    assert_eq!(connection_test_command(), "echo 'Connection successful'");
    assert_eq!(connection_test_result("  Connection successful\n"), "Connection successful");
}

#[test]
fn prefix_and_suffix_tests() {
    assert!(ends_with("psts-sx", "-sx"));
    assert!(!ends_with("sx", "-sx"));
    assert!(starts_with("Printer: x", "Printer:"));
    assert!(!starts_with("Print", "Printer:"));
    assert!(ends_with("abc", ""));
}
