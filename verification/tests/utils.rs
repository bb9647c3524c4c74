use fast_scp::cli::{Cli, Commands};
use fast_scp::error::ScpError;
use fast_scp::options::{Mode, SshOpts};
use fast_scp::run::{prepare, prepare_with_home, Job};
use fast_scp::text::push_decimal;
use fast_scp::utils::{
    after_attempt, get_private_key_path, resolve_private_key, with_retry, Attempt, SESSION_RETRIES,
};
use std::cell::Cell;

const NO_HOME: &str = "Could not find home directory, please provide the private key path using the --private-key-path <key> flag";

fn receive(private_key: Option<&str>, replace: bool) -> Cli {
    Cli {
        command: Commands::Receive {
            source: "/data".to_string(),
            destination: "./out".to_string(),
            host: "example.org".to_string(),
            user: "alice".to_string(),
            private_key: private_key.map(|key| key.to_string()),
            replace,
        },
    }
}

#[test]
fn with_retry_returns_the_first_success() {
    let calls = Cell::new(0u32);
    let result = with_retry(
        || {
            calls.set(calls.get() + 1);
            Ok::<u32, ScpError>(7)
        },
        10,
    );
    assert_eq!(result, Ok(7));
    assert_eq!(calls.get(), 1);
}

#[test]
fn with_retry_tries_again_after_a_failure() {
    let calls = Cell::new(0u32);
    let result = with_retry(
        || {
            calls.set(calls.get() + 1);
            if calls.get() < 4 {
                Err(ScpError::Ssh(format!("attempt {}", calls.get())))
            } else {
                Ok(calls.get())
            }
        },
        SESSION_RETRIES,
    );
    assert_eq!(result, Ok(4));
    assert_eq!(calls.get(), 4);
}

#[test]
fn with_retry_gives_up_with_the_last_error() {
    let calls = Cell::new(0u32);
    let result: Result<(), ScpError> = with_retry(
        || {
            calls.set(calls.get() + 1);
            Err(ScpError::Ssh(format!("attempt {}", calls.get())))
        },
        10,
    );
    assert_eq!(result, Err(ScpError::Ssh("attempt 11".to_string())));
    assert_eq!(calls.get(), 11);
}

#[test]
fn with_retry_without_retries_calls_once() {
    let calls = Cell::new(0u32);
    let result: Result<(), ScpError> = with_retry(
        || {
            calls.set(calls.get() + 1);
            Err(ScpError::Other("no".to_string()))
        },
        0,
    );
    assert_eq!(result, Err(ScpError::Other("no".to_string())));
    assert_eq!(calls.get(), 1);
    assert_eq!(SESSION_RETRIES, 10);
}

#[test]
fn with_retry_succeeds_on_the_last_attempt() {
    let calls = Cell::new(0u32);
    let result = with_retry(
        || {
            calls.set(calls.get() + 1);
            if calls.get() <= 3 {
                Err(ScpError::Other("not yet".to_string()))
            } else {
                Ok("done")
            }
        },
        3,
    );
    assert_eq!(result, Ok("done"));
    assert_eq!(calls.get(), 4);
}

#[test]
fn a_success_settles_the_matter() {
    assert_eq!(after_attempt(Ok(5), 0, 10), Attempt::Settled(Ok(5)));
    assert_eq!(after_attempt(Ok(5), 10, 10), Attempt::Settled(Ok(5)));
    assert_eq!(after_attempt(Ok("x"), 3, 0), Attempt::Settled(Ok("x")));
}

#[test]
fn a_failure_is_retried_while_a_retry_is_left() {
    let error = ScpError::Ssh("refused".to_string());
    assert_eq!(after_attempt::<()>(Err(error.clone()), 0, 10), Attempt::Again(1));
    assert_eq!(after_attempt::<()>(Err(error.clone()), 9, 10), Attempt::Again(10));
    assert_eq!(
        after_attempt::<()>(Err(error.clone()), 10, 10),
        Attempt::Settled(Err(error.clone()))
    );
    assert_eq!(after_attempt::<()>(Err(error.clone()), 0, 0), Attempt::Settled(Err(error.clone())));
    assert_eq!(
        after_attempt::<()>(Err(error.clone()), u32::MAX, u32::MAX),
        Attempt::Settled(Err(error.clone()))
    );
    assert_eq!(after_attempt::<()>(Err(error.clone()), 11, 10), Attempt::Settled(Err(error)));
}

#[test]
fn a_named_private_key_is_taken_as_it_is() {
    let named = Some("/keys/id_ed25519".to_string());
    assert_eq!(get_private_key_path(&named), Ok("/keys/id_ed25519".to_string()));
    assert_eq!(
        resolve_private_key(&named, &Some("/home/alice".to_string())),
        Ok("/keys/id_ed25519".to_string())
    );
    assert_eq!(resolve_private_key(&named, &None), Ok("/keys/id_ed25519".to_string()));
}

#[test]
fn the_default_private_key_lies_in_the_home_directory() {
    assert_eq!(
        resolve_private_key(&None, &Some("/home/alice".to_string())),
        Ok("/home/alice/.ssh/id_rsa".to_string())
    );
    assert_eq!(
        resolve_private_key(&None, &Some("/home/alice/".to_string())),
        Ok("/home/alice/.ssh/id_rsa".to_string())
    );
}

#[test]
fn without_key_and_home_there_is_an_error() {
    assert_eq!(resolve_private_key(&None, &None), Err(ScpError::Io(NO_HOME.to_string())));
}

#[test]
fn the_private_key_of_this_user_is_the_default_or_an_error() {
    match get_private_key_path(&None) {
        Ok(path) => assert!(path.ends_with(".ssh/id_rsa"), "{}", path),
        Err(error) => assert_eq!(error, ScpError::Io(NO_HOME.to_string())),
    }
}

#[test]
fn prepare_builds_the_job_of_the_command_line() {
    let job = prepare_with_home(receive(Some("/keys/k"), false), &None);
    assert_eq!(
        job,
        Ok(Job {
            ssh_opts: SshOpts {
                host: "example.org:22".to_string(),
                username: "alice".to_string(),
                private_key: "/keys/k".to_string(),
            },
            mode: Mode::Ignore,
            source: "/data".to_string(),
            destination: "./out".to_string(),
        })
    );
    assert_eq!(prepare(receive(Some("/keys/k"), false)), job);
}

#[test]
fn prepare_takes_the_default_key_and_the_replace_switch() {
    let job = prepare_with_home(receive(None, true), &Some("/root".to_string()))
        .expect("there is a home directory");
    assert_eq!(job.ssh_opts.private_key, "/root/.ssh/id_rsa");
    assert_eq!(job.ssh_opts.host, "example.org:22");
    assert_eq!(job.mode, Mode::Replace);
}

#[test]
fn without_key_and_home_there_is_no_job() {
    let job = prepare_with_home(receive(None, false), &None);
    assert_eq!(job, Err(ScpError::Io(NO_HOME.to_string())));
}

#[test]
fn prepare_asks_the_environment_only_without_a_key() {
    match prepare(receive(None, false)) {
        Ok(job) => {
            assert!(job.ssh_opts.private_key.ends_with(".ssh/id_rsa"));
            assert_eq!(job.ssh_opts.username, "alice");
            assert_eq!(job.source, "/data");
        }
        Err(error) => assert_eq!(error, ScpError::Io(NO_HOME.to_string())),
    }
}

#[test]
fn errors_say_what_kind_they_are() {
    assert_eq!(ScpError::Io("disk full".to_string()).message(), "IO error: disk full");
    assert_eq!(ScpError::Ssh("bad key".to_string()).message(), "SSH error: bad key");
    assert_eq!(ScpError::Other("odd".to_string()).message(), "Error: odd");
    assert_eq!(ScpError::Other(String::new()).message(), "Error: ");
}

#[test]
fn an_error_from_text_is_of_the_other_kind() {
    assert_eq!(ScpError::from("odd"), ScpError::Other("odd".to_string()));
    let error: ScpError = "odd".into();
    assert_eq!(error.message(), "Error: odd");
}

#[test]
fn errors_and_options_are_copied_whole() {
    let error = ScpError::Ssh("bad key".to_string());
    assert_eq!(error.clone(), error);
    let opts = SshOpts {
        host: "h:22".to_string(),
        username: "u".to_string(),
        private_key: "k".to_string(),
    };
    assert_eq!(opts.clone(), opts);
}

#[test]
fn push_decimal_writes_the_digits() {
    for (n, digits) in [
        (0usize, "0"),
        (7, "7"),
        (9, "9"),
        (10, "10"),
        (99, "99"),
        (100, "100"),
        (12345, "12345"),
        (usize::MAX, &usize::MAX.to_string()),
    ] {
        let mut text = "n=".to_string();
        push_decimal(&mut text, n);
        assert_eq!(text, format!("n={}", digits));
    }
}
