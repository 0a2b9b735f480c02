use code_sandbox::{Duration, Error};

fn fault() -> std::io::Error {
    std::io::Error::new(std::io::ErrorKind::Other, "disk full")
}

fn elapsed() -> tokio::time::error::Elapsed {
    let runtime = tokio::runtime::Builder::new_current_thread()
        .enable_time()
        .build()
        .unwrap();
    runtime
        .block_on(async {
            tokio::time::timeout(
                std::time::Duration::from_millis(1),
                std::future::pending::<()>(),
            )
            .await
        })
        .unwrap_err()
}

#[test]
fn messages_with_a_source() {
    let cases = [
        (
            Error::UnableToCreateTempDir { source: fault() },
            "Unable to create temporary directory: disk full",
        ),
        (
            Error::UnableToCreateOutputDir { source: fault() },
            "Unable to create output directory: disk full",
        ),
        (
            Error::UnableToSetOutputPermissions { source: fault() },
            "Unable to set permissions for output directory: disk full",
        ),
        (
            Error::UnableToCreateSourceFile { source: fault() },
            "Unable to create source file: disk full",
        ),
        (
            Error::UnableToSetSourcePermissions { source: fault() },
            "Unable to set pemissions for source file: disk full",
        ),
        (
            Error::UnableToStartCompiler { source: fault() },
            "Unable to start the compiler: disk full",
        ),
        (
            Error::UnableToWaitForCompiler { source: fault() },
            "Unable to wait for the compiler: disk full",
        ),
        (
            Error::UnableToGetOutputFromCompiler { source: fault() },
            "Unable to get output from the compiler: disk full",
        ),
        (
            Error::UnableToRemoveCompiler { source: fault() },
            "Unable to remove the compiler: disk full",
        ),
        (
            Error::UnableToReadOutput { source: fault() },
            "Unable to read output file: disk full",
        ),
    ];
    for (error, text) in cases {
        assert_eq!(error.to_string(), text);
    }
}

#[test]
fn messages_without_a_source() {
    let cases = [
        (Error::MissingCompilerId, "Unable to find the compiler ID"),
        (Error::OutputMissing, "Output was missing"),
        (
            Error::VersionReleaseMissing,
            "Release was missing from the version output",
        ),
        (
            Error::VersionHashMissing,
            "Commit hash was missing from the version output",
        ),
        (
            Error::VersionDateMissing,
            "Commit date was missing from the version output",
        ),
        (
            Error::ContainerPathExtensionMissing,
            "Container path has no extension",
        ),
    ];
    for (error, text) in cases {
        assert_eq!(error.to_string(), text);
    }
}

#[test]
fn message_of_a_timeout_counts_milliseconds() {
    let error = Error::CompilerExecutionTimedOut {
        source: elapsed(),
        timeout: Duration::new(8, 2_999_999),
    };
    assert_eq!(
        error.to_string(),
        "Compiler execution took longer than 8002 ms"
    );
}

#[test]
fn messages_of_parse_errors() {
    let source = serde_json::from_str::<serde_json::Value>("{").unwrap_err();
    let said = format!("Unable to read crate information: {}", source);
    let error = Error::UnableToParseCrateInformation { source };
    assert_eq!(error.to_string(), said);

    let source = String::from_utf8(vec![b'a', 0xff]).unwrap_err();
    let said = format!("Output was not valid UTF-8: {}", source);
    let error = Error::OutputNotUtf8 { source };
    assert_eq!(error.to_string(), said);
}

#[test]
fn message_with_a_given_source() {
    let error = Error::UnableToReadOutput { source: fault() };
    assert_eq!(error.message_with("gone"), "Unable to read output file: gone");
    assert_eq!(Error::OutputMissing.message_with("gone"), "Output was missing");
}

#[test]
fn durations() {
    let d = Duration::new(3, 1_500_000_000);
    assert_eq!(d.as_secs(), 4);
    assert_eq!(d.subsec_nanos(), 500_000_000);
    assert_eq!(d.as_millis(), 4500);
    assert_eq!(Duration::from_secs(4), Duration::new(4, 0));
    assert_eq!(
        Duration::new(u64::MAX, 999_999_999).as_millis(),
        u64::MAX as u128 * 1000 + 999
    );
}
