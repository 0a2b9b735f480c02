use code_sandbox::builder::BuildStep;
use code_sandbox::command::{basic_secure_docker_command, Command};
use code_sandbox::mount::MountRequest;
use code_sandbox::run::{
    container_id, exit_code, exit_code_unsigned, Launch, Launched, Logs, Removal, Wait,
};
use code_sandbox::{
    CompletedSandbox, Duration, Error, ExitStatus, MountId, Output, PathStyle, Result,
    Sandbox, SandboxBuilder,
};

const ID: &str = "4f2ab7";

fn fault(text: &str) -> std::io::Error {
    std::io::Error::new(std::io::ErrorKind::Other, text)
}

fn elapsed() -> tokio::time::error::Elapsed {
    let runtime = tokio::runtime::Builder::new_current_thread()
        .enable_time()
        .build()
        .unwrap();
    runtime
        .block_on(async {
            tokio::time::timeout(
                std::time::Duration::from_millis(1),
                std::future::pending::<()>(),
            )
            .await
        })
        .unwrap_err()
}

fn output(code: i32, stdout: &str, stderr: &str) -> Output {
    Output {
        status: ExitStatus::Exited(code),
        stdout: stdout.as_bytes().to_vec(),
        stderr: stderr.as_bytes().to_vec(),
    }
}

fn builder() -> SandboxBuilder {
    numbered_builder(0)
}

fn numbered_builder(serial: u64) -> SandboxBuilder {
    let preparation = SandboxBuilder::new(
        "dcchut/code-sandbox-python",
        serial,
        PathStyle::Unix,
        Ok("/tmp/playground.x".to_string()),
    )
    .unwrap();
    assert_eq!(preparation.inputs(), "/tmp/playground.x/inputs");
    preparation.resume(Ok(())).unwrap()
}

/// Builds a sandbox with writes that all succeed, and tells what was written.
fn build(builder: SandboxBuilder) -> (Sandbox, Vec<(String, String)>) {
    let mut written = Vec::new();
    let mut step = builder.build();
    loop {
        match step {
            BuildStep::Built(sandbox) => return (sandbox, written),
            BuildStep::Write(pending) => {
                let request = pending.request();
                written.push((
                    request.local_path().to_string(),
                    request.contents().to_string(),
                ));
                step = pending.resume(Ok(())).unwrap();
            }
        }
    }
}

fn words(command: &Command) -> String {
    assert_eq!(command.get_program(), "docker");
    command.get_args().join(" ")
}

fn launch() -> Launch {
    let (sandbox, _) = build(builder());
    sandbox.execute().0
}

fn wait() -> Wait {
    match launch().resume(Ok(output(0, "4f2ab7\n", ""))).unwrap() {
        Launched::Running(wait) => wait,
        Launched::Refused(_) => panic!("the container should run"),
    }
}

fn logs() -> Logs {
    wait().resume(Ok(Ok(output(0, "17\n", "")))).unwrap()
}

fn removal() -> Removal {
    logs().resume(Ok(output(0, "out", "err"))).unwrap()
}

fn complete(builder: SandboxBuilder, ran: Result<Output>) -> Result<CompletedSandbox> {
    let (sandbox, _) = build(builder);
    sandbox.execute().1.complete(ran)
}

#[test]
fn scratch_directory_cannot_be_created() {
    let error = SandboxBuilder::new("alpine", 0, PathStyle::Unix, Err(fault("no space"))).unwrap_err();
    assert!(matches!(error, Error::UnableToCreateTempDir { .. }));
    assert_eq!(
        error.to_string(),
        "Unable to create temporary directory: no space"
    );
}

#[test]
fn inputs_directory_cannot_be_created() {
    let preparation = SandboxBuilder::new("alpine", 0, PathStyle::Unix, Ok("/tmp/s".to_string())).unwrap();
    let error = preparation.resume(Err(fault("denied"))).unwrap_err();
    assert_eq!(
        error.to_string(),
        "Unable to create temporary directory: denied"
    );
}

#[test]
fn secure_command() {
    let command = basic_secure_docker_command(Duration::new(5, 999_999_999));
    assert_eq!(
        words(&command),
        "run --detach --cap-drop=ALL --cap-add=DAC_OVERRIDE --security-opt=no-new-privileges \
         --workdir /playground --net none --memory 512m --memory-swap 512m \
         --env PLAYGROUND_TIMEOUT=5"
    );
    assert!(command.kill_on_drop());
    assert!(!command.discard_stdout());
}

#[test]
fn execution_command_of_a_configured_sandbox() {
    let mut builder = builder();
    builder
        .entry_point(&["ignored"])
        .entry_point(&["python3", "/app/main.py"])
        .with_timeout(Duration::from_secs(5), Duration::from_secs(10));
    builder.mount("/app/main.py", "print(1)").unwrap();
    builder.mount("/app/contents.txt", "Raspberry").unwrap();
    let (sandbox, written) = build(builder);

    assert_eq!(
        written,
        vec![
            (
                "/tmp/playground.x/inputs/0.txt".to_string(),
                "print(1)".to_string()
            ),
            (
                "/tmp/playground.x/inputs/1.txt".to_string(),
                "Raspberry".to_string()
            ),
        ]
    );
    let settings = words(&basic_secure_docker_command(Duration::from_secs(5)));
    let volumes = "--volume /tmp/playground.x/inputs/0.txt:/app/main.py \
                   --volume /tmp/playground.x/inputs/1.txt:/app/contents.txt";
    assert_eq!(
        words(&sandbox.docker_command()),
        format!("{} {}", settings, volumes)
    );
    assert_eq!(
        words(&sandbox.execution_command()),
        format!(
            "{} {} dcchut/code-sandbox-python python3 /app/main.py",
            settings, volumes
        )
    );
    let (launch, _) = sandbox.execute();
    assert_eq!(
        words(launch.command()),
        format!(
            "{} {} dcchut/code-sandbox-python python3 /app/main.py",
            settings, volumes
        )
    );
}

#[test]
fn default_timeouts_are_four_and_eight_seconds() {
    let (sandbox, written) = build(builder());
    assert!(written.is_empty());
    assert!(words(&sandbox.docker_command()).ends_with("PLAYGROUND_TIMEOUT=4"));
    let wait = wait();
    assert_eq!(wait.hard_timeout(), Duration::from_secs(8));
}

#[test]
fn local_files_of_many_mounts_are_distinct() {
    let mut builder = builder();
    for _ in 0..120 {
        builder.mount("/app/same", "").unwrap();
    }
    let (_, written) = build(builder);
    let mut paths: Vec<String> = written.into_iter().map(|w| w.0).collect();
    assert_eq!(paths[110], "/tmp/playground.x/inputs/110.txt");
    paths.sort();
    paths.dedup();
    assert_eq!(paths.len(), 120);
}

#[test]
fn build_stops_at_the_first_failure() {
    let mut builder = builder();
    builder.mount("/a", "A").unwrap();
    builder.mount("/b", "B").unwrap();
    builder.mount("/c", "C").unwrap();
    let step = match builder.build() {
        BuildStep::Write(pending) => pending.resume(Ok(())).unwrap(),
        BuildStep::Built(_) => panic!("a file is to be written"),
    };
    match step {
        BuildStep::Write(pending) => {
            assert_eq!(pending.request().contents(), "B");
            let error = pending.resume(Err(fault("read only"))).unwrap_err();
            assert!(matches!(error, Error::UnableToCreateSourceFile { .. }));
            assert_eq!(
                error.to_string(),
                "Unable to create source file: read only"
            );
        }
        BuildStep::Built(_) => panic!("a file is to be written"),
    }
}

#[test]
fn container_ids() {
    assert_eq!(container_id("4f2ab7\n").unwrap(), "4f2ab7");
    assert_eq!(container_id("  4f2ab7 \r\nwarning\n").unwrap(), "4f2ab7");
    assert_eq!(container_id("\n4f2ab7").unwrap(), "");
    assert!(matches!(container_id(""), Err(Error::MissingCompilerId)));
}

#[test]
fn exit_codes() {
    assert_eq!(exit_code("0\n"), 0);
    assert_eq!(exit_code("17\n"), 17);
    assert_eq!(exit_code(" 137 \n1\n"), 137);
    assert_eq!(exit_code("-1"), -1);
    assert_eq!(exit_code(""), i32::MAX);
    assert_eq!(exit_code("oops\n17\n"), i32::MAX);
    assert_eq!(exit_code("2147483648\n"), i32::MAX);
    for code in [0, 1, 17, 255, -1, i32::MIN, i32::MAX] {
        assert_eq!(exit_code(&format!("{}\n", code)), code);
    }
}

#[test]
fn exit_codes_without_a_sign() {
    assert_eq!(exit_code_unsigned("17\n"), 17);
    assert_eq!(exit_code_unsigned(" +137 \n1\n"), 137);
    assert_eq!(exit_code_unsigned("4294967295\n"), 4294967295);
    assert_eq!(exit_code_unsigned("4294967296\n"), u32::MAX);
    assert_eq!(exit_code_unsigned("-1\n"), u32::MAX);
    assert_eq!(exit_code_unsigned(""), u32::MAX);
    for code in [0, 1, 255, 0x7fff_ffff, 0x8000_0000, u32::MAX] {
        let reply = format!("{}\n", code);
        assert_eq!(exit_code_unsigned(&reply), code);
        let logs = wait()
            .resume_unsigned(Ok(Ok(output(0, &reply, ""))))
            .unwrap();
        let removal = logs.resume(Ok(output(0, "out", "err"))).unwrap();
        let ended = removal.resume(Ok(ExitStatus::Exited(0))).unwrap();
        assert_eq!(ended.status.code(), Some(code as i32));
        assert_eq!(ended.status.success(), code == 0);
    }
    let error = wait().resume_unsigned(Ok(Err(fault("w")))).unwrap_err();
    assert_eq!(error.to_string(), "Unable to wait for the compiler: w");
    let late = wait().resume_unsigned(Err(elapsed())).unwrap();
    let removal = late.resume(Ok(output(0, "", ""))).unwrap();
    let error = removal.resume(Ok(ExitStatus::Exited(0))).unwrap_err();
    assert!(matches!(error, Error::CompilerExecutionTimedOut { .. }));
}

#[test]
fn docker_cannot_be_started() {
    let error = launch().resume(Err(fault("no docker"))).unwrap_err();
    assert!(matches!(error, Error::UnableToStartCompiler { .. }));
    assert_eq!(error.to_string(), "Unable to start the compiler: no docker");
}

#[test]
fn refused_container_is_the_outcome() {
    match launch().resume(Ok(output(125, "x", "no such image"))).unwrap() {
        Launched::Refused(output) => {
            assert_eq!(output.status.code(), Some(125));
            assert_eq!(output.stdout, b"x");
            assert_eq!(output.stderr, b"no such image");
        }
        Launched::Running(_) => panic!("nothing should run"),
    }
    let killed = Output {
        status: ExitStatus::Signaled(9),
        stdout: Vec::new(),
        stderr: Vec::new(),
    };
    match launch().resume(Ok(killed)).unwrap() {
        Launched::Refused(output) => {
            assert_eq!(output.status.code(), None);
            assert!(!output.status.success());
        }
        Launched::Running(_) => panic!("nothing should run"),
    }
}

#[test]
fn container_without_a_name() {
    let error = launch().resume(Ok(output(0, "", "noise"))).unwrap_err();
    assert!(matches!(error, Error::MissingCompilerId));
}

#[test]
fn every_stage_names_the_container() {
    assert_eq!(words(&wait().command()), format!("wait {}", ID));
    assert_eq!(words(&logs().command()), format!("logs {}", ID));
    let command = removal().command();
    assert_eq!(words(&command), format!("rm --force {}", ID));
    assert!(command.discard_stdout());
    assert!(!command.kill_on_drop());
}

#[test]
fn container_that_ends_in_time() {
    let output = removal().resume(Ok(ExitStatus::Exited(0))).unwrap();
    assert_eq!(output.status.code().unwrap(), 17);
    assert_eq!(output.stdout, b"out");
    assert_eq!(output.stderr, b"err");
    // How docker itself ended when it removed the container does not matter.
    let output = removal().resume(Ok(ExitStatus::Exited(1))).unwrap();
    assert_eq!(output.status, ExitStatus::Exited(17));
}

#[test]
fn container_that_outlasts_the_hard_timeout() {
    let logs = wait().resume(Err(elapsed())).unwrap();
    assert_eq!(words(&logs.command()), "logs 4f2ab7");
    let removal = logs.resume(Ok(output(0, "partial", ""))).unwrap();
    assert_eq!(words(&removal.command()), "rm --force 4f2ab7");
    let error = removal.resume(Ok(ExitStatus::Exited(0))).unwrap_err();
    assert!(matches!(error, Error::CompilerExecutionTimedOut { .. }));
    assert_eq!(
        error.to_string(),
        "Compiler execution took longer than 8000 ms"
    );
}

#[test]
fn failures_behind_the_start() {
    let error = wait().resume(Ok(Err(fault("w")))).unwrap_err();
    assert_eq!(error.to_string(), "Unable to wait for the compiler: w");
    let error = logs().resume(Err(fault("l"))).unwrap_err();
    assert_eq!(error.to_string(), "Unable to get output from the compiler: l");
    let error = removal().resume(Err(fault("r"))).unwrap_err();
    assert_eq!(error.to_string(), "Unable to remove the compiler: r");
    // A failed removal hides the timeout.
    let late = wait().resume(Err(elapsed())).unwrap();
    let removal = late.resume(Ok(output(0, "", ""))).unwrap();
    let error = removal.resume(Err(fault("r"))).unwrap_err();
    assert!(matches!(error, Error::UnableToRemoveCompiler { .. }));
}

#[test]
fn completed_sandbox_tells_what_was_written() {
    let completed = complete(
        builder(),
        Ok(output(17, "13\n", "this ends up on stderr\n")),
    )
    .unwrap();
    assert_eq!(completed.stdout(), "13\n");
    assert_eq!(completed.stderr(), "this ends up on stderr\n");
    assert_eq!(completed.status().code().unwrap(), 17);
    assert_eq!(completed.scratch(), "/tmp/playground.x");
}

#[test]
fn output_that_is_not_utf8_is_replaced() {
    let ran = Output {
        status: ExitStatus::Exited(0),
        stdout: vec![b'a', 0xff, b'b'],
        stderr: vec![0xe2, 0x82],
    };
    let completed = complete(builder(), Ok(ran)).unwrap();
    assert_eq!(completed.stdout(), "a\u{fffd}b");
    assert_eq!(completed.stderr(), "\u{fffd}");
    assert!(completed.status().success());
}

#[test]
fn failed_run_completes_nothing() {
    let error = complete(builder(), Err(Error::MissingCompilerId)).unwrap_err();
    assert!(matches!(error, Error::MissingCompilerId));
}

#[test]
fn mounted_files_are_read_back() {
    let mut builder = builder();
    builder.mount("/app/main.py", "code").unwrap();
    let id: MountId = builder.mount("/app/contents.txt", "Raspberry").unwrap();
    builder.mount("/app/later.txt", "").unwrap();
    let (sandbox, written) = build(builder);
    let completed = sandbox.execute().1.complete(Ok(output(0, "", ""))).unwrap();

    assert!(completed.has_mount(id));
    assert_eq!(completed.mount_path(id), written[1].0);
    let unchanged = written[1].1.as_bytes().to_vec();
    assert_eq!(
        completed.get_mount_output(id, Ok(unchanged)).unwrap(),
        "Raspberry"
    );
    let changed = b"Raspberry\nModified by the sandbox".to_vec();
    assert_eq!(
        completed.get_mount_output(id, Ok(changed)).unwrap(),
        "Raspberry\nModified by the sandbox"
    );
}

#[test]
fn mounted_files_that_cannot_be_read() {
    let mut builder = builder();
    let id = builder.mount("/app/a", "").unwrap();
    let completed = complete(builder, Ok(output(0, "", ""))).unwrap();
    let error = completed
        .get_mount_output(id, Err(fault("gone")))
        .unwrap_err();
    assert!(matches!(error, Error::ContainerPathExtensionMissing));
    let error = completed
        .get_mount_output(id, Ok(vec![b'a', 0xc0, 0x80]))
        .unwrap_err();
    assert!(matches!(error, Error::ContainerPathExtensionMissing));
}

#[test]
fn ids_of_another_sandbox_are_told_apart() {
    let mut first = numbered_builder(1);
    let id = first.mount("/x.txt", "A").unwrap();
    let out_of_range = first.mount("/z.txt", "C").unwrap();
    let mut second = numbered_builder(2);
    let own = second.mount("/y.txt", "B").unwrap();
    let completed = complete(second, Ok(output(0, "", ""))).unwrap();
    assert!(completed.has_mount(own));
    assert!(!completed.has_mount(id));
    assert!(!completed.has_mount(out_of_range));
    let completed = complete(first, Ok(output(0, "", ""))).unwrap();
    assert!(completed.has_mount(id));
    assert!(completed.has_mount(out_of_range));
    assert!(!completed.has_mount(own));
}

#[test]
fn mounts_as_volumes() {
    let request = MountRequest::new(PathStyle::Unix, "/tmp/in", 3, "/app/main.py", "code");
    assert_eq!(request.local_path(), "/tmp/in/3.txt");
    assert_eq!(request.contents(), "code");
    let mount = request.mount(Ok(())).unwrap();
    assert_eq!(mount.local_path(), "/tmp/in/3.txt");
    assert_eq!(mount.to_command(), "/tmp/in/3.txt:/app/main.py");

    let request = MountRequest::new(PathStyle::Unix, "/tmp/in", 0, "/app/main.py", "code");
    let error = request.mount(Err(fault("full"))).unwrap_err();
    assert!(matches!(error, Error::UnableToCreateSourceFile { .. }));
}

#[test]
fn files_on_a_system_with_backslashes() {
    let preparation = SandboxBuilder::new(
        "alpine",
        7,
        PathStyle::Windows,
        Ok("C:\\Temp\\playground.x".to_string()),
    )
    .unwrap();
    assert_eq!(preparation.inputs(), "C:\\Temp\\playground.x\\inputs");
    let mut builder = preparation.resume(Ok(())).unwrap();
    let id = builder.mount("/app/main.py", "code").unwrap();
    let (sandbox, written) = build(builder);
    let path = "C:\\Temp\\playground.x\\inputs\\0.txt";
    assert_eq!(written, vec![(path.to_string(), "code".to_string())]);
    assert!(words(&sandbox.docker_command())
        .ends_with(&format!("--volume {}:/app/main.py", path)));
    let completed = sandbox.execute().1.complete(Ok(output(0, "", ""))).unwrap();
    assert_eq!(completed.mount_path(id), path);
}
