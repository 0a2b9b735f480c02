# code-sandbox

A library for running code in temporary docker containers, with its decisions verified by Verus.

`src/` decides and never acts. Where a directory has to be created, a file written or docker run,
it returns what is to be done and takes back what came of it:

| Module      | What it holds                                                                  |
|-------------|--------------------------------------------------------------------------------|
| `builder`   | `SandboxBuilder`, and the build that asks for each mounted file to be written   |
| `mount`     | mount ids, requests and mounts, and the local file behind each                  |
| `command`   | the invocations of docker                                                       |
| `sandbox`   | `Sandbox` and its execution                                                     |
| `run`       | the life of a container: start, wait, logs, removal                             |
| `completed` | `CompletedSandbox`: output, exit status and mounted files                       |
| `error`     | the errors and what they say                                                    |
| `duration`, `output`, `path`, `text` | the values that the others are made of                 |
| `laws`      | what holds of the library as a whole                                            |

`app/` performs what `src/` asks for, with tokio processes and a temporary directory. It says how
the system writes its paths, and whether its exit codes have a sign.

## Timeouts

The soft timeout is handed to the container in `PLAYGROUND_TIMEOUT`, for its wrapper script to
enforce. The hard timeout bounds the wait for the container. Once the wait is over, for whichever
of the two reasons, the logs are fetched, and where that succeeds docker is asked to remove the
container.
