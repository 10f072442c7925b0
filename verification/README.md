# deepseek_harness_gui

The decision logic of a desktop shell around DeepSeek Harness (`dsh`),
written in Verus and proved against its contracts.

The shell starts `dsh --profile web` on a local port, waits until its web UI
answers, keeps at most one instance alive, connects to remote instances,
shows external pages in child web views, and keeps a log directory per launch.
Everything that decides something lives in `src/`; everything that touches
the operating system or the network lives in `app/`, which asks the library
what to do next and hands back what it observed.

## Layout

- `src/backend/` – the business layer: the `dsh` lifecycle (`harness.rs`,
  a state machine from observed events to actions), probes and host
  normalization (`network.rs`), launch log directories (`logs.rs`), the tray
  and quit procedure (`tray.rs`), the child web view registry and URL policy
  (`webview.rs`), and the error type (`error.rs`).
- `src/platform/` – process trees: the `dsh` command line, the checks after a
  spawn, and the termination sequences of a Unix process group and of a
  Windows Job Object.
- `src/ipc.rs` – the stable error codes and messages the front end receives.
- `src/runtime.rs`, `src/logs.rs`, `src/os/`, `src/process.rs`,
  `src/protocol.rs` – the supervisor: its check rounds, its
  worker state machine, its harness commands and its session logs.
- `src/text.rs`, `src/url_parts.rs` – text helpers (decimal numbers, IPv4
  addresses, trimming) and the parts of a parsed URL.
- `app/` – a command-line host that runs the lifecycle with real processes,
  sockets and files.
- `tests/` – executable tests of the library.
