//! The steps of an invocation, one by one.

use bingen::bingen;
use bingen::pipeline::{
    begin, compile_arguments, query, start, strip_arguments, tool_failure_message, Action, Args,
    Event, Scratch, State, Strategy,
};
use bingen::toolchain::{DiscoveryError, LLVMPath};

fn args() -> Args {
    Args { arch: "arm-linux-eabi".to_string(), assembly: "mov r0, r1".to_string() }
}

fn toolchain() -> LLVMPath {
    LLVMPath { clang: "/t/clang".to_string(), llvm_objcopy: "/t/llvm-objcopy".to_string() }
}

fn scratch() -> Scratch {
    Scratch {
        source: "/s/bingen.S".to_string(),
        object: "/s/bingen.o".to_string(),
        image: "/s/bingen.bin".to_string(),
    }
}

fn exited(code: Option<i32>, stderr: &[u8]) -> Event {
    Event::Exited { code, stdout: Vec::new(), stderr: stderr.to_vec() }
}

fn abort(message: &str) -> (State, Action) {
    (State::Done, Action::Abort { message: message.to_string() })
}

fn compiling() -> State {
    State::Compiling { toolchain: toolchain(), scratch: scratch() }
}

fn stripping() -> State {
    State::Stripping {
        llvm_objcopy: "/t/llvm-objcopy".to_string(),
        image: "/s/bingen.bin".to_string(),
    }
}

fn every_state() -> Vec<State> {
    vec![
        State::Querying { args: args() },
        State::Preparing { toolchain: toolchain(), args: args() },
        State::Writing { toolchain: toolchain(), arch: "arm-linux-eabi".to_string(), scratch: scratch() },
        compiling(),
        stripping(),
        State::Reading,
        State::Done,
    ]
}

#[test]
fn start_asks_for_a_scratch_directory() {
    assert_eq!(
        start(toolchain(), args()),
        (
            State::Preparing { toolchain: toolchain(), args: args() },
            Action::Prepare {
                source: "bingen.S".to_string(),
                object: "bingen.o".to_string(),
                image: "bingen.bin".to_string(),
            }
        )
    );
}

#[test]
fn query_asks_the_package_manager() {
    assert_eq!(
        query(args()),
        (
            State::Querying { args: args() },
            Action::Run {
                program: "brew".to_string(),
                args: vec!["--prefix".to_string(), "llvm".to_string()],
            }
        )
    );
}

#[test]
fn begin_starts_with_the_toolchain_found() {
    assert_eq!(begin(Ok(toolchain()), args()), start(toolchain(), args()));
}

#[test]
fn begin_aborts_with_the_diagnostic_of_the_search() {
    assert_eq!(
        begin(Err(DiscoveryError::NotFound), args()),
        abort("clang or llvm-objcopy not found")
    );
    assert_eq!(
        begin(Err(DiscoveryError::ClangPathNotSet), args()),
        abort("BINGEN_CLANG_PATH is not set")
    );
}

#[test]
fn both_overrides_skip_the_search() {
    for strategy in [Strategy::SearchPath, Strategy::Homebrew] {
        assert_eq!(
            bingen(
                args(),
                Some("/t/clang".to_string()),
                Some("/t/llvm-objcopy".to_string()),
                strategy
            ),
            start(toolchain(), args())
        );
    }
}

#[test]
fn compiler_override_alone_aborts() {
    for strategy in [Strategy::SearchPath, Strategy::Homebrew] {
        assert_eq!(
            bingen(args(), Some("/t/clang".to_string()), None, strategy),
            abort("BINGEN_OBJCOPY_PATH is not set")
        );
    }
}

#[test]
fn object_copy_override_alone_aborts() {
    for strategy in [Strategy::SearchPath, Strategy::Homebrew] {
        assert_eq!(
            bingen(args(), None, Some("/t/llvm-objcopy".to_string()), strategy),
            abort("BINGEN_CLANG_PATH is not set")
        );
    }
}

#[test]
fn without_overrides_the_package_manager_is_asked() {
    assert_eq!(bingen(args(), None, None, Strategy::Homebrew), query(args()));
}

#[test]
fn without_overrides_the_search_path_decides() {
    match bingen(args(), None, None, Strategy::SearchPath) {
        (State::Preparing { toolchain, args: kept }, action) => {
            assert_eq!(kept, args());
            assert_eq!((State::Preparing { toolchain: toolchain.clone(), args: kept }, action), start(toolchain, args()));
        }
        other => assert_eq!(other, abort("clang or llvm-objcopy not found")),
    }
}

#[test]
fn prefix_from_the_package_manager_settles_the_toolchain() {
    let state = State::Querying { args: args() };
    let event = Event::Exited {
        code: Some(0),
        stdout: b"/opt/homebrew/opt/llvm\n".to_vec(),
        stderr: b"Warning: ignored".to_vec(),
    };
    assert_eq!(
        state.step(event),
        start(
            LLVMPath {
                clang: "/opt/homebrew/opt/llvm/bin/clang".to_string(),
                llvm_objcopy: "/opt/homebrew/opt/llvm/bin/llvm-objcopy".to_string(),
            },
            args()
        )
    );
}

#[test]
fn failing_package_manager_aborts() {
    let state = State::Querying { args: args() };
    let event = Event::Exited {
        code: Some(1),
        stdout: b"/ignored\n".to_vec(),
        stderr: b"Error: No available formula".to_vec(),
    };
    assert_eq!(
        state.step(event),
        abort("Failed to get llvm path from brew: Error: No available formula")
    );
}

#[test]
fn scratch_directory_is_followed_by_writing_the_source() {
    let state = State::Preparing { toolchain: toolchain(), args: args() };
    assert_eq!(
        state.step(Event::Prepared { scratch: scratch() }),
        (
            State::Writing {
                toolchain: toolchain(),
                arch: "arm-linux-eabi".to_string(),
                scratch: scratch(),
            },
            Action::Write { path: "/s/bingen.S".to_string(), text: "mov r0, r1".to_string() }
        )
    );
}

#[test]
fn empty_assembly_is_passed_through() {
    let state = State::Preparing {
        toolchain: toolchain(),
        args: Args { arch: "arm-linux-eabi".to_string(), assembly: String::new() },
    };
    let (_, action) = state.step(Event::Prepared { scratch: scratch() });
    assert_eq!(action, Action::Write { path: "/s/bingen.S".to_string(), text: String::new() });
}

#[test]
fn written_source_is_followed_by_the_compiler() {
    let state = State::Writing {
        toolchain: toolchain(),
        arch: "arm-linux-eabi".to_string(),
        scratch: scratch(),
    };
    let (state, action) = state.step(Event::Written);
    assert_eq!(state, compiling());
    assert_eq!(
        action,
        Action::Run {
            program: "/t/clang".to_string(),
            args: vec![
                "-target".to_string(),
                "arm-linux-eabi".to_string(),
                "-xassembler-with-cpp".to_string(),
                "-o".to_string(),
                "/s/bingen.o".to_string(),
                "-c".to_string(),
                "/s/bingen.S".to_string(),
            ],
        }
    );
}

#[test]
fn compiler_command_line() {
    assert_eq!(
        compile_arguments("x86_64-unknown-linux-gnu", &scratch()),
        ["-target", "x86_64-unknown-linux-gnu", "-xassembler-with-cpp", "-o", "/s/bingen.o", "-c", "/s/bingen.S"]
    );
}

#[test]
fn object_copy_command_line() {
    assert_eq!(strip_arguments(&scratch()), ["-O", "binary", "/s/bingen.o", "/s/bingen.bin"]);
}

#[test]
fn successful_compiler_is_followed_by_object_copy() {
    let (state, action) = compiling().step(exited(Some(0), b"warning: ignored"));
    assert_eq!(state, stripping());
    assert_eq!(
        action,
        Action::Run {
            program: "/t/llvm-objcopy".to_string(),
            args: vec![
                "-O".to_string(),
                "binary".to_string(),
                "/s/bingen.o".to_string(),
                "/s/bingen.bin".to_string(),
            ],
        }
    );
}

#[test]
fn failing_compiler_aborts_with_its_diagnostic() {
    let stderr = b"error: unknown target triple 'no-such-triple'";
    assert_eq!(
        compiling().step(exited(Some(1), stderr)),
        abort("/t/clang returned 1. stderr:\nerror: unknown target triple 'no-such-triple'")
    );
}

#[test]
fn failing_compiler_without_output_still_says_why() {
    assert_eq!(compiling().step(exited(Some(70), b"")), abort("/t/clang returned 70. stderr:\n"));
}

#[test]
fn negative_exit_code() {
    assert_eq!(compiling().step(exited(Some(-1), b"x")), abort("/t/clang returned -1. stderr:\nx"));
}

#[test]
fn tool_without_exit_code_aborts() {
    assert_eq!(compiling().step(exited(None, b"killed")), abort("exit code not set"));
    assert_eq!(stripping().step(exited(None, b"killed")), abort("exit code not set"));
}

#[test]
fn successful_object_copy_is_followed_by_reading_the_image() {
    assert_eq!(
        stripping().step(exited(Some(0), b"")),
        (State::Reading, Action::Read { path: "/s/bingen.bin".to_string() })
    );
}

#[test]
fn failing_object_copy_aborts_with_its_diagnostic() {
    assert_eq!(
        stripping().step(exited(Some(2), b"llvm-objcopy: error: no such file")),
        abort("/t/llvm-objcopy returned 2. stderr:\nllvm-objcopy: error: no such file")
    );
}

#[test]
fn malformed_diagnostics_are_decoded_with_replacement_characters() {
    assert_eq!(
        compiling().step(exited(Some(1), b"bad \xff byte")),
        abort("/t/clang returned 1. stderr:\nbad \u{fffd} byte")
    );
}

#[test]
fn diagnostics_outside_ascii_are_kept() {
    assert_eq!(
        compiling().step(exited(Some(1), "Fehler: ungültig".as_bytes())),
        abort("/t/clang returned 1. stderr:\nFehler: ungültig")
    );
}

#[test]
fn image_is_emitted_as_an_array_literal() {
    assert_eq!(
        State::Reading.step(Event::Contents { bytes: vec![1, 0, 160, 225] }),
        (State::Done, Action::Emit { literal: "[1, 0, 160, 225]".to_string() })
    );
}

#[test]
fn empty_image_is_emitted_as_an_empty_array() {
    assert_eq!(
        State::Reading.step(Event::Contents { bytes: Vec::new() }),
        (State::Done, Action::Emit { literal: "[]".to_string() })
    );
}

#[test]
fn failure_message() {
    assert_eq!(
        tool_failure_message("clang-13", Some(1), "<stdin>:1:1: error: invalid instruction"),
        "clang-13 returned 1. stderr:\n<stdin>:1:1: error: invalid instruction"
    );
    assert_eq!(tool_failure_message("clang-13", Some(i32::MIN), ""), "clang-13 returned -2147483648. stderr:\n");
    assert_eq!(tool_failure_message("clang-13", None, "ignored"), "exit code not set");
}

#[test]
fn failure_of_the_host_names_what_failed() {
    let expected = [
        "Failed to run brew command: denied",
        "Failed to create a temp dir: denied",
        "Failed to write bingen.S: denied",
        "Failed to run clang: denied",
        "Failed to run objcopy: denied",
        "Failed to open bingen.bin: denied",
        "unexpected event",
    ];
    for (state, message) in every_state().into_iter().zip(expected) {
        assert_eq!(state.step(Event::Failed { detail: "denied".to_string() }), abort(message));
    }
}

#[test]
fn event_that_answers_nothing_asked_aborts() {
    for (position, state) in every_state().into_iter().enumerate() {
        if position != 1 {
            assert_eq!(
                state.clone().step(Event::Prepared { scratch: scratch() }),
                abort("unexpected event")
            );
        }
        if position != 2 {
            assert_eq!(state.clone().step(Event::Written), abort("unexpected event"));
        }
        if position != 5 {
            assert_eq!(
                state.clone().step(Event::Contents { bytes: vec![1] }),
                abort("unexpected event")
            );
        }
        if position != 0 && position != 3 && position != 4 {
            assert_eq!(state.step(exited(Some(0), b"")), abort("unexpected event"));
        }
    }
}

#[test]
fn finished_invocation_stays_finished() {
    let (state, _) = compiling().step(exited(Some(1), b"error"));
    let (state, action) = state.step(exited(Some(0), b""));
    assert_eq!(action, Action::Abort { message: "unexpected event".to_string() });
    let (state, action) = state.step(Event::Contents { bytes: vec![0, 4, 51, 213] });
    assert_eq!((state, action), abort("unexpected event"));
}

#[test]
fn same_reports_give_the_same_result() {
    let run = || {
        let (state, _) = stripping().step(exited(Some(0), b""));
        state.step(Event::Contents { bytes: vec![0, 5, 128, 210] })
    };
    assert_eq!(run(), run());
    assert_eq!(run().1, Action::Emit { literal: "[0, 5, 128, 210]".to_string() });
}
