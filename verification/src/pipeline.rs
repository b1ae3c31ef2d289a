use vstd::prelude::*;
use crate::decimal::{push_signed_decimal, signed_decimal};
use crate::homebrew::{homebrew_paths, homebrew_toolchain};
use crate::literal::{array_literal, render};
use crate::output::{decode, lossy_text};
use crate::toolchain::{DiscoveryError, LLVMPath, LLVMPathView};

verus! {

/// What an invocation is asked to assemble.
#[derive(Debug, Clone, PartialEq, Eq)]
pub struct Args {
    /// The target triple handed to the compiler.
    pub arch: String,
    /// The assembly source text.
    pub assembly: String,
}

/// The mathematical model of [`Args`].
pub struct ArgsView {
    pub arch: Seq<char>,
    pub assembly: Seq<char>,
}

impl View for Args {
    type V = ArgsView;

    open spec fn view(&self) -> ArgsView {
        ArgsView { arch: self.arch@, assembly: self.assembly@ }
    }
}

/// The paths of the three files of an invocation in its scratch directory.
#[derive(Debug, Clone, PartialEq, Eq)]
pub struct Scratch {
    /// The assembly source file.
    pub source: String,
    /// The object file that the compiler writes.
    pub object: String,
    /// The flat binary image that the object-copy utility writes.
    pub image: String,
}

/// The mathematical model of a [`Scratch`].
pub struct ScratchView {
    pub source: Seq<char>,
    pub object: Seq<char>,
    pub image: Seq<char>,
}

impl View for Scratch {
    type V = ScratchView;

    open spec fn view(&self) -> ScratchView {
        ScratchView { source: self.source@, object: self.object@, image: self.image@ }
    }
}

/// How a toolchain is looked for when no override names one.
#[derive(Debug, Clone, Copy, PartialEq, Eq, Structural)]
pub enum Strategy {
    /// Ask the package manager for the prefix under which the toolchain is
    /// installed.
    Homebrew,
    /// Try the versioned tool names on the search path.
    SearchPath,
}

/// How far an invocation has come. Each state holds what the steps still to
/// come need.
#[derive(Debug, Clone, PartialEq, Eq)]
pub enum State {
    /// The package manager was asked for the installation prefix.
    Querying { args: Args },
    /// A scratch directory was asked for.
    Preparing { toolchain: LLVMPath, args: Args },
    /// The assembly source is being written.
    Writing { toolchain: LLVMPath, arch: String, scratch: Scratch },
    /// The compiler runs.
    Compiling { toolchain: LLVMPath, scratch: Scratch },
    /// The object-copy utility runs.
    Stripping { llvm_objcopy: String, image: String },
    /// The flat binary image is being read.
    Reading,
    /// The invocation is over: it emitted its result or it aborted.
    Done,
}

/// The mathematical model of a [`State`].
pub enum StateView {
    Querying { args: ArgsView },
    Preparing { toolchain: LLVMPathView, args: ArgsView },
    Writing { toolchain: LLVMPathView, arch: Seq<char>, scratch: ScratchView },
    Compiling { toolchain: LLVMPathView, scratch: ScratchView },
    Stripping { llvm_objcopy: Seq<char>, image: Seq<char> },
    Reading,
    Done,
}

impl View for State {
    type V = StateView;

    open spec fn view(&self) -> StateView {
        match *self {
            State::Querying { args } => StateView::Querying { args: args@ },
            State::Preparing { toolchain, args } => StateView::Preparing {
                toolchain: toolchain@,
                args: args@,
            },
            State::Writing { toolchain, arch, scratch } => StateView::Writing {
                toolchain: toolchain@,
                arch: arch@,
                scratch: scratch@,
            },
            State::Compiling { toolchain, scratch } => StateView::Compiling {
                toolchain: toolchain@,
                scratch: scratch@,
            },
            State::Stripping { llvm_objcopy, image } => StateView::Stripping {
                llvm_objcopy: llvm_objcopy@,
                image: image@,
            },
            State::Reading => StateView::Reading,
            State::Done => StateView::Done,
        }
    }
}

/// What the host is asked to do next.
#[derive(Debug, Clone, PartialEq, Eq)]
pub enum Action {
    /// Run `program` with `args`, wait for it, and report how it exited.
    Run { program: String, args: Vec<String> },
    /// Create a fresh scratch directory and report the paths that the three
    /// named files have in it.
    Prepare { source: String, object: String, image: String },
    /// Write `text` to the file at `path`.
    Write { path: String, text: String },
    /// Read the whole file at `path`.
    Read { path: String },
    /// The invocation succeeded: `literal` is the array literal to put at the
    /// call site.
    Emit { literal: String },
    /// The invocation failed: abort with `message`.
    Abort { message: String },
}

/// The mathematical model of an [`Action`].
pub enum ActionView {
    Run { program: Seq<char>, args: Seq<Seq<char>> },
    Prepare { source: Seq<char>, object: Seq<char>, image: Seq<char> },
    Write { path: Seq<char>, text: Seq<char> },
    Read { path: Seq<char> },
    Emit { literal: Seq<char> },
    Abort { message: Seq<char> },
}

impl View for Action {
    type V = ActionView;

    open spec fn view(&self) -> ActionView {
        match *self {
            Action::Run { program, args } => ActionView::Run {
                program: program@,
                args: args.deep_view(),
            },
            Action::Prepare { source, object, image } => ActionView::Prepare {
                source: source@,
                object: object@,
                image: image@,
            },
            Action::Write { path, text } => ActionView::Write { path: path@, text: text@ },
            Action::Read { path } => ActionView::Read { path: path@ },
            Action::Emit { literal } => ActionView::Emit { literal: literal@ },
            Action::Abort { message } => ActionView::Abort { message: message@ },
        }
    }
}

/// What the host reports of the action it was asked for.
#[derive(Debug, Clone, PartialEq, Eq)]
pub enum Event {
    /// The program ran and exited. `code` is its exit code, `None` where it
    /// has none (a signal ended it).
    Exited { code: Option<i32>, stdout: Vec<u8>, stderr: Vec<u8> },
    /// The scratch directory exists; these are the paths in it.
    Prepared { scratch: Scratch },
    /// The file was written.
    Written,
    /// The file was read; these are its bytes.
    Contents { bytes: Vec<u8> },
    /// The action could not be carried out; `detail` says why.
    Failed { detail: String },
}

/// The mathematical model of an [`Event`].
pub enum EventView {
    Exited { code: Option<i32>, stdout: Seq<u8>, stderr: Seq<u8> },
    Prepared { scratch: ScratchView },
    Written,
    Contents { bytes: Seq<u8> },
    Failed { detail: Seq<char> },
}

impl View for Event {
    type V = EventView;

    open spec fn view(&self) -> EventView {
        match *self {
            Event::Exited { code, stdout, stderr } => EventView::Exited {
                code,
                stdout: stdout@,
                stderr: stderr@,
            },
            Event::Prepared { scratch } => EventView::Prepared { scratch: scratch@ },
            Event::Written => EventView::Written,
            Event::Contents { bytes } => EventView::Contents { bytes: bytes@ },
            Event::Failed { detail } => EventView::Failed { detail: detail@ },
        }
    }
}

/// The compiler's command line: assemble the preprocessed assembly source
/// for the target `arch` into the object file, as a single unit.
pub open spec fn compile_args(arch: Seq<char>, scratch: ScratchView) -> Seq<Seq<char>> {
    seq![
        "-target"@,
        arch,
        "-xassembler-with-cpp"@,
        "-o"@,
        scratch.object,
        "-c"@,
        scratch.source,
    ]
}

/// The object-copy utility's command line: strip the object file down to a
/// flat binary image.
pub open spec fn strip_args(scratch: ScratchView) -> Seq<Seq<char>> {
    seq!["-O"@, "binary"@, scratch.object, scratch.image]
}

/// The package manager's command line: print the installation prefix of the
/// toolchain package.
pub open spec fn query_args() -> Seq<Seq<char>> {
    seq!["--prefix"@, "llvm"@]
}

/// The diagnostic for a tool that did not exit with code zero: the tool, its
/// exit code and what it wrote to standard error.
pub open spec fn tool_failure(tool: Seq<char>, code: Option<i32>, diagnostics: Seq<char>) -> Seq<
    char,
> {
    match code {
        Some(status) => tool + " returned "@ + signed_decimal(status as int) + ". stderr:\n"@
            + diagnostics,
        None => "exit code not set"@,
    }
}

/// What the host failed at when it reports a failure in `state`. Nothing is
/// asked of the host once the invocation is over.
pub open spec fn failure_context(state: StateView) -> Seq<char>
    recommends
        !(state is Done),
{
    match state {
        StateView::Querying { .. } => "Failed to run brew command"@,
        StateView::Preparing { .. } => "Failed to create a temp dir"@,
        StateView::Writing { .. } => "Failed to write bingen.S"@,
        StateView::Compiling { .. } => "Failed to run clang"@,
        StateView::Stripping { .. } => "Failed to run objcopy"@,
        StateView::Reading => "Failed to open bingen.bin"@,
        StateView::Done => Seq::empty(),
    }
}

/// The end of an invocation that fails with `message`.
pub open spec fn aborted(message: Seq<char>) -> (StateView, ActionView) {
    (StateView::Done, ActionView::Abort { message })
}

/// The first step of an invocation whose toolchain is settled: ask for a
/// scratch directory with the three files of the invocation.
pub open spec fn started(toolchain: LLVMPathView, args: ArgsView) -> (StateView, ActionView) {
    (
        StateView::Preparing { toolchain, args },
        ActionView::Prepare { source: "bingen.S"@, object: "bingen.o"@, image: "bingen.bin"@ },
    )
}

/// The first step of an invocation that has to ask the package manager where
/// the toolchain is installed.
pub open spec fn queried(args: ArgsView) -> (StateView, ActionView) {
    (StateView::Querying { args }, ActionView::Run { program: "brew"@, args: query_args() })
}

/// The first step of an invocation, given how the search for a toolchain
/// ended.
pub open spec fn begun(located: Result<LLVMPathView, DiscoveryError>, args: ArgsView) -> (
    StateView,
    ActionView,
) {
    match located {
        Ok(toolchain) => started(toolchain, args),
        Err(error) => aborted(error.text()),
    }
}

/// What follows when a program has exited with `code` in `state`.
pub open spec fn after_exit(state: StateView, code: Option<i32>, stdout: Seq<u8>, stderr: Seq<u8>) -> (
    StateView,
    ActionView,
) {
    match state {
        StateView::Querying { args } => if code == Some(0i32) {
            started(homebrew_toolchain(lossy_text(stdout)), args)
        } else {
            aborted("Failed to get llvm path from brew: "@ + lossy_text(stderr))
        },
        StateView::Compiling { toolchain, scratch } => if code == Some(0i32) {
            (
                StateView::Stripping { llvm_objcopy: toolchain.llvm_objcopy, image: scratch.image },
                ActionView::Run { program: toolchain.llvm_objcopy, args: strip_args(scratch) },
            )
        } else {
            aborted(tool_failure(toolchain.clang, code, lossy_text(stderr)))
        },
        StateView::Stripping { llvm_objcopy, image } => if code == Some(0i32) {
            (StateView::Reading, ActionView::Read { path: image })
        } else {
            aborted(tool_failure(llvm_objcopy, code, lossy_text(stderr)))
        },
        _ => aborted("unexpected event"@),
    }
}

/// The transition function of an invocation: the state that follows `state`
/// when the host reports `event`, and what the host is asked to do next.
///
/// A tool that exits with anything but code zero ends the invocation, and so
/// does every failure that the host reports. An event that does not answer
/// the action last asked for ends it too.
pub open spec fn next(state: StateView, event: EventView) -> (StateView, ActionView) {
    match event {
        EventView::Exited { code, stdout, stderr } => after_exit(state, code, stdout, stderr),
        EventView::Prepared { scratch } => match state {
            StateView::Preparing { toolchain, args } => (
                StateView::Writing { toolchain, arch: args.arch, scratch },
                ActionView::Write { path: scratch.source, text: args.assembly },
            ),
            _ => aborted("unexpected event"@),
        },
        EventView::Written => match state {
            StateView::Writing { toolchain, arch, scratch } => (
                StateView::Compiling { toolchain, scratch },
                ActionView::Run { program: toolchain.clang, args: compile_args(arch, scratch) },
            ),
            _ => aborted("unexpected event"@),
        },
        EventView::Contents { bytes } => match state {
            StateView::Reading => (
                StateView::Done,
                ActionView::Emit { literal: array_literal(bytes) },
            ),
            _ => aborted("unexpected event"@),
        },
        EventView::Failed { detail } => match state {
            StateView::Done => aborted("unexpected event"@),
            _ => aborted(failure_context(state) + ": "@ + detail),
        },
    }
}

/// Builds the compiler's command line.
pub fn compile_arguments(arch: &str, scratch: &Scratch) -> (args: Vec<String>)
    ensures
        args.deep_view() == compile_args(arch@, scratch@),
{
    let mut args: Vec<String> = Vec::new();
    args.push(String::from_str("-target"));
    args.push(String::from_str(arch));
    args.push(String::from_str("-xassembler-with-cpp"));
    args.push(String::from_str("-o"));
    args.push(scratch.object.clone());
    args.push(String::from_str("-c"));
    args.push(scratch.source.clone());
    assert(args.deep_view() =~= compile_args(arch@, scratch@));
    args
}

/// Builds the object-copy utility's command line.
pub fn strip_arguments(scratch: &Scratch) -> (args: Vec<String>)
    ensures
        args.deep_view() == strip_args(scratch@),
{
    let mut args: Vec<String> = Vec::new();
    args.push(String::from_str("-O"));
    args.push(String::from_str("binary"));
    args.push(scratch.object.clone());
    args.push(scratch.image.clone());
    assert(args.deep_view() =~= strip_args(scratch@));
    args
}

/// Builds the package manager's command line.
pub fn query_arguments() -> (args: Vec<String>)
    ensures
        args.deep_view() == query_args(),
{
    let mut args: Vec<String> = Vec::new();
    args.push(String::from_str("--prefix"));
    args.push(String::from_str("llvm"));
    assert(args.deep_view() =~= query_args());
    args
}

/// Renders the diagnostic for a tool that did not exit with code zero.
/// `diagnostics` is the text that the tool wrote to standard error.
pub fn tool_failure_message(tool: &str, code: Option<i32>, diagnostics: &str) -> (message: String)
    ensures
        message@ == tool_failure(tool@, code, diagnostics@),
{
    match code {
        Some(status) => {
            let mut message = String::from_str(tool);
            message.append(" returned ");
            push_signed_decimal(&mut message, status);
            message.append(". stderr:\n");
            message.append(diagnostics);
            message
        },
        None => String::from_str("exit code not set"),
    }
}

/// Ends the invocation with `message`.
fn abort(message: String) -> (out: (State, Action))
    ensures
        (out.0@, out.1@) == aborted(message@),
{
    (State::Done, Action::Abort { message })
}

/// Ends the invocation because the event does not answer the action last
/// asked for.
fn unexpected() -> (out: (State, Action))
    ensures
        (out.0@, out.1@) == aborted("unexpected event"@),
{
    abort(String::from_str("unexpected event"))
}

/// Ends the invocation because the host failed at `context`.
fn failed(context: &str, detail: String) -> (out: (State, Action))
    ensures
        (out.0@, out.1@) == aborted(context@ + ": "@ + detail@),
{
    let mut message = String::from_str(context);
    message.append(": ");
    message.append(detail.as_str());
    abort(message)
}

/// Starts an invocation with a settled toolchain.
pub fn start(toolchain: LLVMPath, args: Args) -> (out: (State, Action))
    ensures
        (out.0@, out.1@) == started(toolchain@, args@),
{
    (
        State::Preparing { toolchain, args },
        Action::Prepare {
            source: String::from_str("bingen.S"),
            object: String::from_str("bingen.o"),
            image: String::from_str("bingen.bin"),
        },
    )
}

/// Starts an invocation by asking the package manager where the toolchain
/// is installed.
pub fn query(args: Args) -> (out: (State, Action))
    ensures
        (out.0@, out.1@) == queried(args@),
{
    (
        State::Querying { args },
        Action::Run { program: String::from_str("brew"), args: query_arguments() },
    )
}

/// Starts an invocation once the search for a toolchain has ended: with the
/// toolchain found, or with the diagnostic of the search's failure.
pub fn begin(located: Result<LLVMPath, DiscoveryError>, args: Args) -> (out: (State, Action))
    ensures
        (out.0@, out.1@) == begun(
            match located {
                Ok(toolchain) => Ok(toolchain@),
                Err(error) => Err(error),
            },
            args@,
        ),
{
    match located {
        Ok(toolchain) => start(toolchain, args),
        Err(error) => abort(error.message()),
    }
}

impl State {
    /// Takes one step of the invocation: given what the host reports of the
    /// action last asked for, moves to the next state and says what to do
    /// next.
    pub fn step(self, event: Event) -> (out: (State, Action))
        ensures
            (out.0@, out.1@) == next(self@, event@),
    {
        match event {
            Event::Exited { code, stdout, stderr } => self.exited(code, stdout, stderr),
            Event::Prepared { scratch } => match self {
                State::Preparing { toolchain, args } => {
                    let Args { arch, assembly } = args;
                    let path = scratch.source.clone();
                    (State::Writing { toolchain, arch, scratch }, Action::Write { path, text: assembly })
                },
                _ => unexpected(),
            },
            Event::Written => match self {
                State::Writing { toolchain, arch, scratch } => {
                    let program = toolchain.clang.clone();
                    let args = compile_arguments(arch.as_str(), &scratch);
                    (State::Compiling { toolchain, scratch }, Action::Run { program, args })
                },
                _ => unexpected(),
            },
            Event::Contents { bytes } => match self {
                State::Reading => (State::Done, Action::Emit { literal: render(&bytes) }),
                _ => unexpected(),
            },
            Event::Failed { detail } => match self {
                State::Querying { .. } => failed("Failed to run brew command", detail),
                State::Preparing { .. } => failed("Failed to create a temp dir", detail),
                State::Writing { .. } => failed("Failed to write bingen.S", detail),
                State::Compiling { .. } => failed("Failed to run clang", detail),
                State::Stripping { .. } => failed("Failed to run objcopy", detail),
                State::Reading => failed("Failed to open bingen.bin", detail),
                State::Done => unexpected(),
            },
        }
    }

    /// The step taken when a program has exited.
    fn exited(self, code: Option<i32>, stdout: Vec<u8>, stderr: Vec<u8>) -> (out: (State, Action))
        ensures
            (out.0@, out.1@) == after_exit(self@, code, stdout@, stderr@),
    {
        let success = match code {
            Some(status) => status == 0,
            None => false,
        };
        match self {
            State::Querying { args } => {
                if success {
                    let printed = decode(&stdout);
                    start(homebrew_paths(printed.as_str()), args)
                } else {
                    let mut message = String::from_str("Failed to get llvm path from brew: ");
                    message.append(decode(&stderr).as_str());
                    abort(message)
                }
            },
            State::Compiling { toolchain, scratch } => {
                if success {
                    let LLVMPath { clang: _, llvm_objcopy } = toolchain;
                    let program = llvm_objcopy.clone();
                    let args = strip_arguments(&scratch);
                    let Scratch { source: _, object: _, image } = scratch;
                    (State::Stripping { llvm_objcopy, image }, Action::Run { program, args })
                } else {
                    let diagnostics = decode(&stderr);
                    abort(tool_failure_message(toolchain.clang.as_str(), code, diagnostics.as_str()))
                }
            },
            State::Stripping { llvm_objcopy, image } => {
                if success {
                    (State::Reading, Action::Read { path: image })
                } else {
                    let diagnostics = decode(&stderr);
                    abort(tool_failure_message(llvm_objcopy.as_str(), code, diagnostics.as_str()))
                }
            },
            _ => unexpected(),
        }
    }
}

} // verus!
