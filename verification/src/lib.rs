use vstd::prelude::*;
use crate::pipeline::{aborted, begin, queried, query, start, started, Action, Args, State, StateView, Strategy};
use crate::search::get_llvm_path;
use crate::toolchain::{override_outcome, resolve_overrides, DiscoveryError};

pub mod decimal;
pub mod homebrew;
pub mod laws;
pub mod literal;
pub mod output;
pub mod pipeline;
pub mod search;
pub mod toolchain;

verus! {

/// Opens an invocation: settles the toolchain and says what the host has to
/// do first. [`State::step`] takes the invocation on from there.
///
/// `clang_override` and `objcopy_override` are the two path overrides. Given
/// together they are the toolchain, verbatim, and nothing is searched. One
/// without the other aborts the invocation. With neither, the toolchain is
/// looked for as `strategy` says: on the search path, right here, or by a
/// query to the package manager, which is then the first thing that the host
/// is asked to do.
pub fn bingen(
    args: Args,
    clang_override: Option<String>,
    objcopy_override: Option<String>,
    strategy: Strategy,
) -> (out: (State, Action))
    ensures
        match override_outcome(clang_override.deep_view(), objcopy_override.deep_view()) {
            Err(error) => (out.0@, out.1@) == aborted(error.text()),
            Ok(Some(toolchain)) => (out.0@, out.1@) == started(toolchain, args@),
            Ok(None) => match strategy {
                Strategy::Homebrew => (out.0@, out.1@) == queried(args@),
                Strategy::SearchPath => {
                    ||| (out.0@, out.1@) == aborted(DiscoveryError::NotFound.text())
                    ||| out.0@ matches StateView::Preparing { toolchain, .. } && (out.0@, out.1@)
                        == started(toolchain, args@)
                },
            },
        },
{
    match resolve_overrides(clang_override, objcopy_override) {
        Err(error) => begin(Err(error), args),
        Ok(Some(toolchain)) => start(toolchain, args),
        Ok(None) => match strategy {
            Strategy::Homebrew => query(args),
            Strategy::SearchPath => begin(get_llvm_path(), args),
        },
    }
}

} // verus!
