use vstd::prelude::*;
use crate::toolchain::{LLVMPath, LLVMPathView};

verus! {

/// `text` without one line ending at its end: a final line feed is dropped,
/// and a carriage return right before it too.
pub open spec fn trim_line_end(text: Seq<char>) -> Seq<char> {
    if text.len() > 0 && text.last() == '\n' {
        let line = text.drop_last();
        if line.len() > 0 && line.last() == '\r' {
            line.drop_last()
        } else {
            line
        }
    } else {
        text
    }
}

/// The toolchain under the installation prefix that the package manager
/// printed: both tools sit in the `bin` directory of the prefix.
pub open spec fn homebrew_toolchain(output: Seq<char>) -> LLVMPathView {
    let prefix = trim_line_end(output);
    LLVMPathView {
        clang: prefix + "/bin/clang"@,
        llvm_objcopy: prefix + "/bin/llvm-objcopy"@,
    }
}

/// Derives both tool paths from what `brew --prefix llvm` printed.
pub fn homebrew_paths(output: &str) -> (toolchain: LLVMPath)
    ensures
        toolchain@ == homebrew_toolchain(output@),
{
    let len = output.unicode_len();
    let mut end = len;
    if end > 0 && output.get_char(end - 1) == '\n' {
        end = end - 1;
        if end > 0 && output.get_char(end - 1) == '\r' {
            end = end - 1;
        }
    }
    let prefix = output.substring_char(0, end);
    assert(prefix@ =~= trim_line_end(output@));
    let clang = String::from_str(prefix).concat("/bin/clang");
    let llvm_objcopy = String::from_str(prefix).concat("/bin/llvm-objcopy");
    LLVMPath { clang, llvm_objcopy }
}

} // verus!
