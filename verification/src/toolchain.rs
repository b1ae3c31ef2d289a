use vstd::prelude::*;

verus! {

/// The two executables an invocation needs: a clang-compatible compiler and
/// an object-copy utility.
#[derive(Debug, Clone, PartialEq, Eq)]
pub struct LLVMPath {
    pub clang: String,
    pub llvm_objcopy: String,
}

/// The mathematical model of an [`LLVMPath`].
pub struct LLVMPathView {
    pub clang: Seq<char>,
    pub llvm_objcopy: Seq<char>,
}

impl View for LLVMPath {
    type V = LLVMPathView;

    open spec fn view(&self) -> LLVMPathView {
        LLVMPathView { clang: self.clang@, llvm_objcopy: self.llvm_objcopy@ }
    }
}

/// Why no toolchain could be settled on.
#[derive(Debug, Clone, Copy, PartialEq, Eq, Structural)]
pub enum DiscoveryError {
    /// Only the object-copy override was given.
    ClangPathNotSet,
    /// Only the compiler override was given.
    ObjcopyPathNotSet,
    /// No candidate pair resolved on the search path.
    NotFound,
}

/// The name of the variable that overrides the compiler's path.
pub const CLANG_PATH_VARIABLE: &'static str = "BINGEN_CLANG_PATH";

/// The name of the variable that overrides the object-copy utility's path.
pub const OBJCOPY_PATH_VARIABLE: &'static str = "BINGEN_OBJCOPY_PATH";

impl DiscoveryError {
    /// The diagnostic text of this error.
    pub open spec fn text(self) -> Seq<char> {
        match self {
            DiscoveryError::ClangPathNotSet => "BINGEN_CLANG_PATH is not set"@,
            DiscoveryError::ObjcopyPathNotSet => "BINGEN_OBJCOPY_PATH is not set"@,
            DiscoveryError::NotFound => "clang or llvm-objcopy not found"@,
        }
    }

    /// Renders the diagnostic of this error.
    pub fn message(&self) -> (message: String)
        ensures
            message@ == self.text(),
    {
        match self {
            DiscoveryError::ClangPathNotSet => String::from_str("BINGEN_CLANG_PATH is not set"),
            DiscoveryError::ObjcopyPathNotSet => String::from_str("BINGEN_OBJCOPY_PATH is not set"),
            DiscoveryError::NotFound => String::from_str("clang or llvm-objcopy not found"),
        }
    }
}

/// What the two path overrides decide: a toolchain when both are given,
/// nothing when neither is, and a refusal when exactly one is.
pub open spec fn override_outcome(clang: Option<Seq<char>>, objcopy: Option<Seq<char>>) -> Result<
    Option<LLVMPathView>,
    DiscoveryError,
> {
    match (clang, objcopy) {
        (None, None) => Ok(None),
        (None, Some(_)) => Err(DiscoveryError::ClangPathNotSet),
        (Some(_), None) => Err(DiscoveryError::ObjcopyPathNotSet),
        (Some(c), Some(o)) => Ok(Some(LLVMPathView { clang: c, llvm_objcopy: o })),
    }
}

/// Settles the toolchain from the two path overrides alone.
///
/// Both overrides together are taken verbatim. One without the other is an
/// error, never a reason to search.
pub fn resolve_overrides(clang: Option<String>, objcopy: Option<String>) -> (outcome: Result<
    Option<LLVMPath>,
    DiscoveryError,
>)
    ensures
        match override_outcome(clang.deep_view(), objcopy.deep_view()) {
            Ok(Some(toolchain)) => outcome matches Ok(Some(found)) && found@ == toolchain,
            Ok(None) => outcome == Ok::<Option<LLVMPath>, DiscoveryError>(None),
            Err(error) => outcome == Err::<Option<LLVMPath>, DiscoveryError>(error),
        },
{
    match (clang, objcopy) {
        (None, None) => Ok(None),
        (None, Some(_)) => Err(DiscoveryError::ClangPathNotSet),
        (Some(_), None) => Err(DiscoveryError::ObjcopyPathNotSet),
        (Some(clang), Some(llvm_objcopy)) => Ok(Some(LLVMPath { clang, llvm_objcopy })),
    }
}

} // verus!
