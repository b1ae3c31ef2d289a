use vstd::prelude::*;
use crate::decimal::{decimal, push_decimal};
use crate::toolchain::{DiscoveryError, LLVMPath};

verus! {

/// The newest toolchain release whose versioned tool names are tried.
pub const NEWEST_VERSION: u64 = 13;

/// The oldest toolchain release whose versioned tool names are tried.
pub const OLDEST_VERSION: u64 = 6;

/// How many names are tried for one tool: the plain name, then three
/// spellings for each release.
pub const CANDIDATE_COUNT: usize = 25;

/// One spelling of a versioned tool name. For `clang` and release 13 the
/// three forms are `clang-13`, `clang-13.0` and `clang-130`.
pub open spec fn spelling(base: Seq<char>, version: nat, form: nat) -> Seq<char> {
    let stem = base + "-"@ + decimal(version);
    if form == 0 {
        stem
    } else if form == 1 {
        stem + ".0"@
    } else {
        stem + "0"@
    }
}

/// The name tried at position `i`: the plain name first, then the releases
/// from newest to oldest, each in its three spellings.
pub open spec fn candidate(base: Seq<char>, i: nat) -> Seq<char> {
    if i == 0 {
        base
    } else {
        spelling(base, (NEWEST_VERSION - (i - 1) / 3) as nat, ((i - 1) % 3) as nat)
    }
}

/// Every name tried for the tool `base`, in the order of trial.
pub open spec fn candidates(base: Seq<char>) -> Seq<Seq<char>> {
    Seq::new(CANDIDATE_COUNT as nat, |i: int| candidate(base, i as nat))
}

/// Builds one spelling of a versioned tool name.
fn spell(base: &str, version: u64, suffix: &str) -> (name: String)
    ensures
        name@ == base@ + "-"@ + decimal(version as nat) + suffix@,
{
    let mut name = String::from_str(base);
    name.append("-");
    push_decimal(&mut name, version);
    name.append(suffix);
    name
}

/// Lists the names under which the tool `base` is looked for.
pub fn candidate_names(base: &str) -> (names: Vec<String>)
    ensures
        names.deep_view() == candidates(base@),
{
    let mut names: Vec<String> = Vec::new();
    names.push(String::from_str(base));
    let mut version: u64 = NEWEST_VERSION;
    while version >= OLDEST_VERSION
        invariant
            OLDEST_VERSION - 1 <= version <= NEWEST_VERSION,
            names.len() == 1 + 3 * (NEWEST_VERSION - version),
            forall|i: int| 0 <= i < names.len() ==> (#[trigger] names[i])@ == candidate(base@, i as nat),
        decreases version,
    {
        proof {
            reveal_strlit("");
            reveal_strlit(".0");
            reveal_strlit("0");
        }
        let ghost before = names@;
        names.push(spell(base, version, ""));
        names.push(spell(base, version, ".0"));
        names.push(spell(base, version, "0"));
        proof {
            let n = before.len() as int;
            assert(names[n]@ =~= candidate(base@, n as nat));
            assert(names[n + 1]@ =~= candidate(base@, (n + 1) as nat));
            assert(names[n + 2]@ =~= candidate(base@, (n + 2) as nat));
            assert forall|i: int| 0 <= i < names.len() implies (#[trigger] names[i])@ == candidate(
                base@,
                i as nat,
            ) by {
                if i < n {
                    assert(names[i] == before[i]);
                }
            }
        }
        version = version - 1;
    }
    assert(names.deep_view() =~= candidates(base@));
    names
}

/// Looks an executable up by name, as `which::which` does: a name without a
/// path separator is searched in the directories of `PATH`, any other name
/// is taken as a path. `Some` holds the path of the executable found, with
/// what is not Unicode in it replaced; `None` stands for every failure.
///
/// The outcome depends on the search path and on the file system, so
/// nothing is claimed of it.
#[verifier::external_body]
fn which_path(name: &str) -> (found: Option<String>) {
    match which::which(name) {
        Ok(path) => Some(path.to_string_lossy().into_owned()),
        Err(_) => None,
    }
}

/// Looks up every name of `names`, in order.
pub fn probe(names: &Vec<String>) -> (found: Vec<Option<String>>)
    ensures
        found.len() == names.len(),
{
    let mut found: Vec<Option<String>> = Vec::new();
    let mut i: usize = 0;
    while i < names.len()
        invariant
            i <= names.len(),
            found.len() == i,
        decreases names.len() - i,
    {
        found.push(which_path(names[i].as_str()));
        i = i + 1;
    }
    found
}

/// Whether both tools resolved at position `i`.
pub open spec fn resolved(
    clang: Seq<Option<Seq<char>>>,
    objcopy: Seq<Option<Seq<char>>>,
    i: int,
) -> bool {
    &&& 0 <= i < clang.len()
    &&& i < objcopy.len()
    &&& clang[i] is Some
    &&& objcopy[i] is Some
}

/// Whether `i` is the first position at which both tools resolved.
pub open spec fn first_resolved(
    clang: Seq<Option<Seq<char>>>,
    objcopy: Seq<Option<Seq<char>>>,
    i: int,
) -> bool {
    &&& resolved(clang, objcopy, i)
    &&& forall|j: int| 0 <= j < i ==> !resolved(clang, objcopy, j)
}

/// Pairs the lookups of the two tools position by position and accepts the
/// first pair in which both resolved.
pub fn select_pair(clang: Vec<Option<String>>, objcopy: Vec<Option<String>>) -> (outcome: Result<
    LLVMPath,
    DiscoveryError,
>)
    ensures
        match outcome {
            Ok(toolchain) => exists|i: int|
                {
                    &&& first_resolved(clang.deep_view(), objcopy.deep_view(), i)
                    &&& toolchain@.clang == clang.deep_view()[i]->0
                    &&& toolchain@.llvm_objcopy == objcopy.deep_view()[i]->0
                },
            Err(error) => {
                &&& error == DiscoveryError::NotFound
                &&& forall|i: int| !resolved(clang.deep_view(), objcopy.deep_view(), i)
            },
        },
{
    let mut i: usize = 0;
    while i < clang.len() && i < objcopy.len()
        invariant
            forall|j: int| 0 <= j < i ==> !resolved(clang.deep_view(), objcopy.deep_view(), j),
        decreases clang.len() - i,
    {
        match (&clang[i], &objcopy[i]) {
            (Some(c), Some(o)) => {
                let toolchain = LLVMPath { clang: c.clone(), llvm_objcopy: o.clone() };
                assert(first_resolved(clang.deep_view(), objcopy.deep_view(), i as int));
                return Ok(toolchain);
            },
            _ => {},
        }
        i = i + 1;
    }
    Err(DiscoveryError::NotFound)
}

/// Searches the search path for a toolchain: each candidate name of the
/// compiler is paired with the candidate name of the object-copy utility at
/// the same position, and the first pair that resolves wins.
pub fn get_llvm_path() -> (outcome: Result<LLVMPath, DiscoveryError>)
    ensures
        outcome matches Err(error) ==> error == DiscoveryError::NotFound,
{
    let clang = probe(&candidate_names("clang"));
    let objcopy = probe(&candidate_names("llvm-objcopy"));
    select_pair(clang, objcopy)
}

} // verus!
