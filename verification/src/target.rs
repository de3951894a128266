//! The compilation targets a native executable can be produced for, and
//! the parsing of a target name.
use vstd::prelude::*;

use crate::text::str_eq;

verus! {

/// A target platform for native code generation.
#[derive(Debug, Clone, Copy, PartialEq, Eq, Structural)]
pub enum CompilationTarget {
    X86_64Linux,
    X86_64MacOS,
    AArch64MacOS,
    AArch64Linux,
}

/// The lower-cased form of a string, as the standard library folds case.
pub uninterp spec fn lower_of(s: Seq<char>) -> Seq<char>;

/// Relies on `str::to_lowercase`: the result depends on the characters
/// alone.
#[verifier::external_body]
fn lowercase(s: &str) -> (r: String)
    ensures
        r@ == lower_of(s@),
{
    s.to_lowercase()
}

/// Which target a lower-cased name selects.
pub open spec fn target_of(s: Seq<char>) -> Option<CompilationTarget> {
    if s == "x86_64-linux"@ || s == "x86-64-linux"@ || s == "linux"@ {
        Some(CompilationTarget::X86_64Linux)
    } else if s == "x86_64-macos"@ || s == "x86-64-macos"@ || s == "macos"@ {
        Some(CompilationTarget::X86_64MacOS)
    } else if s == "aarch64-macos"@ || s == "arm64-macos"@ || s == "apple-silicon"@ {
        Some(CompilationTarget::AArch64MacOS)
    } else if s == "aarch64-linux"@ || s == "arm64-linux"@ {
        Some(CompilationTarget::AArch64Linux)
    } else {
        None
    }
}

/// The target an already lower-cased name selects, exactly as `target_of`
/// says.
pub fn target_for_name(s: &str) -> (r: Option<CompilationTarget>)
    ensures
        r == target_of(s@),
{
    if str_eq(s, "x86_64-linux") || str_eq(s, "x86-64-linux") || str_eq(s, "linux") {
        Some(CompilationTarget::X86_64Linux)
    } else if str_eq(s, "x86_64-macos") || str_eq(s, "x86-64-macos") || str_eq(s, "macos") {
        Some(CompilationTarget::X86_64MacOS)
    } else if str_eq(s, "aarch64-macos") || str_eq(s, "arm64-macos") || str_eq(
        s,
        "apple-silicon",
    ) {
        Some(CompilationTarget::AArch64MacOS)
    } else if str_eq(s, "aarch64-linux") || str_eq(s, "arm64-linux") {
        Some(CompilationTarget::AArch64Linux)
    } else {
        None
    }
}

impl CompilationTarget {
    /// Parses a target name, folding its case first.
    pub fn from_str(s: &str) -> (r: Option<CompilationTarget>)
        ensures
            r == target_of(lower_of(s@)),
    {
        let lowered = lowercase(s);
        target_for_name(lowered.as_str())
    }
}

} // verus!
