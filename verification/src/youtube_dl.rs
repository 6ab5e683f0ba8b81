//! Finding the download tool: the steps that are taken, each decided from
//! what the step before found.

use crate::text::{trim, trimmed};
use vstd::prelude::*;
use vstd::string::StringExecFns;

verus! {

/// The permission bits that let owner, group and others execute a file.
pub const EXECUTE_BITS: u32 = 0o111;

/// What to do about the download tool.
pub enum ToolStep {
    /// Use the tool in the given directory as it is.
    UseLocal,
    /// Make the tool in the given directory executable, then use it.
    MakeLocalExecutable,
    /// Ask the system where the tool is installed.
    AskSystem,
    /// Use the tool that the system has at this path.
    UseSystem(String),
    /// Fetch the tool into the given directory and make it executable.
    Fetch,
}

/// The name of the tool's file.
pub open spec fn tool_name() -> Seq<char> {
    "yt-dlp"@
}

/// Where the tool is fetched from.
pub open spec fn tool_url() -> Seq<char> {
    "https://github.com/yt-dlp/yt-dlp/releases/latest/download/yt-dlp"@
}

/// The name of the tool's file.
pub fn tool_file_name() -> (name: String)
    ensures
        name@ == tool_name(),
{
    String::from_str("yt-dlp")
}

/// The URL that the tool is fetched from.
pub fn tool_source() -> (url: String)
    ensures
        url@ == tool_url(),
{
    String::from_str("https://github.com/yt-dlp/yt-dlp/releases/latest/download/yt-dlp")
}

/// Whether a file with the permission bits `mode` can be executed by
/// anyone.
pub fn is_executable(mode: u32) -> (yes: bool)
    ensures
        yes == (mode & EXECUTE_BITS != 0),
{
    mode & EXECUTE_BITS != 0
}

/// The permission bits `mode` with execution allowed to everyone.
pub fn make_executable(mode: u32) -> (made: u32)
    ensures
        made == mode | EXECUTE_BITS,
        is_executable_mode(made),
        made & !EXECUTE_BITS == mode & !EXECUTE_BITS,
{
    assert((mode | 0o111u32) & 0o111u32 != 0 && (mode | 0o111u32) & !0o111u32 == mode
        & !0o111u32) by (bit_vector);
    mode | EXECUTE_BITS
}

/// Whether the permission bits `mode` allow anyone to execute.
pub open spec fn is_executable_mode(mode: u32) -> bool {
    mode & EXECUTE_BITS != 0
}

/// The step after looking into the given directory: a tool that is there
/// is used, made executable first where it is not; without one the system
/// is asked.
pub fn after_local_check(exists: bool, executable: bool) -> (step: ToolStep)
    ensures
        exists && executable ==> step is UseLocal,
        exists && !executable ==> step is MakeLocalExecutable,
        !exists ==> step is AskSystem,
{
    if exists {
        if executable {
            ToolStep::UseLocal
        } else {
            ToolStep::MakeLocalExecutable
        }
    } else {
        ToolStep::AskSystem
    }
}

/// The step after asking the system: where the question succeeded and the
/// answer, without the white space around it, is not empty, the answer is
/// the path of the tool; else the tool is fetched.
pub fn after_system_check(succeeded: bool, answer: &str) -> (step: ToolStep)
    ensures
        succeeded && trimmed(answer@).len() > 0 ==> step is UseSystem && step->UseSystem_0@
            == trimmed(answer@),
        !(succeeded && trimmed(answer@).len() > 0) ==> step is Fetch,
{
    if !succeeded {
        return ToolStep::Fetch;
    }
    let path = trim(answer);
    if path.as_str().is_empty() {
        ToolStep::Fetch
    } else {
        ToolStep::UseSystem(path)
    }
}

} // verus!
