//! Dislodging: which container is read and where its payload goes.

use crate::args::DislodgeParams;
use vstd::prelude::*;
use vstd::string::StringExecFns;

verus! {

/// The container that is read where the parameters name none.
pub open spec fn default_container() -> Seq<char> {
    "output.binvid"@
}

/// The file that the payload goes to where the parameters name none.
pub open spec fn default_output() -> Seq<char> {
    "extracted_file.bin"@
}

/// The path of the container to read: the one given, or the default.
pub fn container_path(params: &DislodgeParams) -> (path: String)
    ensures
        path@ == match params@.in_path {
            Some(given) => given,
            None => default_container(),
        },
{
    match &params.in_path {
        Some(given) => given.clone(),
        None => String::from_str("output.binvid"),
    }
}

/// The path of the file to write: the one given, or the default.
pub fn output_path(params: &DislodgeParams) -> (path: String)
    ensures
        path@ == match params@.out_path {
            Some(given) => given,
            None => default_output(),
        },
{
    match &params.out_path {
        Some(given) => given.clone(),
        None => String::from_str("extracted_file.bin"),
    }
}

} // verus!
