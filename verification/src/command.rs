//! The commands of the tool, as a closed enum produced once at the boundary.
//!
//! The command word arrives as a string from the argument parser; an
//! unrecognised word becomes `InvalidCommand` carrying the raw input, and
//! the rest of the program matches on the enum alone.

use vstd::prelude::*;
use crate::error::SyncError;
use crate::text::str_eq;

verus! {

/// One of the three operations of the tool.
#[derive(Debug, Clone, Copy, PartialEq, Eq, Structural)]
pub enum CliCommand {
    Upload,
    Download,
    List,
}

impl CliCommand {
    /// Recognises a command word. Exactly the words `"upload"`,
    /// `"download"` and `"list"` are commands; any other word yields
    /// `InvalidCommand` carrying it verbatim.
    pub fn from_str(s: &str) -> (r: Result<CliCommand, SyncError>)
        ensures
            s@ == "upload"@ ==> r == Result::<CliCommand, SyncError>::Ok(CliCommand::Upload),
            s@ == "download"@ ==> r == Result::<CliCommand, SyncError>::Ok(CliCommand::Download),
            s@ == "list"@ ==> r == Result::<CliCommand, SyncError>::Ok(CliCommand::List),
            r is Err <==> s@ != "upload"@ && s@ != "download"@ && s@ != "list"@,
            r is Err ==> (r->Err_0 matches SyncError::InvalidCommand { command } && command@
                == s@),
    {
        proof {
            reveal_strlit("upload");
            reveal_strlit("download");
            reveal_strlit("list");
            assert("upload"@.len() == 6);
            assert("list"@.len() == 4);
            assert("download"@.len() == 8);
        }
        if str_eq(s, "upload") {
            Ok(CliCommand::Upload)
        } else if str_eq(s, "download") {
            Ok(CliCommand::Download)
        } else if str_eq(s, "list") {
            Ok(CliCommand::List)
        } else {
            Err(SyncError::InvalidCommand { command: String::from_str(s) })
        }
    }

    /// The command word for this command.
    pub fn to_str(&self) -> (r: &'static str)
        ensures
            *self == CliCommand::Upload ==> r@ == "upload"@,
            *self == CliCommand::Download ==> r@ == "download"@,
            *self == CliCommand::List ==> r@ == "list"@,
    {
        match self {
            CliCommand::Upload => "upload",
            CliCommand::Download => "download",
            CliCommand::List => "list",
        }
    }
}

/// The arguments of an `upload` invocation.
#[derive(Debug)]
pub struct UploadCmd {
    pub folder_name: String,
    pub album_name: String,
    pub downscale: bool,
}

/// The arguments of a `download` invocation.
#[derive(Debug)]
pub struct DownloadCmd {
    pub album_name: String,
}

} // verus!
