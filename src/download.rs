use vstd::prelude::*;

use vstd::string::StringExecFns;

use crate::response::{decimal, push_decimal};

verus! {

/// The error type of `anyhow`, carried through unchanged.
#[verifier::external_type_specification]
#[verifier::external_body]
pub struct ExAnyhowError(anyhow::Error);

/// Why a download was refused or failed.
pub enum DownloadError {
    /// The destination directory already held files.
    DestinationNotEmpty,
    /// The download command exited unsuccessfully.
    CommandFailed,
    /// The download command left this many files instead of one.
    WrongFileCount { count: usize },
}

impl DownloadError {
    pub open spec fn message_text(&self) -> Seq<char> {
        match self {
            DownloadError::DestinationNotEmpty => "download client was passed an non-empty directory"@,
            DownloadError::CommandFailed => "yt-dlp command failed"@,
            DownloadError::WrongFileCount { count } => "yt-dlp created "@ + decimal(*count as nat)
                + " files instead of one"@,
        }
    }

    /// The error's message.
    pub fn message(&self) -> (r: String)
        ensures
            r@ == self.message_text(),
    {
        match self {
            DownloadError::DestinationNotEmpty => "download client was passed an non-empty directory".to_string(),
            DownloadError::CommandFailed => "yt-dlp command failed".to_string(),
            DownloadError::WrongFileCount { count } => {
                let mut r = "yt-dlp created ".to_string();
                push_decimal(&mut r, *count as u64);
                r.append(" files instead of one");
                r
            },
        }
    }
}

/// Fetches linked content into an empty directory with an external command.
pub struct DownloadClient {}

impl DownloadClient {
    /// A download client; it needs no configuration, so this never fails.
    pub fn new() -> (r: Result<DownloadClient, anyhow::Error>)
        ensures
            r is Ok,
    {
        Ok(DownloadClient {})
    }

    /// The check before a download: the destination must hold no entry.
    pub fn check_destination(&self, entries: usize) -> (r: Result<(), DownloadError>)
        ensures
            r is Ok <==> entries == 0,
            r is Err ==> r->Err_0 is DestinationNotEmpty,
    {
        if entries == 0 {
            Ok(())
        } else {
            Err(DownloadError::DestinationNotEmpty)
        }
    }

    /// The check after a download: the command succeeded and left exactly one file.
    pub fn check_output(&self, exit_success: bool, files: usize) -> (r: Result<(), DownloadError>)
        ensures
            r is Ok <==> exit_success && files == 1,
            !exit_success ==> r matches Err(DownloadError::CommandFailed),
            exit_success && files != 1 ==> (r matches Err(DownloadError::WrongFileCount { count })
                && count == files),
    {
        if !exit_success {
            Err(DownloadError::CommandFailed)
        } else if files != 1 {
            Err(DownloadError::WrongFileCount { count: files })
        } else {
            Ok(())
        }
    }
}

} // verus!
