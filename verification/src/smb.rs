//! Path logic for the file-transfer client: UNC path validation, filename
//! extraction, destination planning for copies, and share extraction for
//! deletes and existence checks.
//!
//! The transport itself (authenticating to a share, moving bytes) is the
//! platform adapter's concern; everything the worker decides about paths is
//! here and verified.

use vstd::prelude::*;

use crate::credentials::Credential;
use crate::strutil::{find_char_from, last_index_of, spec_first_index_from, spec_last_index_of};

verus! {

/// Errors from file-transfer operations.
#[derive(Debug)]
pub enum SmbError {
    ConnectionFailed { path: String, message: String },
    CopyFailed { src_path: String, dest_path: String, message: String },
    DeleteFailed { path: String, message: String },
    PathNotFound(String),
    AccessDenied(String),
    NetworkError(String),
    Timeout { operation: String },
    InvalidPath(String),
}

impl SmbError {
    /// The error's message text.
    pub open spec fn spec_message(self) -> Seq<char> {
        match self {
            SmbError::ConnectionFailed { path, message } => "Connection failed to "@ + path@
                + ": "@ + message@,
            SmbError::CopyFailed { src_path, dest_path, message } => "File copy failed from "@
                + src_path@ + " to "@ + dest_path@ + ": "@ + message@,
            SmbError::DeleteFailed { path, message } => "File deletion failed for "@ + path@
                + ": "@ + message@,
            SmbError::PathNotFound(p) => "Path not found: "@ + p@,
            SmbError::AccessDenied(p) => "Access denied to "@ + p@,
            SmbError::NetworkError(m) => "Network error: "@ + m@,
            SmbError::Timeout { operation } => "Timeout during "@ + operation@,
            SmbError::InvalidPath(p) => "Invalid path format: "@ + p@,
        }
    }

    /// Render the error as text.
    pub fn message(&self) -> (r: String)
        ensures
            r@ == self.spec_message(),
    {
        match self {
            SmbError::ConnectionFailed { path, message } => String::from_str(
                "Connection failed to ",
            ).concat(path.as_str()).concat(": ").concat(message.as_str()),
            SmbError::CopyFailed { src_path, dest_path, message } => String::from_str(
                "File copy failed from ",
            ).concat(src_path.as_str()).concat(" to ").concat(dest_path.as_str()).concat(
                ": ",
            ).concat(message.as_str()),
            SmbError::DeleteFailed { path, message } => String::from_str(
                "File deletion failed for ",
            ).concat(path.as_str()).concat(": ").concat(message.as_str()),
            SmbError::PathNotFound(p) => String::from_str("Path not found: ").concat(p.as_str()),
            SmbError::AccessDenied(p) => String::from_str("Access denied to ").concat(p.as_str()),
            SmbError::NetworkError(m) => String::from_str("Network error: ").concat(m.as_str()),
            SmbError::Timeout { operation } => String::from_str("Timeout during ").concat(
                operation.as_str(),
            ),
            SmbError::InvalidPath(p) => String::from_str("Invalid path format: ").concat(
                p.as_str(),
            ),
        }
    }
}

/// An absolute network path: it begins with a doubled path separator.
pub open spec fn spec_is_unc(s: Seq<char>) -> bool {
    s.len() >= 2 && s[0] == '\\' && s[1] == '\\'
}

/// Check whether `path` is a UNC path.
pub fn is_unc_path(path: &str) -> (r: bool)
    ensures
        r == spec_is_unc(path@),
{
    let n = path.unicode_len();
    n >= 2 && path.get_char(0) == '\\' && path.get_char(1) == '\\'
}

/// The final path component: everything after the last separator, or the
/// whole path when it has no separator.
pub open spec fn spec_filename(s: Seq<char>) -> Seq<char> {
    match spec_last_index_of(s, '\\') {
        Some(i) => s.skip(i + 1),
        None => s,
    }
}

/// Extract the filename from a UNC path.
pub fn extract_filename(path: &str) -> (r: Option<&str>)
    ensures
        r matches Some(f) && f@ == spec_filename(path@),
{
    let n = path.unicode_len();
    match last_index_of(path, '\\') {
        Some(i) => {
            let f = path.substring_char(i + 1, n);
            proof {
                assert(path@.subrange(i + 1, n as int) =~= path@.skip(i + 1));
            }
            Some(f)
        },
        None => Some(path),
    }
}

/// The destination a copy lands at: the file keeps its name under the
/// destination share.
pub open spec fn spec_copy_destination(source_path: Seq<char>, dest_share: Seq<char>) -> Seq<
    char,
> {
    dest_share + "\\"@ + spec_filename(source_path)
}

/// Plan a copy onto a remote share: both paths must be absolute network
/// paths (a local validation error, not a transport error), and the
/// destination is the share joined with the source's filename.
pub fn plan_copy_destination(source_path: &str, dest_share: &str) -> (r: Result<String, SmbError>)
    ensures
        !spec_is_unc(source_path@) ==> (r matches Err(e) && e matches SmbError::InvalidPath(p)
            && p@ == "Source must be a UNC path: "@ + source_path@),
        spec_is_unc(source_path@) && !spec_is_unc(dest_share@) ==> (r matches Err(e)
            && e matches SmbError::InvalidPath(p) && p@ == "Destination must be a UNC path: "@
            + dest_share@),
        spec_is_unc(source_path@) && spec_is_unc(dest_share@) ==> (r matches Ok(d) && d@
            == spec_copy_destination(source_path@, dest_share@)),
{
    if !is_unc_path(source_path) {
        return Err(
            SmbError::InvalidPath(
                String::from_str("Source must be a UNC path: ").concat(source_path),
            ),
        );
    }
    if !is_unc_path(dest_share) {
        return Err(
            SmbError::InvalidPath(
                String::from_str("Destination must be a UNC path: ").concat(dest_share),
            ),
        );
    }
    let filename = match extract_filename(source_path) {
        Some(f) => f,
        None => {
            return Err(SmbError::InvalidPath(String::from_str("Cannot extract filename")));
        },
    };
    Ok(String::from_str(dest_share).concat("\\").concat(filename))
}

/// The share a file path lives on: everything before the last separator.
pub open spec fn spec_share_of_path(s: Seq<char>) -> Seq<char> {
    match spec_last_index_of(s, '\\') {
        Some(i) => s.subrange(0, i),
        None => Seq::empty(),
    }
}

/// Plan a delete: the path must be an absolute network path, and the
/// connection goes to everything before the last separator.
pub fn plan_delete_share(file_path: &str) -> (r: Result<String, SmbError>)
    ensures
        !spec_is_unc(file_path@) ==> (r matches Err(e) && e matches SmbError::InvalidPath(p) && p@
            == "Path must be a UNC path: "@ + file_path@),
        spec_is_unc(file_path@) ==> (r matches Ok(s) && s@ == spec_share_of_path(file_path@)),
{
    if !is_unc_path(file_path) {
        return Err(
            SmbError::InvalidPath(String::from_str("Path must be a UNC path: ").concat(file_path)),
        );
    }
    match last_index_of(file_path, '\\') {
        Some(i) => Ok(String::from_str(file_path.substring_char(0, i))),
        None => {
            proof {
                assert(file_path@[1] == '\\');
            }
            Err(SmbError::InvalidPath(String::from_str("Cannot extract share path")))
        },
    }
}

/// A delete tolerates "already gone": a failed deletion of a file that may
/// no longer exist is treated as success; every other outcome is passed
/// through.
pub fn tolerate_missing_on_delete(outcome: Result<(), SmbError>) -> (r: Result<(), SmbError>)
    ensures
        outcome is Ok ==> r is Ok,
        (outcome matches Err(e) && e matches SmbError::DeleteFailed { .. }) ==> r is Ok,
        (outcome matches Err(e) && !(e matches SmbError::DeleteFailed { .. })) ==> r == Err::<
            (),
            SmbError,
        >(outcome->Err_0),
{
    match outcome {
        Ok(()) => Ok(()),
        Err(SmbError::DeleteFailed { .. }) => Ok(()),
        Err(e) => Err(e),
    }
}

/// The number of leading separator characters trimmed before splitting a
/// path into server and share: pairs of separators are removed while the
/// path still begins with a doubled separator.
pub open spec fn spec_trim_leading_unc(s: Seq<char>) -> int
    decreases s.len(),
{
    if spec_is_unc(s) {
        2 + spec_trim_leading_unc(s.skip(2))
    } else {
        0
    }
}

/// The root of a share path: the server and share components, prefixed
/// with the doubled separator.  Extraction succeeds exactly when a
/// separator follows the server component, i.e. the trimmed path has at
/// least two components.
pub fn share_root_of_path(path: &str) -> (r: Result<String, SmbError>)
    ensures
        !spec_is_unc(path@) ==> (r matches Err(e) && e matches SmbError::InvalidPath(p) && p@
            == "Path must be a UNC path: "@ + path@),
        spec_is_unc(path@) ==> (match r {
            Ok(s) => spec_first_index_from(path@, spec_trim_leading_unc(path@), '\\') is Some
                && exists|server: Seq<char>, share: Seq<char>|
                s@ == #[trigger] spec_share_root(server, share) && spec_path_components(
                    path@,
                    server,
                    share,
                ),
            Err(e) => spec_first_index_from(path@, spec_trim_leading_unc(path@), '\\') is None
                && (e matches SmbError::InvalidPath(p) && p@ == "Invalid UNC path format"@),
        }),
{
    if !is_unc_path(path) {
        return Err(
            SmbError::InvalidPath(String::from_str("Path must be a UNC path: ").concat(path)),
        );
    }
    let n = path.unicode_len();
    proof {
        assert(path@.skip(0) =~= path@);
    }
    // mirror of repeated leading-separator trimming
    let mut start: usize = 0;
    while start < n && start + 1 < n && path.get_char(start) == '\\' && path.get_char(start + 1)
        == '\\'
        invariant
            start <= n,
            n == path@.len(),
            spec_trim_leading_unc(path@) == start + spec_trim_leading_unc(
                path@.skip(start as int),
            ),
        decreases n - start,
    {
        proof {
            assert(path@.skip(start as int).skip(2) =~= path@.skip(start + 2));
            assert(spec_is_unc(path@.skip(start as int)));
        }
        start = start + 2;
    }
    let sep1 = match find_char_from(path, start, '\\') {
        Some(i) => i,
        None => {
            return Err(SmbError::InvalidPath(String::from_str("Invalid UNC path format")));
        },
    };
    let server = path.substring_char(start, sep1);
    let share = match find_char_from(path, sep1 + 1, '\\') {
        Some(j) => path.substring_char(sep1 + 1, j),
        None => path.substring_char(sep1 + 1, n),
    };
    let r = String::from_str("\\\\").concat(server).concat("\\").concat(share);
    proof {
        assert(r@ == spec_share_root(server@, share@));
        assert(spec_path_components(path@, server@, share@));
    }
    Ok(r)
}

/// A share root assembled from a server and a share component.
pub open spec fn spec_share_root(server: Seq<char>, share: Seq<char>) -> Seq<char> {
    "\\\\"@ + server + "\\"@ + share
}

/// `server` and `share` are the first two separator-free components of
/// `path` after its trimmed leading separators.
pub open spec fn spec_path_components(path: Seq<char>, server: Seq<char>, share: Seq<char>) ->
    bool {
    let start = spec_trim_leading_unc(path);
    match spec_first_index_from(path, start, '\\') {
        Some(i) => {
            &&& server == path.subrange(start, i)
            &&& match spec_first_index_from(path, i + 1, '\\') {
                Some(j) => share == path.subrange(i + 1, j),
                None => share == path.skip(i + 1),
            }
        },
        None => false,
    }
}

/// Connection record for a remote share: the UNC path authenticated to and
/// whether the connection is still held.  The transport adapter performs
/// the actual session; the record tracks its state.
#[derive(Debug)]
pub struct SmbConnection {
    /// UNC path of the connection
    pub unc_path: String,
    /// Whether connection is established
    pub connected: bool,
}

impl SmbConnection {
    /// Open a connection record for a share.  A path that is not an
    /// absolute network path is rejected before any authentication attempt.
    pub fn connect(unc_path: &str, credentials: &Credential, timeout_seconds: u64) -> (r: Result<
        SmbConnection,
        SmbError,
    >)
        ensures
            spec_is_unc(unc_path@) ==> (r matches Ok(c) && c.unc_path@ == unc_path@
                && c.connected),
            !spec_is_unc(unc_path@) ==> (r matches Err(e) && e matches SmbError::InvalidPath(p)
                && p@ == "Path must be a UNC path: "@ + unc_path@),
    {
        if !is_unc_path(unc_path) {
            return Err(
                SmbError::InvalidPath(
                    String::from_str("Path must be a UNC path: ").concat(unc_path),
                ),
            );
        }
        Ok(SmbConnection { unc_path: String::from_str(unc_path), connected: true })
    }

    /// Release the connection record.
    pub fn disconnect(&mut self)
        ensures
            !final (self).connected,
            final (self).unc_path == old(self).unc_path,
    {
        self.connected = false;
    }
}

} // verus!
