use vstd::prelude::*;

use crate::errors::TransferError;
use crate::sanitize::valid_stored_name;

verus! {

/// What the filesystem reports about the path a download request resolves
/// to, directly under the upload directory.
#[derive(Clone, Copy, Debug, PartialEq, Eq, Structural)]
pub enum PathProbe {
    /// No entry of that name exists.
    Missing,
    /// An entry exists but is not a regular file (a directory, a device).
    NonFile,
    /// A regular file of that name exists.
    RegularFile,
}

/// A requested name that stays confined to the upload directory: it names
/// an entry directly inside it, so it holds no path separator and is not
/// one of the directory references `.` and `..`. The raw path parameter of
/// a download never passes through the upload sanitizer, so it is held to
/// this before any path is formed from it.
pub open spec fn confined_request_name(name: Seq<char>) -> bool {
    (forall|i: int| 0 <= i < name.len() ==> name[i] != '/' && name[i] != '\\')
        && valid_stored_name(name)
}

/// Whether the requested download name stays confined to the upload
/// directory.
pub fn request_name_confined(name: &String) -> (confined: bool)
    ensures
        confined == confined_request_name(name@),
{
    if !crate::sanitize::name_is_usable(name) {
        return false;
    }
    let s = name.as_str();
    let len = s.unicode_len();
    let mut i: usize = 0;
    while i < len
        invariant
            len == name@.len(),
            s@ == name@,
            i <= len,
            forall|j: int| 0 <= j < i ==> name@[j] != '/' && name@[j] != '\\',
        decreases len - i,
    {
        let c = s.get_char(i);
        if c == '/' || c == '\\' {
            return false;
        }
        i = i + 1;
    }
    true
}

/// Law: every name the upload path stores can be downloaded again. A name
/// the ingester accepts is usable and free of path separators — exactly
/// what the download path's confinement admits, so downloading by the
/// stored name is never refused on the name itself.
pub proof fn lemma_stored_name_is_downloadable(name: Seq<char>)
    requires
        valid_stored_name(name),
        forall|i: int| 0 <= i < name.len() ==> name[i] != '/' && name[i] != '\\',
    ensures
        confined_request_name(name),
{
}

/// The `Content-Disposition` header value that a download is served with:
/// an attachment named as the client requested.
pub open spec fn spec_attachment_disposition(name: Seq<char>) -> Seq<char> {
    "attachment; filename=\""@ + name + "\""@
}

/// Renders the `Content-Disposition` header value for a download of the
/// given requested name.
pub fn attachment_disposition(name: &str) -> (header: String)
    ensures
        header@ == spec_attachment_disposition(name@),
{
    let mut header = String::from_str("attachment; filename=\"");
    header.append(name);
    header.append("\"");
    header
}

/// What the transport sends back for an accepted download: the file's
/// bytes are streamed as the body, under these headers.
pub struct DownloadPlan {
    /// The `Content-Disposition` header value, naming the attachment as
    /// the client requested it.
    pub disposition: String,
}

/// The download responder's decision. A request is served exactly when the
/// requested name stays confined to the upload directory and resolves to an
/// existing regular file; every other request is answered `NotFound`, and
/// no file or directory entry comes into being either way.
pub fn resolve_download(requested: &String, probe: &PathProbe) -> (verdict: Result<
    DownloadPlan,
    TransferError,
>)
    ensures
        verdict is Ok <==> (*probe is RegularFile && confined_request_name(requested@)),
        verdict is Ok ==> verdict->Ok_0.disposition@ == spec_attachment_disposition(requested@),
        verdict is Err ==> verdict->Err_0 == TransferError::NotFound,
{
    if !request_name_confined(requested) {
        return Err(TransferError::NotFound);
    }
    match probe {
        PathProbe::RegularFile => Ok(
            DownloadPlan { disposition: attachment_disposition(requested.as_str()) },
        ),
        _ => Err(TransferError::NotFound),
    }
}

} // verus!
