use vstd::prelude::*;

use crate::errors::TransferError;

verus! {

/// The name that the filename sanitizer gives to a raw client-supplied
/// filename. The full transformation (removal of an illegal character set
/// and of control characters, truncation to a bounded length) is not
/// restated here; it depends on the input alone.
pub uninterp spec fn sanitized_of(raw: Seq<char>) -> Seq<char>;

/// Relies on `sanitize_filename::sanitize`, with that crate's non-Windows
/// defaults: every occurrence of `/` and `\` (among other illegal
/// characters) is removed rather than kept, a name consisting only of dots
/// is replaced by the empty string, and the result is a function of the
/// input alone.
#[verifier::external_body]
fn sanitize_raw_name(raw: &String) -> (out: String)
    ensures
        out@ == sanitized_of(raw@),
        forall|i: int| 0 <= i < out@.len() ==> out@[i] != '/' && out@[i] != '\\',
        (forall|i: int| 0 <= i < raw@.len() ==> raw@[i] == '.') ==> out@.len() == 0,
{
    sanitize_filename::sanitize(raw)
}

/// A sanitized name that may actually be stored: non-empty, and not one of
/// the directory references `.` and `..`.
pub open spec fn valid_stored_name(name: Seq<char>) -> bool {
    name.len() > 0 && name != seq!['.'] && name != seq!['.', '.']
}

/// Whether a sanitized name may be stored: non-empty and not `.` or `..`.
pub fn name_is_usable(name: &String) -> (usable: bool)
    ensures
        usable == valid_stored_name(name@),
{
    proof {
        reveal_strlit(".");
        reveal_strlit("..");
        assert("."@ =~= seq!['.']);
        assert(".."@ =~= seq!['.', '.']);
    }
    let dot: String = ".".to_owned();
    let dotdot: String = "..".to_owned();
    !name.as_str().is_empty() && !(*name == dot) && !(*name == dotdot)
}

/// The filename sanitizer of the upload path: normalizes a client-supplied
/// filename into the on-disk name, and rejects the upload with
/// `InvalidName` exactly when sanitization leaves nothing usable.
pub fn sanitize_upload_name(raw: &String) -> (result: Result<String, TransferError>)
    ensures
        result is Ok <==> valid_stored_name(sanitized_of(raw@)),
        result is Ok ==> result->Ok_0@ == sanitized_of(raw@),
        result is Ok ==> forall|i: int|
            0 <= i < result->Ok_0@.len() ==> result->Ok_0@[i] != '/' && result->Ok_0@[i] != '\\',
        result is Err ==> result->Err_0 == TransferError::InvalidName,
{
    let name = sanitize_raw_name(raw);
    if name_is_usable(&name) {
        Ok(name)
    } else {
        Err(TransferError::InvalidName)
    }
}

} // verus!
