//! Resolving the target of a request.

use vstd::prelude::*;
use vstd::string::StringExecFns;
use crate::error::{Error, ErrorView};

verus! {

/// How `hyper` reads a target: `None` where it refuses the text, else
/// whether the target is in absolute form, with a scheme and an authority.
pub uninterp spec fn uri_form(url: Seq<char>) -> Option<bool>;

/// Reads a target with `hyper::Uri`.
///
/// Trusted: whether `Uri`'s `FromStr` accepts the text, and what
/// `Uri::is_absolute` says of the accepted target, depend on the text
/// alone.
#[verifier::external_body]
fn read_target(url: &str) -> (r: Option<bool>)
    ensures
        r == uri_form(url@),
{
    match url.parse::<hyper::Uri>() {
        Ok(uri) => Some(uri.is_absolute()),
        Err(_) => None,
    }
}

/// Whether a target can be handed to the transport: it is accepted as a
/// URI and is in absolute form.
pub open spec fn valid_target(url: Seq<char>) -> bool {
    uri_form(url) == Some(true)
}

/// The failure reported for a target that cannot be used.
pub open spec fn bad_target(url: Seq<char>) -> ErrorView {
    ErrorView::Parse("Cannot parse url `"@ + url + "`"@)
}

/// Judges a target by the form in which it was read: only an accepted
/// target in absolute form passes.
pub fn judge_target(url: &str, form: Option<bool>) -> (r: Result<(), Error>)
    ensures
        r is Ok <==> form == Some(true),
        r matches Err(error) ==> error@ == bad_target(url@),
{
    match form {
        Some(true) => Ok(()),
        _ => {
            let mut text = String::from_str("Cannot parse url `");
            text.append(url);
            text.append("`");
            Err(Error::Parse(text))
        },
    }
}

/// Resolves the target of a request, before any exchange is attempted.
pub fn resolve_target(url: &str) -> (r: Result<(), Error>)
    ensures
        r is Ok <==> valid_target(url@),
        r matches Err(error) ==> error@ == bad_target(url@),
{
    judge_target(url, read_target(url))
}

} // verus!
