use vstd::prelude::*;
use crate::text::opt_string_text;

verus! {

/// The header value of the content type that
/// `rocket::http::ContentType::from_extension` finds for an extension
/// (matched without regard to ASCII case); `None` for an unknown one.
pub uninterp spec fn extension_content_type(ext: Seq<char>) -> Option<Seq<char>>;

/// The type rocket knows for `html`.
pub open spec fn html_type() -> Seq<char> {
    "text/html; charset=utf-8"@
}

/// The type rocket knows for `js`.
pub open spec fn javascript_type() -> Seq<char> {
    "text/javascript"@
}

/// The type rocket knows for `css`.
pub open spec fn css_type() -> Seq<char> {
    "text/css; charset=utf-8"@
}

/// Calls `rocket::http::ContentType::from_extension` and renders the type
/// found as a header value (its `Display`).
/// Claimed: the result is `extension_content_type` of the extension; for
/// `html`, `js` and `css` it is the entry of rocket's table of known media
/// types (`HTML`, `JavaScript`, `CSS` with their parameters).
#[verifier::external_body]
pub(crate) fn content_type_from_extension(ext: &str) -> (r: Option<String>)
    ensures
        opt_string_text(r) == extension_content_type(ext@),
        ext@ == "html"@ ==> opt_string_text(r) == Some(html_type()),
        ext@ == "js"@ ==> opt_string_text(r) == Some(javascript_type()),
        ext@ == "css"@ ==> opt_string_text(r) == Some(css_type()),
{
    ::rocket::http::ContentType::from_extension(ext).map(|ct| ct.to_string())
}

} // verus!
