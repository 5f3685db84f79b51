//! Deriving the saved file's name and full path from the stream
//! response's metadata.
//!
//! The stream response must carry a `Content-Disposition` header of the
//! literal shape `attachment; filename="<name>"`; the quoted name is
//! taken verbatim and no fallback name is ever synthesized from the URL.

use vstd::prelude::*;

use crate::error::ErrorKind;
use crate::error::PipelineError;
use crate::strutil::str_eq;

verus! {

/// The literal prefix a usable `Content-Disposition` value must carry.
pub open spec fn disposition_prefix() -> Seq<char> {
    "attachment; filename=\""@
}

/// Whether a `Content-Disposition` value matches
/// `attachment; filename="<name>"` (the name may be empty).
pub open spec fn disposition_matches(h: Seq<char>) -> bool {
    &&& h.len() > disposition_prefix().len()
    &&& h.subrange(0, disposition_prefix().len() as int) == disposition_prefix()
    &&& h.last() == '"'
}

/// The name quoted inside a matching `Content-Disposition` value.
pub open spec fn disposition_name(h: Seq<char>) -> Seq<char> {
    h.subrange(disposition_prefix().len() as int, h.len() - 1)
}

/// The reason given when the stream response carries no
/// `Content-Disposition` header at all.
pub open spec fn no_disposition_text() -> Seq<char> {
    "stream response carried no Content-Disposition header"@
}

/// The reason given when the header value does not match the expected
/// quoted-filename pattern.
pub open spec fn bad_disposition_text() -> Seq<char> {
    "Content-Disposition did not name an attachment filename"@
}

/// What deriving the filename from a `Content-Disposition` value must
/// yield: the quoted name exactly when the value is present and matches
/// the pattern; otherwise the metadata error naming what was wrong.
pub open spec fn spec_derive_filename(header: Option<Seq<char>>) -> Result<
    Seq<char>,
    (ErrorKind, Seq<char>),
> {
    match header {
        None => Err((ErrorKind::MissingMetadata, no_disposition_text())),
        Some(h) => if disposition_matches(h) {
            Ok(disposition_name(h))
        } else {
            Err((ErrorKind::MissingMetadata, bad_disposition_text()))
        },
    }
}

/// Derives the filename from the stream response's `Content-Disposition`
/// value, exactly when the value is present and matches the pattern; an
/// absent or non-matching value is metadata the pipeline cannot use.
pub fn derive_filename(header: Option<&str>) -> (r: Result<String, PipelineError>)
    ensures
        match r {
            Ok(name) => spec_derive_filename(header.deep_view()) == Ok::<
                Seq<char>,
                (ErrorKind, Seq<char>),
            >(name@),
            Err(e) => spec_derive_filename(header.deep_view()) == Err::<
                Seq<char>,
                (ErrorKind, Seq<char>),
            >((e.spec_kind(), e.spec_message())),
        },
{
    let h = match header {
        Some(h) => h,
        None => {
            return Err(
                PipelineError::MissingMetadata(
                    "stream response carried no Content-Disposition header".to_owned(),
                ),
            );
        },
    };
    let prefix = "attachment; filename=\"";
    let hl = h.unicode_len();
    let pl = prefix.unicode_len();
    if hl <= pl {
        return Err(
            PipelineError::MissingMetadata(
                "Content-Disposition did not name an attachment filename".to_owned(),
            ),
        );
    }
    let head = h.substring_char(0, pl);
    if !str_eq(head, prefix) {
        return Err(
            PipelineError::MissingMetadata(
                "Content-Disposition did not name an attachment filename".to_owned(),
            ),
        );
    }
    if h.get_char(hl - 1) != '"' {
        return Err(
            PipelineError::MissingMetadata(
                "Content-Disposition did not name an attachment filename".to_owned(),
            ),
        );
    }
    let name = h.substring_char(pl, hl - 1);
    Ok(name.to_owned())
}

/// The destination path: directory, separator, filename.
pub open spec fn spec_destination_path(dir: Seq<char>, name: Seq<char>) -> Seq<char> {
    dir + "/"@ + name
}

/// Joins the destination directory and the derived filename. The path is
/// a pure function of its inputs, so running the pipeline twice over the
/// same input aims at the same path and may overwrite what the first run
/// wrote; nothing here guards against that.
pub fn destination_path(dir: &str, name: &str) -> (r: String)
    ensures
        r@ == spec_destination_path(dir@, name@),
{
    let mut s = dir.to_owned();
    s.append("/");
    s.append(name);
    s
}

/// What the whole filename decision must yield for one stream response:
/// the full destination path when the metadata is usable, the metadata
/// error otherwise.
pub open spec fn spec_plan_save_path(header: Option<Seq<char>>, dir: Seq<char>) -> Result<
    Seq<char>,
    (ErrorKind, Seq<char>),
> {
    match spec_derive_filename(header) {
        Ok(name) => Ok(spec_destination_path(dir, name)),
        Err(e) => Err(e),
    }
}

/// The whole filename decision for one stream response: from the header
/// value (if any) to the full path the body must be saved at.
pub fn plan_save_path(header: Option<&str>, dir: &str) -> (r: Result<String, PipelineError>)
    ensures
        match r {
            Ok(p) => spec_plan_save_path(header.deep_view(), dir@) == Ok::<
                Seq<char>,
                (ErrorKind, Seq<char>),
            >(p@),
            Err(e) => spec_plan_save_path(header.deep_view(), dir@) == Err::<
                Seq<char>,
                (ErrorKind, Seq<char>),
            >((e.spec_kind(), e.spec_message())),
        },
{
    let name = derive_filename(header)?;
    Ok(destination_path(dir, name.as_str()))
}

} // verus!
