use vstd::prelude::*;
use crate::ServeError;

verus! {

/// Type-specific metadata of a stored asset: image dimensions, or nothing
/// transformable.
#[derive(Clone, Copy, PartialEq, Eq, Structural, Debug)]
pub enum AssetMetadata {
    Image { width: u32, height: u32 },
    Other,
}

impl AssetMetadata {
    /// Stored image dimensions are positive.
    pub open spec fn wf(&self) -> bool {
        match self {
            AssetMetadata::Image { width, height } => 1 <= *width && 1 <= *height,
            AssetMetadata::Other => true,
        }
    }
}

/// One metadata record, read from the external store and never written back.
/// A record with `deleted` set is logically absent.
pub struct AssetRecord {
    pub content_type: String,
    pub deleted: bool,
    pub metadata: AssetMetadata,
}

impl AssetRecord {
    pub open spec fn wf(&self) -> bool {
        self.metadata.wf()
    }
}

/// The character sequences of a list of strings.
pub open spec fn views_of(list: Seq<String>) -> Seq<Seq<char>> {
    list.map_values(|s: String| s@)
}

/// Whether a content type occurs in the denylist.
pub open spec fn spec_denied(denylist: Seq<Seq<char>>, ct: Seq<char>) -> bool {
    exists|i: int| 0 <= i < denylist.len() && denylist[i] == ct
}

/// String equality over the character sequences.
pub fn str_eq(a: &str, b: &str) -> (r: bool)
    ensures
        r == (a@ == b@),
{
    let ao: String = a.to_owned();
    let bo: String = b.to_owned();
    ao == bo
}

/// Whether the list holds the given string.
pub fn contains_str(list: &Vec<String>, ct: &str) -> (r: bool)
    ensures
        r == spec_denied(views_of(list@), ct@),
{
    let mut i: usize = 0;
    while i < list.len()
        invariant
            0 <= i <= list@.len(),
            forall|j: int| 0 <= j < i ==> list@[j]@ != ct@,
        decreases list@.len() - i,
    {
        if str_eq(list[i].as_str(), ct) {
            assert(views_of(list@)[i as int] == ct@);
            return true;
        }
        i += 1;
    }
    assert(forall|j: int| 0 <= j < list@.len() ==> views_of(list@)[j] != ct@);
    false
}

/// The admission gate: a deleted record is indistinguishable from an absent
/// one, and a denylisted content type is refused even when not deleted.
/// Everything else is admitted.
pub fn gate(record: &AssetRecord, denylist: &Vec<String>) -> (r: Result<(), ServeError>)
    ensures
        record.deleted ==> r == Err::<(), ServeError>(ServeError::NotFound),
        !record.deleted && spec_denied(views_of(denylist@), record.content_type@) ==> r == Err::<
            (),
            ServeError,
        >(ServeError::ContentTypeNotAllowed),
        !record.deleted && !spec_denied(views_of(denylist@), record.content_type@) ==> r == Ok::<
            (),
            ServeError,
        >(()),
{
    if record.deleted {
        return Err(ServeError::NotFound);
    }
    if contains_str(denylist, record.content_type.as_str()) {
        return Err(ServeError::ContentTypeNotAllowed);
    }
    Ok(())
}

/// How the client is told to handle the body: render it, or download it.
#[derive(Clone, Copy, PartialEq, Eq, Structural, Debug)]
pub enum Disposition {
    Inline,
    Attachment,
}

impl Disposition {
    /// The header value carrying this choice.
    pub fn header_value(&self) -> (r: &'static str)
        ensures
            r@ == (match self {
                Disposition::Inline => "inline"@,
                Disposition::Attachment => "attachment"@,
            }),
    {
        match self {
            Disposition::Inline => "inline",
            Disposition::Attachment => "attachment",
        }
    }
}

/// The fixed allow-list of browser-renderable media types. It must stay in
/// lockstep with what upload-side validation accepts as media.
pub open spec fn spec_inline_type(ct: Seq<char>) -> bool {
    ||| ct == "image/jpeg"@
    ||| ct == "image/png"@
    ||| ct == "image/gif"@
    ||| ct == "image/webp"@
    ||| ct == "video/mp4"@
    ||| ct == "video/webm"@
    ||| ct == "video/webp"@
    ||| ct == "audio/quicktime"@
    ||| ct == "audio/mpeg"@
}

/// Disposition as a pure function of the final content type.
pub open spec fn spec_disposition(ct: Seq<char>) -> Disposition {
    if spec_inline_type(ct) {
        Disposition::Inline
    } else {
        Disposition::Attachment
    }
}

/// Renderable media is served inline; every other type prompts a download.
pub fn disposition_of(ct: &str) -> (r: Disposition)
    ensures
        r == spec_disposition(ct@),
{
    if str_eq(ct, "image/jpeg") || str_eq(ct, "image/png") || str_eq(ct, "image/gif") || str_eq(
        ct,
        "image/webp",
    ) || str_eq(ct, "video/mp4") || str_eq(ct, "video/webm") || str_eq(ct, "video/webp") || str_eq(
        ct,
        "audio/quicktime",
    ) || str_eq(ct, "audio/mpeg") {
        Disposition::Inline
    } else {
        Disposition::Attachment
    }
}

} // verus!
