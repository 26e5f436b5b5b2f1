//! The three outgoing request shapes: text moderation, image moderation,
//! and image upload. Each optional field appears on the wire exactly when
//! the caller set it; an unset field is omitted, never sent as null.

use vstd::prelude::*;

use crate::encode::{
    encode_object, entries_view, spec_encode_object, spec_has_key, lemma_has_key_concat,
    FieldValue,
};
use crate::text::{bool_string, spec_bool_string};

verus! {

/// One optional text field of a request object.
pub open spec fn opt_text_field(key: Seq<char>, v: Option<String>) -> Seq<(Seq<char>, FieldValue)> {
    match v {
        Some(s) => seq![(key, FieldValue::Text(s))],
        None => Seq::empty(),
    }
}

/// One optional boolean field of a request object.
pub open spec fn opt_flag_field(key: Seq<char>, v: Option<bool>) -> Seq<(Seq<char>, FieldValue)> {
    match v {
        Some(b) => seq![(key, FieldValue::Flag(b))],
        None => Seq::empty(),
    }
}

/// A request to moderate a piece of text.
#[derive(Clone, Debug)]
pub struct TextModerationRequest {
    pub content: String,
    pub language: Option<String>,
    pub replace: Option<bool>,
    pub pii: Option<bool>,
    pub replace_severity: Option<String>,
    pub moderation_profile_id: Option<String>,
}

/// The wire object of a text moderation request: `content` always, each
/// optional field exactly when set, in this order.
pub open spec fn spec_text_fields(r: TextModerationRequest) -> Seq<(Seq<char>, FieldValue)> {
    seq![("content"@, FieldValue::Text(r.content))] + opt_text_field("language"@, r.language)
        + opt_flag_field("replace"@, r.replace) + opt_flag_field("pii"@, r.pii)
        + opt_text_field("replaceSeverity"@, r.replace_severity) + opt_text_field(
        "moderationProfileId"@,
        r.moderation_profile_id,
    )
}

impl TextModerationRequest {
    /// The ordered fields of the outgoing JSON object.
    pub fn fields(&self) -> (r: Vec<(String, FieldValue)>)
        ensures
            entries_view(r@) == spec_text_fields(*self),
    {
        let mut v: Vec<(String, FieldValue)> = Vec::new();
        v.push((String::from_str("content"), FieldValue::Text(self.content.clone())));
        if let Some(x) = &self.language {
            v.push((String::from_str("language"), FieldValue::Text(x.clone())));
        }
        if let Some(x) = &self.replace {
            v.push((String::from_str("replace"), FieldValue::Flag(*x)));
        }
        if let Some(x) = &self.pii {
            v.push((String::from_str("pii"), FieldValue::Flag(*x)));
        }
        if let Some(x) = &self.replace_severity {
            v.push((String::from_str("replaceSeverity"), FieldValue::Text(x.clone())));
        }
        if let Some(x) = &self.moderation_profile_id {
            v.push((String::from_str("moderationProfileId"), FieldValue::Text(x.clone())));
        }
        proof {
            assert(entries_view(v@) =~= spec_text_fields(*self));
        }
        v
    }

    /// The JSON body sent to the text moderation endpoint.
    pub fn body(&self) -> (r: String)
        ensures
            r@ == spec_encode_object(spec_text_fields(*self)),
    {
        let fields = self.fields();
        encode_object(&fields)
    }
}

proof fn lemma_text_key_split(r: TextModerationRequest, key: Seq<char>)
    ensures
        spec_has_key(spec_text_fields(r), key) <==> (spec_has_key(
            seq![("content"@, FieldValue::Text(r.content))],
            key,
        ) || spec_has_key(opt_text_field("language"@, r.language), key) || spec_has_key(
            opt_flag_field("replace"@, r.replace),
            key,
        ) || spec_has_key(opt_flag_field("pii"@, r.pii), key) || spec_has_key(
            opt_text_field("replaceSeverity"@, r.replace_severity),
            key,
        ) || spec_has_key(opt_text_field("moderationProfileId"@, r.moderation_profile_id), key)),
{
    let f0 = seq![("content"@, FieldValue::Text(r.content))];
    let f1 = opt_text_field("language"@, r.language);
    let f2 = opt_flag_field("replace"@, r.replace);
    let f3 = opt_flag_field("pii"@, r.pii);
    let f4 = opt_text_field("replaceSeverity"@, r.replace_severity);
    let f5 = opt_text_field("moderationProfileId"@, r.moderation_profile_id);
    lemma_has_key_concat(f0, f1, key);
    lemma_has_key_concat(f0 + f1, f2, key);
    lemma_has_key_concat(f0 + f1 + f2, f3, key);
    lemma_has_key_concat(f0 + f1 + f2 + f3, f4, key);
    lemma_has_key_concat(f0 + f1 + f2 + f3 + f4, f5, key);
}

/// A key stands in the text request object exactly when the caller set
/// the field it belongs to; `content` always does.
pub proof fn lemma_text_fields_presence(r: TextModerationRequest)
    ensures
        spec_has_key(spec_text_fields(r), "content"@),
        spec_has_key(spec_text_fields(r), "language"@) <==> r.language is Some,
        spec_has_key(spec_text_fields(r), "replace"@) <==> r.replace is Some,
        spec_has_key(spec_text_fields(r), "pii"@) <==> r.pii is Some,
        spec_has_key(spec_text_fields(r), "replaceSeverity"@) <==> r.replace_severity is Some,
        spec_has_key(spec_text_fields(r), "moderationProfileId"@)
            <==> r.moderation_profile_id is Some,
{
    reveal_strlit("content");
    reveal_strlit("language");
    reveal_strlit("replace");
    reveal_strlit("pii");
    reveal_strlit("replaceSeverity");
    reveal_strlit("moderationProfileId");
    assert("content"@.len() == 7);
    assert("language"@.len() == 8);
    assert("replace"@.len() == 7);
    assert("pii"@.len() == 3);
    assert("replaceSeverity"@.len() == 15);
    assert("moderationProfileId"@.len() == 19);
    assert("content"@[0] == 'c');
    assert("replace"@[0] == 'r');
    let f0 = seq![("content"@, FieldValue::Text(r.content))];
    let f1 = opt_text_field("language"@, r.language);
    let f2 = opt_flag_field("replace"@, r.replace);
    let f3 = opt_flag_field("pii"@, r.pii);
    let f4 = opt_text_field("replaceSeverity"@, r.replace_severity);
    let f5 = opt_text_field("moderationProfileId"@, r.moderation_profile_id);
    lemma_text_key_split(r, "content"@);
    lemma_text_key_split(r, "language"@);
    lemma_text_key_split(r, "replace"@);
    lemma_text_key_split(r, "pii"@);
    lemma_text_key_split(r, "replaceSeverity"@);
    lemma_text_key_split(r, "moderationProfileId"@);
    assert(f0[0].0 == "content"@);
    if r.language is Some {
        assert(f1[0].0 == "language"@);
    }
    if r.replace is Some {
        assert(f2[0].0 == "replace"@);
    }
    if r.pii is Some {
        assert(f3[0].0 == "pii"@);
    }
    if r.replace_severity is Some {
        assert(f4[0].0 == "replaceSeverity"@);
    }
    if r.moderation_profile_id is Some {
        assert(f5[0].0 == "moderationProfileId"@);
    }
}

/// A request to moderate an image given inline (for example base64 data
/// or a URL, per the remote API's contract).
#[derive(Clone, Debug)]
pub struct ImageModerationRequest {
    pub image: String,
    pub language: Option<String>,
    pub moderation_profile_id: Option<String>,
    pub enable_ocr: Option<bool>,
    pub enhanced_ocr: Option<bool>,
    pub extract_metadata: Option<bool>,
}

/// The wire object of an image moderation request.
pub open spec fn spec_image_fields(r: ImageModerationRequest) -> Seq<(Seq<char>, FieldValue)> {
    seq![("image"@, FieldValue::Text(r.image))] + opt_text_field("language"@, r.language)
        + opt_text_field("moderationProfileId"@, r.moderation_profile_id) + opt_flag_field(
        "enableOcr"@,
        r.enable_ocr,
    ) + opt_flag_field("enhancedOcr"@, r.enhanced_ocr) + opt_flag_field(
        "extractMetadata"@,
        r.extract_metadata,
    )
}

impl ImageModerationRequest {
    /// The ordered fields of the outgoing JSON object.
    pub fn fields(&self) -> (r: Vec<(String, FieldValue)>)
        ensures
            entries_view(r@) == spec_image_fields(*self),
    {
        let mut v: Vec<(String, FieldValue)> = Vec::new();
        v.push((String::from_str("image"), FieldValue::Text(self.image.clone())));
        if let Some(x) = &self.language {
            v.push((String::from_str("language"), FieldValue::Text(x.clone())));
        }
        if let Some(x) = &self.moderation_profile_id {
            v.push((String::from_str("moderationProfileId"), FieldValue::Text(x.clone())));
        }
        if let Some(x) = &self.enable_ocr {
            v.push((String::from_str("enableOcr"), FieldValue::Flag(*x)));
        }
        if let Some(x) = &self.enhanced_ocr {
            v.push((String::from_str("enhancedOcr"), FieldValue::Flag(*x)));
        }
        if let Some(x) = &self.extract_metadata {
            v.push((String::from_str("extractMetadata"), FieldValue::Flag(*x)));
        }
        proof {
            assert(entries_view(v@) =~= spec_image_fields(*self));
        }
        v
    }

    /// The JSON body sent to the image moderation endpoint.
    pub fn body(&self) -> (r: String)
        ensures
            r@ == spec_encode_object(spec_image_fields(*self)),
    {
        let fields = self.fields();
        encode_object(&fields)
    }
}

proof fn lemma_image_key_split(r: ImageModerationRequest, key: Seq<char>)
    ensures
        spec_has_key(spec_image_fields(r), key) <==> (spec_has_key(
            seq![("image"@, FieldValue::Text(r.image))],
            key,
        ) || spec_has_key(opt_text_field("language"@, r.language), key) || spec_has_key(
            opt_text_field("moderationProfileId"@, r.moderation_profile_id),
            key,
        ) || spec_has_key(opt_flag_field("enableOcr"@, r.enable_ocr), key) || spec_has_key(
            opt_flag_field("enhancedOcr"@, r.enhanced_ocr),
            key,
        ) || spec_has_key(opt_flag_field("extractMetadata"@, r.extract_metadata), key)),
{
    let f0 = seq![("image"@, FieldValue::Text(r.image))];
    let f1 = opt_text_field("language"@, r.language);
    let f2 = opt_text_field("moderationProfileId"@, r.moderation_profile_id);
    let f3 = opt_flag_field("enableOcr"@, r.enable_ocr);
    let f4 = opt_flag_field("enhancedOcr"@, r.enhanced_ocr);
    let f5 = opt_flag_field("extractMetadata"@, r.extract_metadata);
    lemma_has_key_concat(f0, f1, key);
    lemma_has_key_concat(f0 + f1, f2, key);
    lemma_has_key_concat(f0 + f1 + f2, f3, key);
    lemma_has_key_concat(f0 + f1 + f2 + f3, f4, key);
    lemma_has_key_concat(f0 + f1 + f2 + f3 + f4, f5, key);
}

/// A key stands in the image request object exactly when the caller set
/// the field it belongs to; `image` always does.
pub proof fn lemma_image_fields_presence(r: ImageModerationRequest)
    ensures
        spec_has_key(spec_image_fields(r), "image"@),
        spec_has_key(spec_image_fields(r), "language"@) <==> r.language is Some,
        spec_has_key(spec_image_fields(r), "moderationProfileId"@)
            <==> r.moderation_profile_id is Some,
        spec_has_key(spec_image_fields(r), "enableOcr"@) <==> r.enable_ocr is Some,
        spec_has_key(spec_image_fields(r), "enhancedOcr"@) <==> r.enhanced_ocr is Some,
        spec_has_key(spec_image_fields(r), "extractMetadata"@) <==> r.extract_metadata is Some,
{
    reveal_strlit("image");
    reveal_strlit("language");
    reveal_strlit("moderationProfileId");
    reveal_strlit("enableOcr");
    reveal_strlit("enhancedOcr");
    reveal_strlit("extractMetadata");
    assert("image"@.len() == 5);
    assert("language"@.len() == 8);
    assert("moderationProfileId"@.len() == 19);
    assert("enableOcr"@.len() == 9);
    assert("enhancedOcr"@.len() == 11);
    assert("extractMetadata"@.len() == 15);
    let f0 = seq![("image"@, FieldValue::Text(r.image))];
    let f1 = opt_text_field("language"@, r.language);
    let f2 = opt_text_field("moderationProfileId"@, r.moderation_profile_id);
    let f3 = opt_flag_field("enableOcr"@, r.enable_ocr);
    let f4 = opt_flag_field("enhancedOcr"@, r.enhanced_ocr);
    let f5 = opt_flag_field("extractMetadata"@, r.extract_metadata);
    lemma_image_key_split(r, "image"@);
    lemma_image_key_split(r, "language"@);
    lemma_image_key_split(r, "moderationProfileId"@);
    lemma_image_key_split(r, "enableOcr"@);
    lemma_image_key_split(r, "enhancedOcr"@);
    lemma_image_key_split(r, "extractMetadata"@);
    assert(f0[0].0 == "image"@);
    if r.language is Some {
        assert(f1[0].0 == "language"@);
    }
    if r.moderation_profile_id is Some {
        assert(f2[0].0 == "moderationProfileId"@);
    }
    if r.enable_ocr is Some {
        assert(f3[0].0 == "enableOcr"@);
    }
    if r.enhanced_ocr is Some {
        assert(f4[0].0 == "enhancedOcr"@);
    }
    if r.extract_metadata is Some {
        assert(f5[0].0 == "extractMetadata"@);
    }
}

/// A request to moderate an image read from a local file, sent as a
/// multipart form: one binary part with the file's bytes and name, and
/// one text part per optional field that is set.
#[derive(Clone, Debug)]
pub struct ImageFileModerationRequest {
    pub file_path: String,
    pub language: Option<String>,
    pub moderation_profile_id: Option<String>,
    pub enable_ocr: Option<bool>,
    pub enhanced_ocr: Option<bool>,
    pub extract_metadata: Option<bool>,
}

/// One optional text part of the multipart form.
pub open spec fn opt_text_part(key: Seq<char>, v: Option<String>) -> Seq<(Seq<char>, Seq<char>)> {
    match v {
        Some(s) => seq![(key, s@)],
        None => Seq::empty(),
    }
}

/// One optional boolean part of the multipart form, rendered as text.
pub open spec fn opt_flag_part(key: Seq<char>, v: Option<bool>) -> Seq<(Seq<char>, Seq<char>)> {
    match v {
        Some(b) => seq![(key, spec_bool_string(b))],
        None => Seq::empty(),
    }
}

/// The names and values of the text parts the upload form carries,
/// in order: each present exactly when its field is set.
pub open spec fn spec_upload_text_parts(r: ImageFileModerationRequest) -> Seq<
    (Seq<char>, Seq<char>),
> {
    opt_text_part("language"@, r.language) + opt_text_part(
        "moderationProfileId"@,
        r.moderation_profile_id,
    ) + opt_flag_part("enableOcr"@, r.enable_ocr) + opt_flag_part("enhancedOcr"@, r.enhanced_ocr)
        + opt_flag_part("extractMetadata"@, r.extract_metadata)
}

/// The names and values of a list of built parts.
pub open spec fn parts_view(s: Seq<(String, String)>) -> Seq<(Seq<char>, Seq<char>)> {
    s.map_values(|e: (String, String)| (e.0@, e.1@))
}

impl ImageFileModerationRequest {
    /// The text parts of the multipart form, in order.
    pub fn text_parts(&self) -> (r: Vec<(String, String)>)
        ensures
            parts_view(r@) == spec_upload_text_parts(*self),
    {
        let mut v: Vec<(String, String)> = Vec::new();
        if let Some(x) = &self.language {
            v.push((String::from_str("language"), x.clone()));
        }
        if let Some(x) = &self.moderation_profile_id {
            v.push((String::from_str("moderationProfileId"), x.clone()));
        }
        if let Some(x) = &self.enable_ocr {
            v.push((String::from_str("enableOcr"), bool_string(*x)));
        }
        if let Some(x) = &self.enhanced_ocr {
            v.push((String::from_str("enhancedOcr"), bool_string(*x)));
        }
        if let Some(x) = &self.extract_metadata {
            v.push((String::from_str("extractMetadata"), bool_string(*x)));
        }
        proof {
            assert(parts_view(v@) =~= spec_upload_text_parts(*self));
        }
        v
    }

    /// The name under which the file's bytes are attached to the form.
    pub fn upload_name(&self) -> (r: String)
        ensures
            r@ == spec_upload_file_name(self.file_path@),
    {
        upload_file_name(self.file_path.as_str())
    }
}

/// The final segment of a path: the characters after the last separator,
/// empty when the path is empty or ends in a separator.
pub open spec fn spec_final_segment(p: Seq<char>) -> Seq<char>
    decreases p.len(),
{
    if p.len() == 0 {
        Seq::empty()
    } else if p.last() == '/' {
        Seq::empty()
    } else {
        spec_final_segment(p.drop_last()) + seq![p.last()]
    }
}

/// The file name a path library reads from a path: trailing separators
/// are ignored, a `.` segment is dropped, and there is no file name for
/// an empty path or one whose last real segment is `..`.
pub open spec fn spec_path_file_name(p: Seq<char>) -> Option<Seq<char>>
    decreases p.len(),
{
    if p.len() == 0 {
        None
    } else if p.last() == '/' {
        spec_path_file_name(p.drop_last())
    } else if spec_final_segment(p) == seq!['.'] {
        spec_path_file_name(p.drop_last())
    } else if spec_final_segment(p) == seq!['.', '.'] {
        None
    } else {
        Some(spec_final_segment(p))
    }
}

/// The name given to an uploaded file: the placeholder `image.jpg` when
/// the path is empty or ends in a separator, and otherwise the path's
/// file name, falling back to the placeholder again when the path yields
/// none (a bare `.` or a final `..`).
pub open spec fn spec_upload_file_name(p: Seq<char>) -> Seq<char> {
    if p.len() == 0 || p.last() == '/' {
        "image.jpg"@
    } else {
        match spec_path_file_name(p) {
            Some(s) => s,
            None => "image.jpg"@,
        }
    }
}

/// Everything from a cut just after the last separator onward is the
/// path's final segment.
proof fn lemma_final_segment_from_cut(p: Seq<char>, cut: int)
    requires
        0 <= cut <= p.len(),
        forall|j: int| cut <= j < p.len() ==> p[j] != '/',
        cut > 0 ==> p[cut - 1] == '/',
    ensures
        spec_final_segment(p) == p.skip(cut),
    decreases p.len(),
{
    if p.len() == 0 {
        assert(p.skip(cut) =~= Seq::<char>::empty());
    } else if cut == p.len() {
        assert(p.last() == '/');
        assert(p.skip(cut) =~= Seq::<char>::empty());
    } else {
        assert(p.last() != '/');
        lemma_final_segment_from_cut(p.drop_last(), cut);
        assert(p.skip(cut) =~= p.drop_last().skip(cut) + seq![p.last()]);
    }
}

/// Derives a path's file name, as `spec_path_file_name` states it.
fn path_file_name(path: &str) -> (r: Option<String>)
    ensures
        match r {
            Some(s) => spec_path_file_name(path@) == Some(s@),
            None => spec_path_file_name(path@) is None,
        },
    decreases path@.len(),
{
    let len = path.unicode_len();
    if len == 0 {
        return None;
    }
    if path.get_char(len - 1) == '/' {
        let prefix = path.substring_char(0, len - 1);
        proof {
            assert(prefix@ =~= path@.drop_last());
        }
        return path_file_name(prefix);
    }
    let mut cut: usize = 0;
    let mut i: usize = 0;
    while i < len
        invariant
            len == path@.len(),
            cut <= i <= len,
            forall|j: int| cut <= j < i ==> path@[j] != '/',
            cut > 0 ==> path@[cut - 1] == '/',
        decreases len - i,
    {
        if path.get_char(i) == '/' {
            cut = i + 1;
        }
        i = i + 1;
    }
    proof {
        lemma_final_segment_from_cut(path@, cut as int);
        assert(cut < len) by {
            assert(path@[len - 1] != '/');
        }
    }
    if len - cut == 1 && path.get_char(cut) == '.' {
        proof {
            assert(path@.skip(cut as int) =~= seq!['.']);
        }
        let prefix = path.substring_char(0, len - 1);
        proof {
            assert(prefix@ =~= path@.drop_last());
        }
        return path_file_name(prefix);
    }
    if len - cut == 2 && path.get_char(cut) == '.' && path.get_char(cut + 1) == '.' {
        proof {
            assert(path@.skip(cut as int) =~= seq!['.', '.']);
        }
        return None;
    }
    proof {
        let seg = path@.skip(cut as int);
        assert(seg.len() == len - cut);
        if seg.len() == 1 {
            assert(seg[0] == path@[cut as int]);
            assert(seg != seq!['.']);
        }
        if seg.len() == 2 {
            assert(seg[0] == path@[cut as int]);
            assert(seg[1] == path@[cut as int + 1]);
            assert(seg != seq!['.', '.']);
        }
        assert(seq!['.'].len() == 1);
        assert(seq!['.', '.'].len() == 2);
    }
    let seg = path.substring_char(cut, len);
    proof {
        assert(seg@ =~= path@.skip(cut as int));
    }
    Some(String::from_str(seg))
}

/// Derives the upload file name from a path, as `spec_upload_file_name`
/// states it: the path's file name, or `image.jpg` when the path is
/// empty, ends in a separator, or yields no file name.
pub fn upload_file_name(path: &str) -> (r: String)
    ensures
        r@ == spec_upload_file_name(path@),
{
    let len = path.unicode_len();
    if len == 0 || path.get_char(len - 1) == '/' {
        return String::from_str("image.jpg");
    }
    match path_file_name(path) {
        Some(s) => s,
        None => String::from_str("image.jpg"),
    }
}

} // verus!
