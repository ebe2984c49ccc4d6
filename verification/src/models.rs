//! The clip records: the content kind, a stored clip, a clip about to be
//! stored, the row shape read back from the store, and the transfer shape
//! handed to the user interface.

use vstd::prelude::*;
use crate::codec::{base64_encode, base64_len_fits, spec_base64_encode};
use crate::text::str_equals;

verus! {

broadcast use vstd::string::group_string_axioms;

/// What a clip holds.
#[derive(Debug, Clone, Copy, PartialEq, Eq, Structural)]
pub enum ContentType {
    Text,
    Html,
    Image,
    FilePath,
}

/// The name under which a content type is stored.
pub open spec fn spec_as_str(t: ContentType) -> Seq<char> {
    match t {
        ContentType::Text => "text"@,
        ContentType::Html => "html"@,
        ContentType::Image => "image"@,
        ContentType::FilePath => "file_path"@,
    }
}

/// The content type a stored name stands for; an unknown name reads as text.
pub open spec fn spec_parse(s: Seq<char>) -> ContentType {
    if s == "html"@ {
        ContentType::Html
    } else if s == "image"@ {
        ContentType::Image
    } else if s == "file_path"@ {
        ContentType::FilePath
    } else {
        ContentType::Text
    }
}

impl ContentType {
    /// The stored name: `text`, `html`, `image` or `file_path`.
    pub fn as_str(&self) -> (s: &'static str)
        ensures
            s@ == spec_as_str(*self),
    {
        match self {
            ContentType::Text => "text",
            ContentType::Html => "html",
            ContentType::Image => "image",
            ContentType::FilePath => "file_path",
        }
    }

    /// Reads a stored name back; anything but `html`, `image` and
    /// `file_path` is text.
    pub fn parse(s: &str) -> (t: Self)
        ensures
            t == spec_parse(s@),
    {
        if str_equals(s, "html") {
            ContentType::Html
        } else if str_equals(s, "image") {
            ContentType::Image
        } else if str_equals(s, "file_path") {
            ContentType::FilePath
        } else {
            ContentType::Text
        }
    }
}

/// Reading back the stored name of a content type gives that content type.
pub proof fn lemma_parse_as_str(t: ContentType)
    ensures
        spec_parse(spec_as_str(t)) == t,
{
    reveal_strlit("text");
    reveal_strlit("html");
    reveal_strlit("image");
    reveal_strlit("file_path");
    assert("text"@[0] != "html"@[0]);
    assert("text"@.len() != "image"@.len());
    assert("text"@.len() != "file_path"@.len());
    assert("html"@.len() != "image"@.len());
    assert("html"@.len() != "file_path"@.len());
    assert("image"@.len() != "file_path"@.len());
}

/// A name reads back to itself exactly when it is one of the four stored
/// names; every other name reads as text.
pub proof fn lemma_as_str_parse(s: Seq<char>)
    ensures
        spec_as_str(spec_parse(s)) == s <==> (s == "text"@ || s == "html"@ || s == "image"@
            || s == "file_path"@),
{
    reveal_strlit("text");
    reveal_strlit("html");
    reveal_strlit("image");
    reveal_strlit("file_path");
}

/// One pasteboard representation of a clip: a type identifier and its bytes.
#[derive(Debug, Clone)]
pub struct ClipRepresentation {
    pub uti: String,
    pub data: Vec<u8>,
}

/// A stored clip.
#[derive(Debug, Clone)]
pub struct Clip {
    pub id: i64,
    pub content_type: ContentType,
    pub text_content: Option<String>,
    pub image_data: Option<Vec<u8>>,
    pub content_hash: String,
    pub source_app: Option<String>,
    pub created_at: String,
    pub last_used_at: String,
    pub use_count: i64,
    pub is_pinned: bool,
}

/// A clip about to be stored.
#[derive(Debug, Clone)]
pub struct NewClip {
    pub content_type: ContentType,
    pub text_content: Option<String>,
    pub image_data: Option<Vec<u8>>,
    pub content_hash: String,
    pub source_app: Option<String>,
    pub representations: Vec<ClipRepresentation>,
}

/// A clip as handed to the user interface: the content type by name and
/// an image as a PNG data URL instead of raw bytes.
#[derive(Debug, Clone)]
pub struct ClipDto {
    pub id: i64,
    pub content_type: String,
    pub text_content: Option<String>,
    pub image_preview: Option<String>,
    pub source_app: Option<String>,
    pub created_at: String,
    pub last_used_at: String,
    pub use_count: i64,
    pub is_pinned: bool,
}

/// A clip row as the store returns it, with the content type by name.
#[derive(Debug, Clone)]
pub struct ClipRow {
    pub id: i64,
    pub content_type: String,
    pub text_content: Option<String>,
    pub image_data: Option<Vec<u8>>,
    pub content_hash: String,
    pub source_app: Option<String>,
    pub created_at: String,
    pub last_used_at: String,
    pub use_count: i64,
    pub is_pinned: bool,
}

/// The view of an optional string.
pub open spec fn opt_str_view(o: Option<String>) -> Option<Seq<char>> {
    match o {
        Some(s) => Some(s@),
        None => None,
    }
}

/// The prefix of a PNG data URL.
pub open spec fn png_data_url_prefix() -> Seq<char> {
    "data:image/png;base64,"@
}

/// The preview the interface shows for optional image bytes: a PNG data URL
/// with the Base64 text of the bytes.
pub open spec fn spec_image_preview(image: Option<Vec<u8>>) -> Option<Seq<char>> {
    match image {
        Some(d) => Some(png_data_url_prefix() + spec_base64_encode(d@)),
        None => None,
    }
}

/// Whether the image bytes of a clip, if any, can be rendered as Base64.
pub open spec fn preview_encodable(image: Option<Vec<u8>>) -> bool {
    match image {
        Some(d) => base64_len_fits(d@.len()),
        None => true,
    }
}

/// A copy of an optional string.
pub fn clone_opt_string(o: &Option<String>) -> (r: Option<String>)
    ensures
        r == *o,
{
    match o {
        Some(s) => Some(s.clone()),
        None => None,
    }
}

/// The PNG data URL for image bytes.
pub fn png_data_url(data: &Vec<u8>) -> (r: String)
    requires
        base64_len_fits(data@.len()),
    ensures
        r@ == png_data_url_prefix() + spec_base64_encode(data@),
{
    let b64 = base64_encode(data.as_slice());
    let mut url = "data:image/png;base64,".to_string();
    url.append(b64.as_str());
    url
}

impl Clip {
    /// The interface form of the clip: same fields, the content type by
    /// name, and an image as a PNG data URL.
    pub fn to_dto(&self) -> (d: ClipDto)
        requires
            preview_encodable(self.image_data),
        ensures
            d.id == self.id,
            d.content_type@ == spec_as_str(self.content_type),
            d.text_content == self.text_content,
            opt_str_view(d.image_preview) == spec_image_preview(self.image_data),
            d.source_app == self.source_app,
            d.created_at == self.created_at,
            d.last_used_at == self.last_used_at,
            d.use_count == self.use_count,
            d.is_pinned == self.is_pinned,
    {
        let image_preview = match &self.image_data {
            Some(data) => Some(png_data_url(data)),
            None => None,
        };
        ClipDto {
            id: self.id,
            content_type: self.content_type.as_str().to_string(),
            text_content: clone_opt_string(&self.text_content),
            image_preview,
            source_app: clone_opt_string(&self.source_app),
            created_at: self.created_at.clone(),
            last_used_at: self.last_used_at.clone(),
            use_count: self.use_count,
            is_pinned: self.is_pinned,
        }
    }
}

impl Clip {
    /// The clip that storing `new_clip` under `id` at time `now` creates:
    /// its content, fingerprint and source, used once, not pinned, created
    /// and last used at `now`.
    pub fn from_new_clip(new_clip: NewClip, id: i64, now: String) -> (c: Clip)
        ensures
            c.id == id,
            c.content_type == new_clip.content_type,
            c.text_content == new_clip.text_content,
            c.image_data == new_clip.image_data,
            c.content_hash == new_clip.content_hash,
            c.source_app == new_clip.source_app,
            c.created_at == now,
            c.last_used_at == now,
            c.use_count == 1,
            !c.is_pinned,
    {
        Clip {
            id,
            content_type: new_clip.content_type,
            text_content: new_clip.text_content,
            image_data: new_clip.image_data,
            content_hash: new_clip.content_hash,
            source_app: new_clip.source_app,
            created_at: now.clone(),
            last_used_at: now,
            use_count: 1,
            is_pinned: false,
        }
    }
}

impl ClipRow {
    /// The clip this row stores, with its content type read from its name.
    pub fn into_clip(self) -> (c: Clip)
        ensures
            c.id == self.id,
            c.content_type == spec_parse(self.content_type@),
            c.text_content == self.text_content,
            c.image_data == self.image_data,
            c.content_hash == self.content_hash,
            c.source_app == self.source_app,
            c.created_at == self.created_at,
            c.last_used_at == self.last_used_at,
            c.use_count == self.use_count,
            c.is_pinned == self.is_pinned,
    {
        Clip {
            id: self.id,
            content_type: ContentType::parse(self.content_type.as_str()),
            text_content: self.text_content,
            image_data: self.image_data,
            content_hash: self.content_hash,
            source_app: self.source_app,
            created_at: self.created_at,
            last_used_at: self.last_used_at,
            use_count: self.use_count,
            is_pinned: self.is_pinned,
        }
    }
}

/// The interface forms of a list of clips, in order.
pub fn clips_to_dtos(clips: &Vec<Clip>) -> (r: Vec<ClipDto>)
    requires
        forall|i: int| 0 <= i < clips@.len() ==> preview_encodable(#[trigger] clips@[i].image_data),
    ensures
        r@.len() == clips@.len(),
        forall|i: int|
            0 <= i < clips@.len() ==> {
                let d = #[trigger] r@[i];
                let c = clips@[i];
                &&& d.id == c.id
                &&& d.content_type@ == spec_as_str(c.content_type)
                &&& d.text_content == c.text_content
                &&& opt_str_view(d.image_preview) == spec_image_preview(c.image_data)
                &&& d.source_app == c.source_app
                &&& d.created_at == c.created_at
                &&& d.last_used_at == c.last_used_at
                &&& d.use_count == c.use_count
                &&& d.is_pinned == c.is_pinned
            },
{
    let mut r: Vec<ClipDto> = Vec::new();
    let n = clips.len();
    let mut i: usize = 0;
    while i < n
        invariant
            n == clips@.len(),
            i <= n,
            r@.len() == i,
            forall|k: int| 0 <= k < clips@.len() ==> preview_encodable(#[trigger] clips@[k].image_data),
            forall|k: int|
                0 <= k < i ==> {
                    let d = #[trigger] r@[k];
                    let c = clips@[k];
                    &&& d.id == c.id
                    &&& d.content_type@ == spec_as_str(c.content_type)
                    &&& d.text_content == c.text_content
                    &&& opt_str_view(d.image_preview) == spec_image_preview(c.image_data)
                    &&& d.source_app == c.source_app
                    &&& d.created_at == c.created_at
                    &&& d.last_used_at == c.last_used_at
                    &&& d.use_count == c.use_count
                    &&& d.is_pinned == c.is_pinned
                },
        decreases n - i,
    {
        let d = clips[i].to_dto();
        r.push(d);
        i = i + 1;
    }
    r
}

} // verus!
