//! Clipboard contents, their dedup fingerprint, and the change monitor that
//! reports a clipboard content once until something different is copied.

use vstd::prelude::*;
use crate::digest::{hex_sha256, spec_hex_sha256};
use crate::models::{opt_str_view, ClipRepresentation, ContentType, NewClip};
use crate::text::{is_file_path, spec_is_file_path};

verus! {

broadcast use vstd::string::group_string_axioms;

/// Something read from the system clipboard.
pub enum ClipboardContent {
    Text(String),
    Image(Vec<u8>),
    FilePath(String),
}

/// The mathematical value of a clipboard content.
pub enum ContentView {
    Text(Seq<char>),
    Image(Seq<u8>),
    FilePath(Seq<char>),
}

impl View for ClipboardContent {
    type V = ContentView;

    open spec fn view(&self) -> ContentView {
        match self {
            ClipboardContent::Text(t) => ContentView::Text(t@),
            ClipboardContent::Image(d) => ContentView::Image(d@),
            ClipboardContent::FilePath(p) => ContentView::FilePath(p@),
        }
    }
}

/// The view of an optional clipboard content.
pub open spec fn opt_content_view(o: Option<ClipboardContent>) -> Option<ContentView> {
    match o {
        Some(c) => Some(c@),
        None => None,
    }
}

/// The bytes of `text:`.
pub open spec fn text_tag() -> Seq<u8> {
    seq![116u8, 101u8, 120u8, 116u8, 58u8]
}

/// The bytes of `image:`.
pub open spec fn image_tag() -> Seq<u8> {
    seq![105u8, 109u8, 97u8, 103u8, 101u8, 58u8]
}

/// The bytes of `filepath:`.
pub open spec fn file_path_tag() -> Seq<u8> {
    seq![102u8, 105u8, 108u8, 101u8, 112u8, 97u8, 116u8, 104u8, 58u8]
}

/// The bytes that are digested for a content: a tag naming its kind, then
/// its payload (the UTF-8 bytes of a text or path, the bytes of an image).
pub open spec fn hash_preimage(c: ContentView) -> Seq<u8> {
    match c {
        ContentView::Text(t) => text_tag() + vstd::utf8::encode_utf8(t),
        ContentView::Image(d) => image_tag() + d,
        ContentView::FilePath(p) => file_path_tag() + vstd::utf8::encode_utf8(p),
    }
}

/// The dedup fingerprint of a content: SHA-256 of its tagged bytes, in hex.
pub open spec fn content_hash(c: ContentView) -> Seq<char> {
    spec_hex_sha256(hash_preimage(c))
}

/// How copied text is classified: a file path when it looks like one,
/// plain text otherwise.
pub open spec fn classify_text(t: Seq<char>) -> ContentView {
    if spec_is_file_path(t) {
        ContentView::FilePath(t)
    } else {
        ContentView::Text(t)
    }
}

/// Contents that differ, in kind or in payload, never feed the same bytes to
/// the digest; in particular a text and a file path with the same string are
/// digested differently.
pub proof fn lemma_hash_preimage_injective(c1: ContentView, c2: ContentView)
    requires
        hash_preimage(c1) == hash_preimage(c2),
    ensures
        c1 == c2,
{
    let b1 = hash_preimage(c1);
    let b2 = hash_preimage(c2);
    assert(b1[0] == b2[0]);
    match c1 {
        ContentView::Text(t1) => {
            assert(b1[0] == 116u8);
            match c2 {
                ContentView::Text(t2) => {
                    let e1 = vstd::utf8::encode_utf8(t1);
                    let e2 = vstd::utf8::encode_utf8(t2);
                    assert(e1 =~= b1.subrange(5, b1.len() as int));
                    assert(e2 =~= b2.subrange(5, b2.len() as int));
                    vstd::utf8::encode_utf8_decode_utf8(t1);
                    vstd::utf8::encode_utf8_decode_utf8(t2);
                },
                ContentView::Image(_) => {
                    assert(b2[0] == 105u8);
                },
                ContentView::FilePath(_) => {
                    assert(b2[0] == 102u8);
                },
            }
        },
        ContentView::Image(d1) => {
            assert(b1[0] == 105u8);
            match c2 {
                ContentView::Image(d2) => {
                    assert(d1 =~= b1.subrange(6, b1.len() as int));
                    assert(d2 =~= b2.subrange(6, b2.len() as int));
                },
                ContentView::Text(_) => {
                    assert(b2[0] == 116u8);
                },
                ContentView::FilePath(_) => {
                    assert(b2[0] == 102u8);
                },
            }
        },
        ContentView::FilePath(p1) => {
            assert(b1[0] == 102u8);
            match c2 {
                ContentView::FilePath(p2) => {
                    let e1 = vstd::utf8::encode_utf8(p1);
                    let e2 = vstd::utf8::encode_utf8(p2);
                    assert(e1 =~= b1.subrange(9, b1.len() as int));
                    assert(e2 =~= b2.subrange(9, b2.len() as int));
                    vstd::utf8::encode_utf8_decode_utf8(p1);
                    vstd::utf8::encode_utf8_decode_utf8(p2);
                },
                ContentView::Text(_) => {
                    assert(b2[0] == 116u8);
                },
                ContentView::Image(_) => {
                    assert(b2[0] == 105u8);
                },
            }
        },
    }
}

/// `v` with the bytes of `b` appended.
fn append_bytes(v: &mut Vec<u8>, b: &[u8])
    ensures
        final(v)@ == old(v)@ + b@,
{
    let n = b.len();
    let mut i: usize = 0;
    while i < n
        invariant
            n == b@.len(),
            i <= n,
            v@ == old(v)@ + b@.take(i as int),
        decreases n - i,
    {
        v.push(b[i]);
        i = i + 1;
        assert(v@ =~= old(v)@ + b@.take(i as int));
    }
    assert(b@.take(n as int) =~= b@);
}

impl ClipboardContent {
    /// The bytes digested for this content.
    fn preimage(&self) -> (v: Vec<u8>)
        ensures
            v@ == hash_preimage(self@),
    {
        match self {
            ClipboardContent::Text(t) => {
                let mut v: Vec<u8> = vec![116u8, 101u8, 120u8, 116u8, 58u8];
                assert(v@ =~= text_tag());
                append_bytes(&mut v, t.as_str().as_bytes());
                v
            },
            ClipboardContent::Image(d) => {
                let mut v: Vec<u8> = vec![105u8, 109u8, 97u8, 103u8, 101u8, 58u8];
                assert(v@ =~= image_tag());
                append_bytes(&mut v, d.as_slice());
                v
            },
            ClipboardContent::FilePath(p) => {
                let mut v: Vec<u8> = vec![102u8, 105u8, 108u8, 101u8, 112u8, 97u8, 116u8, 104u8, 58u8];
                assert(v@ =~= file_path_tag());
                append_bytes(&mut v, p.as_str().as_bytes());
                v
            },
        }
    }

    /// The dedup fingerprint: SHA-256 over a kind tag (`text:`, `image:` or
    /// `filepath:`) followed by the payload, as 64 lower-case hex chars.
    pub fn compute_hash(&self) -> (h: String)
        ensures
            h@ == content_hash(self@),
            h@.len() == 64,
    {
        let bytes = self.preimage();
        hex_sha256(bytes.as_slice())
    }

    /// The record to store for this content, carrying its fingerprint; it has
    /// no source application and no pasteboard representations yet.
    pub fn into_new_clip(self) -> (n: NewClip)
        ensures
            n.content_hash@ == content_hash(self@),
            n.source_app is None,
            n.representations@.len() == 0,
            match self@ {
                ContentView::Text(t) => {
                    &&& n.content_type == ContentType::Text
                    &&& opt_str_view(n.text_content) == Some(t)
                    &&& n.image_data is None
                },
                ContentView::Image(d) => {
                    &&& n.content_type == ContentType::Image
                    &&& n.text_content is None
                    &&& n.image_data matches Some(v) && v@ == d
                },
                ContentView::FilePath(p) => {
                    &&& n.content_type == ContentType::FilePath
                    &&& opt_str_view(n.text_content) == Some(p)
                    &&& n.image_data is None
                },
            },
    {
        let hash = self.compute_hash();
        let representations: Vec<ClipRepresentation> = Vec::new();
        match self {
            ClipboardContent::Text(text) => NewClip {
                content_type: ContentType::Text,
                text_content: Some(text),
                image_data: None,
                content_hash: hash,
                source_app: None,
                representations,
            },
            ClipboardContent::Image(data) => NewClip {
                content_type: ContentType::Image,
                text_content: None,
                image_data: Some(data),
                content_hash: hash,
                source_app: None,
                representations,
            },
            ClipboardContent::FilePath(path) => NewClip {
                content_type: ContentType::FilePath,
                text_content: Some(path),
                image_data: None,
                content_hash: hash,
                source_app: None,
                representations,
            },
        }
    }
}


/// Where the monitor reads the clipboard from. Implementations are free to
/// return anything; the monitor's guarantees hold for every answer.
pub trait ClipboardReader: Send {
    /// The current clipboard text, if there is any.
    fn get_text(&mut self) -> Option<String>;

    /// The current clipboard image as PNG bytes, if there is one.
    fn get_image(&mut self) -> Option<Vec<u8>>;
}

/// One step of text tracking: given the fingerprint of the last reported
/// text (if any) and newly read text, the fingerprint to remember and the
/// content to report. The text is reported, classified, exactly when its
/// fingerprint differs from the remembered one.
pub open spec fn text_step(mark: Option<Seq<char>>, text: Seq<char>) -> (Option<Seq<char>>, Option<ContentView>) {
    let c = classify_text(text);
    let h = content_hash(c);
    if mark == Some(h) {
        (mark, None)
    } else {
        (Some(h), Some(c))
    }
}

/// One step of image tracking, like `text_step` for image bytes.
pub open spec fn image_step(mark: Option<Seq<char>>, data: Seq<u8>) -> (Option<Seq<char>>, Option<ContentView>) {
    let c = ContentView::Image(data);
    let h = content_hash(c);
    if mark == Some(h) {
        (mark, None)
    } else {
        (Some(h), Some(c))
    }
}

/// Watches a clipboard and reports each new content once. Text and images
/// are tracked separately: each remembers the fingerprint of the last
/// content of its kind that was reported.
pub struct ClipboardMonitor<R: ClipboardReader> {
    pub reader: R,
    last_text_hash: Option<String>,
    last_image_hash: Option<String>,
}

impl<R: ClipboardReader> ClipboardMonitor<R> {
    /// Fingerprint of the last reported text or file path.
    pub closed spec fn text_mark(&self) -> Option<Seq<char>> {
        opt_str_view(self.last_text_hash)
    }

    /// Fingerprint of the last reported image.
    pub closed spec fn image_mark(&self) -> Option<Seq<char>> {
        opt_str_view(self.last_image_hash)
    }

    /// The clipboard reader the monitor polls.
    pub closed spec fn spec_reader(&self) -> R {
        self.reader
    }

    /// A monitor that has reported nothing yet.
    pub fn new(reader: R) -> (m: Self)
        ensures
            m.spec_reader() == reader,
            m.text_mark() is None,
            m.image_mark() is None,
    {
        ClipboardMonitor { reader, last_text_hash: None, last_image_hash: None }
    }

    /// Takes in newly read clipboard text: reports it (as a file path when
    /// it looks like one, as text otherwise) unless it is what was last
    /// reported.
    pub fn observe_text(&mut self, text: String) -> (r: Option<ClipboardContent>)
        ensures
            (final(self).text_mark(), opt_content_view(r)) == text_step(old(self).text_mark(), text@),
            final(self).image_mark() == old(self).image_mark(),
            final(self).spec_reader() == old(self).spec_reader(),
    {
        let content = if is_file_path(text.as_str()) {
            ClipboardContent::FilePath(text)
        } else {
            ClipboardContent::Text(text)
        };
        let hash = content.compute_hash();
        let seen = match &self.last_text_hash {
            Some(h) => *h == hash,
            None => false,
        };
        if !seen {
            self.last_text_hash = Some(hash);
            Some(content)
        } else {
            None
        }
    }

    /// Takes in newly read image bytes: reports them unless they are what
    /// was last reported.
    pub fn observe_image(&mut self, data: Vec<u8>) -> (r: Option<ClipboardContent>)
        ensures
            (final(self).image_mark(), opt_content_view(r)) == image_step(old(self).image_mark(), data@),
            final(self).text_mark() == old(self).text_mark(),
            final(self).spec_reader() == old(self).spec_reader(),
    {
        let content = ClipboardContent::Image(data);
        let hash = content.compute_hash();
        let seen = match &self.last_image_hash {
            Some(h) => *h == hash,
            None => false,
        };
        if !seen {
            self.last_image_hash = Some(hash);
            Some(content)
        } else {
            None
        }
    }

    /// Polls the clipboard once. Text takes precedence: when the reader has
    /// text, it goes through `observe_text` and no image is read; otherwise
    /// an image, if any, goes through `observe_image`.
    pub fn check(&mut self) -> (r: Option<ClipboardContent>)
        ensures
            ({
                ||| exists|t: Seq<char>|
                    #[trigger] text_step(old(self).text_mark(), t) == (final(self).text_mark(), opt_content_view(r))
                        && final(self).image_mark() == old(self).image_mark()
                ||| final(self).text_mark() == old(self).text_mark() && r is None
                        && final(self).image_mark() == old(self).image_mark()
                ||| final(self).text_mark() == old(self).text_mark() && exists|d: Seq<u8>|
                    #[trigger] image_step(old(self).image_mark(), d) == (final(self).image_mark(), opt_content_view(r))
            }),
    {
        if let Some(text) = self.reader.get_text() {
            let ghost t = text@;
            let r = self.observe_text(text);
            assert(text_step(old(self).text_mark(), t) == (self.text_mark(), opt_content_view(r)));
            return r;
        }
        if let Some(image) = self.reader.get_image() {
            let ghost d = image@;
            let r = self.observe_image(image);
            assert(image_step(old(self).image_mark(), d) == (self.image_mark(), opt_content_view(r)));
            return r;
        }
        None
    }
}

/// Dedup: right after a text has been taken in, taking in the same text
/// again reports nothing and remembers the same fingerprint.
pub proof fn lemma_repeated_text_not_reported(mark: Option<Seq<char>>, t: Seq<char>)
    ensures
        text_step(text_step(mark, t).0, t) == (text_step(mark, t).0, None::<ContentView>),
{
}

/// Dedup for images: right after image bytes have been taken in, the same
/// bytes again report nothing and remember the same fingerprint.
pub proof fn lemma_repeated_image_not_reported(mark: Option<Seq<char>>, d: Seq<u8>)
    ensures
        image_step(image_step(mark, d).0, d) == (image_step(mark, d).0, None::<ContentView>),
{
}

/// Text is reported exactly when its fingerprint differs from the remembered
/// one, and what is reported is the classified text; afterwards the
/// remembered fingerprint is that of the text just read.
pub proof fn lemma_text_step_reports_new(mark: Option<Seq<char>>, t: Seq<char>)
    ensures
        text_step(mark, t).1 is Some <==> mark != Some(content_hash(classify_text(t))),
        text_step(mark, t).1 matches Some(c) ==> c == classify_text(t),
        text_step(mark, t).0 == Some(content_hash(classify_text(t))),
{
}

/// Image bytes are reported exactly when their fingerprint differs from the
/// remembered one; afterwards the remembered fingerprint is theirs.
pub proof fn lemma_image_step_reports_new(mark: Option<Seq<char>>, d: Seq<u8>)
    ensures
        image_step(mark, d).1 is Some <==> mark != Some(content_hash(ContentView::Image(d))),
        image_step(mark, d).1 matches Some(c) ==> c == ContentView::Image(d),
        image_step(mark, d).0 == Some(content_hash(ContentView::Image(d))),
{
}

} // verus!
