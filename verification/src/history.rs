//! Decisions around the clip store: recording or skipping a copy, touching
//! a known clip or inserting a new one, paging defaults, the full-text
//! prefix query, and turning exported items back into clips.

use vstd::prelude::*;
use crate::digest::{hex_sha256, spec_hex_sha256};
use crate::models::{opt_str_view, spec_parse, ClipDto, ClipRepresentation, ContentType, NewClip};
use crate::settings::{spec_is_ignored, Settings};

verus! {

broadcast use vstd::string::group_string_axioms;

/// Number of clips a page holds when the caller names no limit.
pub const DEFAULT_PAGE_LIMIT: i64 = 50;

/// The page limit to use: the given one, or `DEFAULT_PAGE_LIMIT`.
pub fn page_limit(limit: Option<i64>) -> (l: i64)
    ensures
        l == (match limit {
            Some(v) => v,
            None => DEFAULT_PAGE_LIMIT,
        }),
{
    match limit {
        Some(v) => v,
        None => DEFAULT_PAGE_LIMIT,
    }
}

/// The page offset to use: the given one, or 0.
pub fn page_offset(offset: Option<i64>) -> (o: i64)
    ensures
        o == (match offset {
            Some(v) => v,
            None => 0,
        }),
{
    match offset {
        Some(v) => v,
        None => 0,
    }
}

/// The full-text query for a search: the user's words as a prefix match
/// (the text followed by `*`).
pub fn fts_prefix_query(query: &str) -> (q: String)
    ensures
        q@ == query@.push('*'),
{
    let mut q = query.to_string();
    q.append("*");
    proof {
        reveal_strlit("*");
    }
    assert(q@ =~= query@.push('*'));
    q
}

/// Whether a copy made in the application `source` is to be recorded: it is
/// not when the source is known, the settings could be read, and the source
/// is one of the ignored applications.
pub open spec fn spec_should_record(source: Option<Seq<char>>, settings: Option<Settings>) -> bool {
    match (source, settings) {
        (Some(name), Some(s)) => !spec_is_ignored(s.ignored_apps@, name),
        _ => true,
    }
}

/// The user's own list decides: a copy from a known application, with the
/// settings readable, is recorded exactly when no entry of the user's
/// ignored applications equals the application's name up to ASCII case.
/// Without a known source, or without readable settings, it is recorded.
pub proof fn lemma_should_record_follows_user_list(name: Seq<char>, s: Settings)
    ensures
        spec_should_record(Some(name), Some(s)) <==> (forall|i: int|
            0 <= i < s.ignored_apps@.len() ==> !crate::text::eq_ignore_ascii_case(
                name,
                #[trigger] s.ignored_apps@[i]@,
            )),
        spec_should_record(None, Some(s)),
        spec_should_record(Some(name), None),
{
}

/// Every application on the user's list is skipped, under its own name and
/// under any ASCII case variant of it.
pub proof fn lemma_listed_app_is_skipped(s: Settings, i: int, name: Seq<char>)
    requires
        0 <= i < s.ignored_apps@.len(),
        crate::text::eq_ignore_ascii_case(name, s.ignored_apps@[i]@),
    ensures
        !spec_should_record(Some(name), Some(s)),
        !spec_should_record(Some(s.ignored_apps@[i]@), Some(s)),
{
    let e = s.ignored_apps@[i]@;
    assert(crate::text::eq_ignore_ascii_case(e, e));
}

/// Decides whether a copy from `source` is recorded, given the settings
/// when they could be read.
pub fn should_record(source: &Option<String>, settings: Option<&Settings>) -> (b: bool)
    ensures
        b == spec_should_record(opt_str_view(*source), match settings {
            Some(s) => Some(*s),
            None => None,
        }),
{
    match (source, settings) {
        (Some(name), Some(s)) => !s.is_ignored_app(name.as_str()),
        _ => true,
    }
}

/// What to do with a newly copied content in the store.
#[derive(Debug, Clone, Copy, PartialEq, Eq, Structural)]
pub enum StoreAction {
    /// A clip with the same fingerprint is stored: bump its use and time.
    Touch(i64),
    /// Nothing with this fingerprint is stored: insert a new clip, then
    /// trim the history to the limit.
    Insert,
}

/// Dedup in the store: a copy whose fingerprint is already stored (under
/// clip id `existing`) touches that clip instead of adding a duplicate.
pub fn store_action(existing: Option<i64>) -> (a: StoreAction)
    ensures
        a == (match existing {
            Some(id) => StoreAction::Touch(id),
            None => StoreAction::Insert,
        }),
{
    match existing {
        Some(id) => StoreAction::Touch(id),
        None => StoreAction::Insert,
    }
}

/// The fingerprint under which an imported text is stored: `import_`
/// followed by the hex SHA-256 of the text's UTF-8 bytes.
pub open spec fn import_hash(t: Seq<char>) -> Seq<char> {
    "import_"@ + spec_hex_sha256(vstd::utf8::encode_utf8(t))
}

/// The clip to store for one exported item: items without text are
/// skipped; otherwise the text with its content type read from the item's
/// type name, fingerprinted by `import_hash`.
pub fn import_candidate(item: &ClipDto) -> (r: Option<NewClip>)
    ensures
        item.text_content is None ==> r is None,
        item.text_content matches Some(t) ==> (r matches Some(n) && {
            &&& n.content_type == spec_parse(item.content_type@)
            &&& opt_str_view(n.text_content) == Some(t@)
            &&& n.image_data is None
            &&& n.content_hash@ == import_hash(t@)
            &&& n.source_app is None
            &&& n.representations@.len() == 0
        }),
{
    match &item.text_content {
        None => None,
        Some(text) => {
            let content_type = ContentType::parse(item.content_type.as_str());
            let digest = hex_sha256(text.as_str().as_bytes());
            let mut hash = "import_".to_string();
            hash.append(digest.as_str());
            let representations: Vec<ClipRepresentation> = Vec::new();
            Some(
                NewClip {
                    content_type,
                    text_content: Some(text.clone()),
                    image_data: None,
                    content_hash: hash,
                    source_app: None,
                    representations,
                },
            )
        },
    }
}

} // verus!
