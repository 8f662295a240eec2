//! Names and keys of what is uploaded, and which way a dataset goes up.

use crate::plan::MIN_CHUNK_SIZE_BYTES;
use crate::text::{decimal, decimal_text};
use vstd::prelude::*;
use vstd::string::StringExecFns;

verus! {

/// The slug that `slug::slugify` makes of a text. It is a function of the
/// text alone.
pub uninterp spec fn slug_of(text: Seq<char>) -> Seq<char>;

/// Whether a character may stand in a slug: a lower-case ASCII letter, a
/// digit, or a dash.
pub open spec fn is_slug_char(c: char) -> bool {
    ('a' <= c && c <= 'z') || ('0' <= c && c <= '9') || c == '-'
}

/// The shape of a slug: only slug characters, no dash at either end, and no
/// two dashes in a row.
pub open spec fn is_slug(text: Seq<char>) -> bool {
    &&& forall|index: int| 0 <= index < text.len() ==> is_slug_char(#[trigger] text[index])
    &&& text.len() > 0 ==> text[0] != '-' && text[text.len() - 1] != '-'
    &&& forall|index: int|
        0 <= index < text.len() - 1 ==> !(#[trigger] text[index] == '-' && text[index + 1] == '-')
}

/// Calls `slug::slugify`. The contract names the result [`slug_of`] the
/// text, and claims the shape that the crate documents for every slug: it
/// consists of `a`-`z`, `0`-`9` and `-`, never holds two dashes in a row,
/// and never starts or ends with a dash.
#[verifier::external_body]
fn slugify(text: &str) -> (slug: String)
    ensures
        slug@ == slug_of(text@),
        is_slug(slug@),
{
    slug::slugify(text)
}

/// The name given to an upload that was not named: the file's name, a dash,
/// and the time in seconds since the epoch.
pub open spec fn default_name_text(file_name: Seq<char>, now_secs: u64) -> Seq<char> {
    file_name + seq!['-'] + decimal_text(now_secs as nat)
}

/// The name given to an upload that was not named.
pub fn default_name(file_name: &str, now_secs: u64) -> (name: String)
    ensures
        name@ == default_name_text(file_name@, now_secs),
{
    proof {
        reveal_strlit("-");
    }
    let mut name: String = String::from_str(file_name);
    name.append("-");
    let stamp: String = decimal(now_secs);
    name.append(stamp.as_str());
    assert(name@ =~= default_name_text(file_name@, now_secs));
    name
}

/// The name of an upload: the one that was given, or else the default made
/// of the file's name and the time.
pub fn resolve_name(given: Option<String>, file_name: &str, now_secs: u64) -> (name: String)
    ensures
        given matches Some(text) ==> name == text,
        given is None ==> name@ == default_name_text(file_name@, now_secs),
{
    match given {
        Some(text) => text,
        None => default_name(file_name, now_secs),
    }
}

/// The key of a dataset: the slug of its name.
pub fn dataset_key(name: &str) -> (key: String)
    ensures
        key@ == slug_of(name@),
        is_slug(key@),
{
    slugify(name)
}

/// The key of a recipe: the one that was given, or else the slug of the
/// recipe's name.
pub fn resolve_key(given: Option<String>, name: &str) -> (key: String)
    ensures
        given matches Some(text) ==> key == text,
        given is None ==> key@ == slug_of(name@) && is_slug(key@),
{
    match given {
        Some(text) => text,
        None => slugify(name),
    }
}

/// The way a dataset goes up.
#[derive(Clone, Copy, Debug, PartialEq, Eq, Structural)]
pub enum UploadRoute {
    /// In parts, through an upload session.
    Chunked,
    /// In one request.
    Direct,
}

/// Chooses the way a dataset of `file_size` bytes goes up: in parts when it
/// is larger than `MIN_CHUNK_SIZE_BYTES`, in one request otherwise.
pub fn upload_route(file_size: u64) -> (route: UploadRoute)
    ensures
        route == if file_size > MIN_CHUNK_SIZE_BYTES {
            UploadRoute::Chunked
        } else {
            UploadRoute::Direct
        },
{
    if file_size > MIN_CHUNK_SIZE_BYTES {
        UploadRoute::Chunked
    } else {
        UploadRoute::Direct
    }
}

} // verus!
