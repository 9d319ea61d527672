//! Slugs: the unique, URL-safe names of articles.
//!
//! A slug is the short text form of the article's id, a hyphen, and the title
//! reduced to lower-case words joined by hyphens. Because the text form of an
//! id has a fixed length and no two ids share one, two articles never share a
//! slug, whatever their titles.

use vstd::prelude::*;
use vstd::string::StringExecFns;

verus! {

/// The text that `blob_uuid::to_blob` gives for the UUID with the 128-bit
/// value `id`.
pub uninterp spec fn blob_text(id: u128) -> Seq<char>;

/// The text that `sluggify::sluggify::sluggify` makes of `text` under its
/// default options.
pub uninterp spec fn sluggified(text: Seq<char>) -> Seq<char>;

/// The length of the text form of an id.
pub const BLOB_LENGTH: usize = 22;

/// `blob_uuid::to_blob` on the UUID with the value `id`: the URL-safe base64
/// form of its sixteen bytes without padding. That form has 22 characters for
/// every UUID, and `blob_uuid::to_uuid` turns it back into the UUID, so no
/// other id has the same form.
#[verifier::external_body]
fn to_blob(id: u128) -> (r: String)
    ensures
        r@ == blob_text(id),
        r@.len() == BLOB_LENGTH,
        forall|other: u128| (#[trigger] blob_text(other)).len() == r@.len(),
        forall|other: u128| #[trigger] blob_text(other) == r@ ==> other == id,
{
    blob_uuid::to_blob(&uuid::Uuid::from_u128(id))
}

/// `sluggify::sluggify::sluggify` with no options.
#[verifier::external_body]
fn sluggify(text: &str) -> (r: String)
    ensures
        r@ == sluggified(text@),
{
    sluggify::sluggify::sluggify(text, None)
}

/// `uuid::Uuid::new_v4`, as its 128-bit value. The id is random: nothing is
/// promised of it.
#[verifier::external_body]
pub(crate) fn new_v4() -> (r: u128) {
    uuid::Uuid::new_v4().as_u128()
}

/// The slug of the article `id` under `title`.
pub open spec fn slug_of(id: u128, title: Seq<char>) -> Seq<char> {
    blob_text(id) + seq!['-'] + sluggified(title)
}

/// Makes the slug of the article `id` under `title`. No article with another
/// id has this slug under any title.
pub fn generate_slug(id: u128, title: &str) -> (r: String)
    ensures
        r@ == slug_of(id, title@),
        forall|other: u128, other_title: Seq<char>|
            other != id ==> #[trigger] slug_of(other, other_title) != r@,
{
    let mut slug = to_blob(id);
    let words = sluggify(title);
    proof {
        reveal_strlit("-");
        assert("-"@ =~= seq!['-']);
    }
    slug.append("-");
    slug.append(words.as_str());
    proof {
        assert forall|other: u128, other_title: Seq<char>| other != id implies #[trigger] slug_of(
            other,
            other_title,
        ) != slug@ by {
            let theirs = slug_of(other, other_title);
            if theirs == slug@ {
                assert(theirs.subrange(0, BLOB_LENGTH as int) =~= blob_text(other));
                assert(slug@.subrange(0, BLOB_LENGTH as int) =~= blob_text(id));
            }
        }
    }
    slug
}

} // verus!
