//! The tag route: the tags in use.

use crate::errors::{Reply, STATUS_OK};
use crate::model::{distinct, rows, tag_name};
use crate::schemas::article_tag_schema::TagsResponse;
use crate::store::Store;
use vstd::prelude::*;

verus! {

/// Whether `name` is among `names`.
fn contains_name(names: &Vec<String>, name: &String) -> (r: bool)
    ensures
        r == rows(names@).contains(name@),
{
    let mut i: usize = 0;
    while i < names.len()
        invariant
            i <= names.len(),
            forall|j: int| 0 <= j < i ==> rows(names@)[j] != name@,
        decreases names.len() - i,
    {
        if names[i] == *name {
            assert(rows(names@)[i as int] == name@);
            return true;
        }
        i += 1;
    }
    false
}

/// Returns the tag names in use, each once, in the order in which they first
/// occur in the table.
pub fn get_tags(store: &Store) -> (r: Reply<TagsResponse>)
    ensures
        r.status == STATUS_OK,
        rows(r.body.tags@) == store@.all_tag_names(),
{
    let tags = store.tags();
    let ghost names = store@.tags.map_values(tag_name());
    let mut tag_list: Vec<String> = Vec::new();
    let mut i: usize = 0;
    assert(names.take(0) =~= Seq::empty());
    assert(rows(tag_list@) =~= distinct(names.take(0)));
    while i < tags.len()
        invariant
            i <= tags.len(),
            rows(tags@) == store@.tags,
            names == store@.tags.map_values(tag_name()),
            rows(tag_list@) == distinct(names.take(i as int)),
        decreases tags.len() - i,
    {
        proof {
            assert(names.take(i + 1).drop_last() =~= names.take(i as int));
            assert(names.take(i + 1).last() == tags@[i as int].tag_name@);
        }
        if !contains_name(&tag_list, &tags[i].tag_name) {
            let name = tags[i].tag_name.clone();
            proof {
                crate::model::lemma_rows_push(tag_list@, name);
            }
            tag_list.push(name);
        }
        i += 1;
    }
    assert(names.take(i as int) =~= names);
    Reply { status: STATUS_OK, body: TagsResponse { tags: tag_list } }
}

} // verus!
