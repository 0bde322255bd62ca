//! The form parameters of the two batched requests to the content service.

use crate::text::{decimal, decimal_string};
use vstd::prelude::*;

verus! {

/// The name of the form parameter that carries the identifier at a position.
pub open spec fn index_key(position: nat) -> Seq<char> {
    "publishedfileids["@ + decimal(position) + "]"@
}

/// The parameters of a batched request: how many identifiers it asks about,
/// under the given name, and then each identifier under the name of its
/// position.
pub open spec fn indexed_form(count_key: Seq<char>, ids: Seq<Seq<char>>) -> Seq<
    (Seq<char>, Seq<char>),
> {
    seq![(count_key, decimal(ids.len()))] + Seq::new(
        ids.len(),
        |i: int| (index_key(i as nat), ids[i]),
    )
}

/// The parameters of a batched request for the given identifiers.
fn indexed_request(count_key: &str, ids: &Vec<String>) -> (form: Vec<(String, String)>)
    ensures
        form.deep_view() == indexed_form(count_key@, ids.deep_view()),
{
    let mut form: Vec<(String, String)> = Vec::new();
    form.push((String::from_str(count_key), decimal_string(ids.len())));
    let mut i: usize = 0;
    while i < ids.len()
        invariant
            i <= ids.len(),
            form.len() == i + 1,
            form[0].deep_view() == (count_key@, decimal(ids.len() as nat)),
            forall|k: int| 0 <= k < i ==> (#[trigger] form[k + 1]).deep_view() == (index_key(k as nat), ids[k]@),
        decreases ids.len() - i,
    {
        let key = String::from_str("publishedfileids[").concat(decimal_string(i).as_str()).concat(
            "]",
        );
        form.push((key, ids[i].clone()));
        i += 1;
    }
    assert(form.deep_view() =~= indexed_form(count_key@, ids.deep_view())) by {
        let want = indexed_form(count_key@, ids.deep_view());
        assert(form.deep_view().len() == want.len());
        assert forall|k: int| 0 <= k < want.len() implies form.deep_view()[k] == want[k] by {
            if k > 0 {
                assert(form[(k - 1) + 1].deep_view() == (index_key((k - 1) as nat), ids[k - 1]@));
            }
        }
    }
    form
}

/// The parameters of the request for the children of the given collections.
pub fn collection_request(collections: &Vec<String>) -> (form: Vec<(String, String)>)
    ensures
        form.deep_view() == indexed_form("collectioncount"@, collections.deep_view()),
{
    indexed_request("collectioncount", collections)
}

/// The parameters of the request for the current versions of the given
/// items.
pub fn item_request(items: &Vec<String>) -> (form: Vec<(String, String)>)
    ensures
        form.deep_view() == indexed_form("itemcount"@, items.deep_view()),
{
    indexed_request("itemcount", items)
}

} // verus!
