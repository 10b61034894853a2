//! Provable consequences of the storage contracts: what creation, lookup and
//! pagination guarantee when composed, stated once over the mathematical
//! store and proved for every well-formed state.

use vstd::prelude::*;

use crate::domain::article::ArticleView;
use crate::repositories::{lookup, page_of, store_inv};

verus! {

/// A freshly created record is immediately readable: appending the record
/// that creation adds to a well-formed store keeps the store well-formed, and
/// looking up the assigned identity returns exactly that record — the given
/// title, no content.
pub proof fn lemma_create_then_get(s: Seq<ArticleView>, title: Seq<char>)
    requires
        store_inv(s),
        s.len() < i32::MAX,
    ensures
        ({
            let created = ArticleView { id: s.len() as int + 1, title, content: None };
            &&& store_inv(s.push(created))
            &&& lookup(s.push(created), s.len() as int + 1) == Some(created)
        }),
{
    let created = ArticleView { id: s.len() as int + 1, title, content: None };
    let s2 = s.push(created);
    assert forall|i: int| 0 <= i < s2.len() implies (#[trigger] s2[i]).id == i + 1 by {
        if i < s.len() {
            assert(s2[i] == s[i]);
        } else {
            assert(s2[i] == created);
        }
    }
    assert(s2[s.len() as int] == created);
}

/// An identity that no record carries reads as absent, never as an error: on
/// a well-formed store, its lookup yields nothing.
pub proof fn lemma_absent_id_reads_none(s: Seq<ArticleView>, id: int)
    requires
        store_inv(s),
        forall|i: int| 0 <= i < s.len() ==> (#[trigger] s[i]).id != id,
    ensures
        lookup(s, id) is None,
{
    if 1 <= id <= s.len() {
        assert(s[id - 1].id == id);
    }
}

/// Every record the store holds is readable under its identity: on a
/// well-formed store, looking up the identity of a held record returns
/// exactly that record.
pub proof fn lemma_present_id_reads_record(s: Seq<ArticleView>, i: int)
    requires
        store_inv(s),
        0 <= i < s.len(),
    ensures
        lookup(s, s[i].id) == Some(s[i]),
{
    assert(s[i].id == i + 1);
}

/// A page is bounded and ordered: on a well-formed store it holds at most
/// `size` records, with identities non-decreasing in page order.
pub proof fn lemma_page_bounded_and_ordered(s: Seq<ArticleView>, page: int, size: int)
    requires
        store_inv(s),
        page >= 0,
        size > 0,
    ensures
        page_of(s, page, size).len() <= size,
        forall|i: int, j: int|
            0 <= i <= j < page_of(s, page, size).len() ==> (#[trigger] page_of(s, page, size)[i]).id
                <= (#[trigger] page_of(s, page, size)[j]).id,
{
    let pg = page_of(s, page, size);
    let lo = if page * size <= s.len() {
        page * size
    } else {
        s.len() as int
    };
    assert forall|i: int, j: int| 0 <= i <= j < pg.len() implies (#[trigger] pg[i]).id
        <= (#[trigger] pg[j]).id by {
        assert(pg[i] == s[lo + i]);
        assert(pg[j] == s[lo + j]);
    }
}

/// Reading is idempotent: two lookups of the same identity against the same
/// store state — no intervening writes — return the same result.
pub proof fn lemma_get_idempotent(
    s: Seq<ArticleView>,
    id: int,
    first: Option<ArticleView>,
    second: Option<ArticleView>,
)
    requires
        first == lookup(s, id),
        second == lookup(s, id),
    ensures
        first == second,
{
}

} // verus!
