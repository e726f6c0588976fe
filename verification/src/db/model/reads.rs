//! What queries give back: which rows, in which order and up to which limit.
use vstd::prelude::*;

verus! {

/// The order of texts: character by character, by code point.
pub open spec fn text_le(a: Seq<char>, b: Seq<char>) -> bool
    decreases a.len(),
{
    if a.len() == 0 {
        true
    } else if b.len() == 0 {
        false
    } else if a[0] == b[0] {
        text_le(a.drop_first(), b.drop_first())
    } else {
        (a[0] as int) < b[0] as int
    }
}

/// The order of two texts, and where the first are equal, of two more.
pub open spec fn pair_le(a: Seq<char>, a2: Seq<char>, b: Seq<char>, b2: Seq<char>) -> bool {
    if a == b {
        text_le(a2, b2)
    } else {
        text_le(a, b)
    }
}

/// Texts are in order one way or the other, and equal where they are in order both
/// ways.
pub proof fn law_text_order_is_total(a: Seq<char>, b: Seq<char>)
    ensures
        text_le(a, b) || text_le(b, a),
        text_le(a, b) && text_le(b, a) ==> a == b,
    decreases a.len(),
{
    if a.len() > 0 && b.len() > 0 && a[0] == b[0] {
        law_text_order_is_total(a.drop_first(), b.drop_first());
        if text_le(a, b) && text_le(b, a) {
            assert(a =~= seq![a[0]] + a.drop_first());
            assert(b =~= seq![b[0]] + b.drop_first());
        }
    } else if a.len() == 0 && b.len() == 0 {
        assert(a =~= b);
    }
}

/// The order of texts carries over.
pub proof fn law_text_order_is_transitive(a: Seq<char>, b: Seq<char>, c: Seq<char>)
    requires
        text_le(a, b),
        text_le(b, c),
    ensures
        text_le(a, c),
    decreases a.len(),
{
    if a.len() > 0 && b.len() > 0 && c.len() > 0 && a[0] == b[0] && b[0] == c[0] {
        law_text_order_is_transitive(a.drop_first(), b.drop_first(), c.drop_first());
    }
}

/// A query over places in the tables: which places it takes, what a row shows of
/// one, and how they are ordered.
#[verifier::reject_recursive_types(K)]
#[verifier::reject_recursive_types(R)]
pub struct Query<K, R> {
    pub takes: spec_fn(K) -> bool,
    pub shows: spec_fn(K, R) -> bool,
    pub le: spec_fn(K, K) -> bool,
    /// How many rows there are at most; `None` for no limit.
    pub limit: Option<nat>,
}

impl<K, R> Query<K, R> {
    /// Whether the query gives these rows, `places` being where they come from:
    /// each place that it takes once, in order, and no other. A limit leaves out
    /// places only where it is reached, and none that belongs before a place that
    /// is listed.
    pub open spec fn gives(self, places: Seq<K>, rows: Seq<R>) -> bool {
        &&& places.len() == rows.len()
        &&& places.no_duplicates()
        &&& self.limit matches Some(n) ==> rows.len() <= n
        &&& forall|i: int|
            0 <= i < places.len() ==> (self.takes)(#[trigger] places[i]) && (self.shows)(
                places[i],
                rows[i],
            )
        &&& forall|i: int, j: int|
            0 <= i < j < places.len() ==> (self.le)(#[trigger] places[i], #[trigger] places[j])
        &&& forall|k: K| #[trigger]
            (self.takes)(k) ==> places.contains(k) || (self.limit == Some(rows.len()) && forall|
                i: int,
            |
                0 <= i < places.len() ==> (self.le)(#[trigger] places[i], k))
    }

    /// Whether the limit left nothing out.
    pub open spec fn all(self, rows: Seq<R>) -> bool {
        self.limit matches Some(n) ==> rows.len() < n
    }
}

/// A place that a query takes has its row, unless the limit cuts the list off.
pub proof fn law_taken_place_is_listed<K, R>(q: Query<K, R>, places: Seq<K>, rows: Seq<R>, k: K)
    requires
        q.gives(places, rows),
        q.all(rows),
        (q.takes)(k),
    ensures
        exists|i: int|
            0 <= i < rows.len() && places[i] == k && (q.shows)(k, #[trigger] rows[i]),
{
    let i = choose|i: int| 0 <= i < places.len() && places[i] == k;
    assert((q.shows)(places[i], rows[i]));
}

} // verus!
