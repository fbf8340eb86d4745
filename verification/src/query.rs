//! Catalog-query partition: the requested product identifiers are split,
//! in request order and with later duplicates dropped, into the products
//! found in the catalog and the identifiers with no catalog entry. Missing
//! identifiers are reported as data, never as an error.

use vstd::prelude::*;

use crate::models::ProductDetails;
use crate::models::ProductDetailsResponse;
use crate::models::ProductDetailsView;
use crate::models::product_views;
use crate::models::string_views;
use crate::models::vec_contains_string;

verus! {

/// Whether the catalog holds a product with the given identifier.
pub open spec fn catalog_has(cat: Seq<ProductDetailsView>, id: Seq<char>) -> bool {
    exists|k: int| 0 <= k < cat.len() && (#[trigger] cat[k]).id == id
}

/// Whether every catalog item is well formed.
pub open spec fn catalog_products_wf(cat: Seq<ProductDetailsView>) -> bool {
    forall|k: int| 0 <= k < cat.len() ==> (#[trigger] cat[k]).wf()
}

/// The first catalog product with the given identifier.
pub open spec fn first_match(cat: Seq<ProductDetailsView>, id: Seq<char>) -> ProductDetailsView
    decreases cat.len(),
{
    if cat.len() == 0 {
        arbitrary()
    } else if cat[0].id == id {
        cat[0]
    } else {
        first_match(cat.drop_first(), id)
    }
}

/// The identifiers of a request with every later duplicate dropped, in
/// first-occurrence order.
pub open spec fn dedup_ids(ids: Seq<Seq<char>>) -> Seq<Seq<char>>
    decreases ids.len(),
{
    if ids.len() == 0 {
        Seq::empty()
    } else {
        let rest = dedup_ids(ids.drop_last());
        if rest.contains(ids.last()) {
            rest
        } else {
            rest.push(ids.last())
        }
    }
}

/// The distinct requested identifiers that the catalog holds, in request
/// order.
pub open spec fn found_id_list(req: Seq<Seq<char>>, cat: Seq<ProductDetailsView>) -> Seq<
    Seq<char>,
> {
    dedup_ids(req).filter(|id: Seq<char>| catalog_has(cat, id))
}

/// The distinct requested identifiers that the catalog lacks, in request
/// order.
pub open spec fn missing_id_list(req: Seq<Seq<char>>, cat: Seq<ProductDetailsView>) -> Seq<
    Seq<char>,
> {
    dedup_ids(req).filter(|id: Seq<char>| !catalog_has(cat, id))
}

/// The catalog products answering a request: the first catalog entry of
/// each found identifier, in request order.
pub open spec fn found_product_list(req: Seq<Seq<char>>, cat: Seq<ProductDetailsView>) -> Seq<
    ProductDetailsView,
> {
    found_id_list(req, cat).map_values(|id: Seq<char>| first_match(cat, id))
}

/// The first product at or after a matching index is the first match.
proof fn lemma_first_match_index(cat: Seq<ProductDetailsView>, id: Seq<char>, k: int)
    requires
        0 <= k < cat.len(),
        cat[k].id == id,
        forall|j: int| 0 <= j < k ==> (#[trigger] cat[j]).id != id,
    ensures
        first_match(cat, id) == cat[k],
    decreases k,
{
    if cat[0].id != id {
        lemma_first_match_index(cat.drop_first(), id, k - 1);
    }
}

/// A found identifier names its first match.
proof fn lemma_first_match_has_id(cat: Seq<ProductDetailsView>, id: Seq<char>)
    requires
        catalog_has(cat, id),
    ensures
        first_match(cat, id).id == id,
        cat.contains(first_match(cat, id)),
    decreases cat.len(),
{
    if cat.len() > 0 && cat[0].id != id {
        let k = choose|k: int| 0 <= k < cat.len() && (#[trigger] cat[k]).id == id;
        assert(cat.drop_first()[k - 1] == cat[k]);
        lemma_first_match_has_id(cat.drop_first(), id);
        let m = first_match(cat.drop_first(), id);
        let j = choose|j: int| 0 <= j < cat.drop_first().len() && cat.drop_first()[j] == m;
        assert(cat[j + 1] == m);
    }
}

/// What one further requested identifier does to the partition.
proof fn lemma_partition_step(req: Seq<Seq<char>>, cat: Seq<ProductDetailsView>, i: int)
    requires
        0 <= i < req.len(),
    ensures
        dedup_ids(req.take(i + 1)) == if dedup_ids(req.take(i)).contains(req[i]) {
            dedup_ids(req.take(i))
        } else {
            dedup_ids(req.take(i)).push(req[i])
        },
        !dedup_ids(req.take(i)).contains(req[i]) && catalog_has(cat, req[i]) ==> {
            &&& found_id_list(req.take(i + 1), cat) == found_id_list(req.take(i), cat).push(
                req[i],
            )
            &&& found_product_list(req.take(i + 1), cat) == found_product_list(
                req.take(i),
                cat,
            ).push(first_match(cat, req[i]))
            &&& missing_id_list(req.take(i + 1), cat) == missing_id_list(req.take(i), cat)
        },
        !dedup_ids(req.take(i)).contains(req[i]) && !catalog_has(cat, req[i]) ==> {
            &&& missing_id_list(req.take(i + 1), cat) == missing_id_list(req.take(i), cat).push(
                req[i],
            )
            &&& found_id_list(req.take(i + 1), cat) == found_id_list(req.take(i), cat)
            &&& found_product_list(req.take(i + 1), cat) == found_product_list(req.take(i), cat)
        },
        dedup_ids(req.take(i)).contains(req[i]) ==> {
            &&& found_id_list(req.take(i + 1), cat) == found_id_list(req.take(i), cat)
            &&& found_product_list(req.take(i + 1), cat) == found_product_list(req.take(i), cat)
            &&& missing_id_list(req.take(i + 1), cat) == missing_id_list(req.take(i), cat)
        },
{
    reveal(Seq::filter);
    let d = dedup_ids(req.take(i));
    assert(req.take(i + 1).drop_last() =~= req.take(i));
    assert(req.take(i + 1).last() == req[i]);
    assert(dedup_ids(req.take(i + 1)) == if d.contains(req[i]) {
        d
    } else {
        d.push(req[i])
    });
    if !d.contains(req[i]) {
        let x = req[i];
        assert(d.push(x).drop_last() =~= d);
        assert(d.push(x).last() == x);
        let has = |id: Seq<char>| catalog_has(cat, id);
        let lacks = |id: Seq<char>| !catalog_has(cat, id);
        assert(d.push(x).filter(has) == if has(x) {
            d.filter(has).push(x)
        } else {
            d.filter(has)
        });
        assert(d.push(x).filter(lacks) == if lacks(x) {
            d.filter(lacks).push(x)
        } else {
            d.filter(lacks)
        });
        if catalog_has(cat, x) {
            assert(found_product_list(req.take(i + 1), cat) =~= found_product_list(
                req.take(i),
                cat,
            ).push(first_match(cat, x)));
        }
    }
}

/// Finds the index of the first catalog product with the given identifier.
fn find_first(catalog: &Vec<ProductDetails>, id: &String) -> (r: Option<usize>)
    ensures
        match r {
            Some(k) => k < catalog@.len() && product_views(catalog@)[k as int].id == id@
                && (forall|j: int|
                    0 <= j < k ==> (#[trigger] product_views(catalog@)[j]).id != id@),
            None => !catalog_has(product_views(catalog@), id@),
        },
{
    let mut k: usize = 0;
    while k < catalog.len()
        invariant
            k <= catalog@.len(),
            forall|j: int| 0 <= j < k ==> (#[trigger] product_views(catalog@)[j]).id != id@,
        decreases catalog@.len() - k,
    {
        if catalog[k].id == *id {
            return Some(k);
        }
        k += 1;
    }
    None
}

/// Splits a catalog query, preserving request order and dropping later
/// duplicates: every distinct requested identifier is answered either with
/// its first catalog entry or as a missing identifier, and never as an
/// error.
pub fn partition_query(requested: &Vec<String>, catalog: &Vec<ProductDetails>) -> (r:
    ProductDetailsResponse)
    ensures
        r@.product_details == found_product_list(
            string_views(requested@),
            product_views(catalog@),
        ),
        r@.found_ids() == found_id_list(string_views(requested@), product_views(catalog@)),
        r@.not_found_ids == missing_id_list(string_views(requested@), product_views(catalog@)),
        r@.error is None,
        catalog_products_wf(product_views(catalog@)) ==> r@.wf(),
{
    let ghost cat = product_views(catalog@);
    let ghost reqs = string_views(requested@);
    let mut found: Vec<ProductDetails> = Vec::new();
    let mut missing: Vec<String> = Vec::new();
    let mut seen: Vec<String> = Vec::new();
    let mut i: usize = 0;
    proof {
        assert(reqs.take(0) =~= Seq::<Seq<char>>::empty());
        reveal(Seq::filter);
    }
    while i < requested.len()
        invariant
            i <= requested@.len(),
            cat == product_views(catalog@),
            reqs == string_views(requested@),
            string_views(seen@) == dedup_ids(reqs.take(i as int)),
            product_views(found@) == found_product_list(reqs.take(i as int), cat),
            string_views(missing@) == missing_id_list(reqs.take(i as int), cat),
        decreases requested@.len() - i,
    {
        let id = &requested[i];
        proof {
            assert(reqs[i as int] == id@);
            lemma_partition_step(reqs, cat, i as int);
        }
        let already = vec_contains_string(&seen, id);
        proof {
            let d = dedup_ids(reqs.take(i as int));
            if already {
                let j = choose|j: int|
                    0 <= j < seen@.len() && #[trigger] seen@[j]@ == id@;
                assert(string_views(seen@)[j] == id@);
                assert(d.contains(reqs[i as int]));
            } else {
                assert forall|j: int| 0 <= j < d.len() implies d[j] != reqs[i as int] by {
                    assert(string_views(seen@)[j] == seen@[j]@);
                }
                assert(!d.contains(reqs[i as int]));
            }
        }
        if !already {
            seen.push(id.clone());
            proof {
                assert(string_views(seen@) =~= dedup_ids(reqs.take(i as int)).push(
                    reqs[i as int],
                ));
            }
            match find_first(catalog, id) {
                Some(k) => {
                    let p = catalog[k].clone();
                    found.push(p);
                    proof {
                        assert(catalog_has(cat, reqs[i as int]));
                        lemma_first_match_index(cat, reqs[i as int], k as int);
                        assert(product_views(found@) =~= found_product_list(
                            reqs.take(i as int),
                            cat,
                        ).push(first_match(cat, reqs[i as int])));
                    }
                },
                None => {
                    missing.push(id.clone());
                    proof {
                        assert(string_views(missing@) =~= missing_id_list(
                            reqs.take(i as int),
                            cat,
                        ).push(reqs[i as int]));
                    }
                },
            }
        }
        i += 1;
    }
    proof {
        assert(reqs.take(requested@.len() as int) =~= reqs);
    }
    let r = ProductDetailsResponse { product_details: found, not_found_ids: missing, error: None };
    proof {
        assert forall|n: int| 0 <= n < r@.found_ids().len() implies r@.found_ids()[n]
            == found_id_list(reqs, cat)[n] by {
            let ids = found_id_list(reqs, cat);
            assert(r@.product_details[n] == first_match(cat, ids[n]));
            Seq::lemma_filter_pred(dedup_ids(reqs), |id: Seq<char>| catalog_has(cat, id), n);
            lemma_first_match_has_id(cat, ids[n]);
        }
        assert(r@.found_ids() =~= found_id_list(reqs, cat));
        if catalog_products_wf(cat) {
            lemma_query_partition(reqs, cat);
            assert forall|n: int, m: int|
                0 <= n < r@.product_details.len() && 0 <= m < r@.not_found_ids.len() implies (
            #[trigger] r@.product_details[n]).id != (#[trigger] r@.not_found_ids[m]) by {
                let id = r@.product_details[n].id;
                if id == r@.not_found_ids[m] {
                    assert(r@.found_ids()[n] == id);
                    assert(found_id_list(reqs, cat).contains(id));
                    assert(missing_id_list(reqs, cat).contains(id));
                }
            }
            assert forall|n: int| 0 <= n < r@.product_details.len() implies (
            #[trigger] r@.product_details[n]).wf() by {
                let ids = found_id_list(reqs, cat);
                Seq::lemma_filter_pred(dedup_ids(reqs), |id: Seq<char>| catalog_has(cat, id), n);
                lemma_first_match_has_id(cat, ids[n]);
                let k = choose|k: int|
                    0 <= k < cat.len() && cat[k] == first_match(cat, ids[n]);
                assert(cat[k].wf());
            }
        }
    }
    r
}

/// Law: the found and missing identifiers of a catalog query are disjoint,
/// both are drawn from the requested identifiers, and every requested
/// identifier is answered in exactly one of the two lists.
pub proof fn lemma_query_partition(req: Seq<Seq<char>>, cat: Seq<ProductDetailsView>)
    ensures
        forall|id: Seq<char>|
            !(#[trigger] found_id_list(req, cat).contains(id) && #[trigger] missing_id_list(
                req,
                cat,
            ).contains(id)),
        forall|id: Seq<char>| #[trigger]
            found_id_list(req, cat).contains(id) ==> req.contains(id),
        forall|id: Seq<char>| #[trigger]
            missing_id_list(req, cat).contains(id) ==> req.contains(id),
        forall|id: Seq<char>| #[trigger]
            req.contains(id) ==> found_id_list(req, cat).contains(id) || missing_id_list(
                req,
                cat,
            ).contains(id),
{
    let d = dedup_ids(req);
    let has = |id: Seq<char>| catalog_has(cat, id);
    let lacks = |id: Seq<char>| !catalog_has(cat, id);
    lemma_filter_subset(d, has);
    lemma_filter_subset(d, lacks);
    lemma_dedup_ids_same_elements(req);
    assert forall|id: Seq<char>|
        !(#[trigger] found_id_list(req, cat).contains(id) && #[trigger] missing_id_list(
            req,
            cat,
        ).contains(id)) by {
        if found_id_list(req, cat).contains(id) && missing_id_list(req, cat).contains(id) {
            let n = choose|n: int|
                0 <= n < d.filter(has).len() && d.filter(has)[n] == id;
            Seq::lemma_filter_pred(d, has, n);
            let m = choose|m: int|
                0 <= m < d.filter(lacks).len() && d.filter(lacks)[m] == id;
            Seq::lemma_filter_pred(d, lacks, m);
        }
    }
    assert forall|id: Seq<char>| #[trigger]
        req.contains(id) implies found_id_list(req, cat).contains(id) || missing_id_list(
        req,
        cat,
    ).contains(id) by {
        assert(d.contains(id));
        let n = choose|n: int| 0 <= n < d.len() && d[n] == id;
        if catalog_has(cat, id) {
            Seq::lemma_filter_contains(d, has, n);
        } else {
            Seq::lemma_filter_contains(d, lacks, n);
        }
    }
}

/// Everything a filter keeps was in the sequence.
proof fn lemma_filter_subset<T>(s: Seq<T>, pred: spec_fn(T) -> bool)
    ensures
        forall|x: T| #[trigger] s.filter(pred).contains(x) ==> s.contains(x),
    decreases s.len(),
{
    reveal(Seq::filter);
    if s.len() > 0 {
        lemma_filter_subset(s.drop_last(), pred);
        assert forall|x: T| #[trigger] s.filter(pred).contains(x) implies s.contains(x) by {
            let sub = s.drop_last().filter(pred);
            if pred(s.last()) && x == s.last() {
                assert(s[s.len() - 1] == x);
            } else {
                assert(sub.contains(x));
                assert(s.drop_last().contains(x));
                let j = choose|j: int|
                    0 <= j < s.drop_last().len() && s.drop_last()[j] == x;
                assert(s[j] == x);
            }
        }
    }
}

/// Dropping duplicates neither loses nor invents identifiers.
proof fn lemma_dedup_ids_same_elements(ids: Seq<Seq<char>>)
    ensures
        forall|x: Seq<char>| #[trigger] dedup_ids(ids).contains(x) <==> ids.contains(x),
    decreases ids.len(),
{
    if ids.len() > 0 {
        lemma_dedup_ids_same_elements(ids.drop_last());
        let rest = dedup_ids(ids.drop_last());
        assert forall|x: Seq<char>| #[trigger]
            dedup_ids(ids).contains(x) implies ids.contains(x) by {
            if rest.contains(x) || (x == ids.last() && !rest.contains(ids.last())) {
                if rest.contains(x) {
                    assert(ids.drop_last().contains(x));
                    let j = choose|j: int|
                        0 <= j < ids.drop_last().len() && ids.drop_last()[j] == x;
                    assert(ids[j] == x);
                } else {
                    assert(ids[ids.len() - 1] == x);
                }
            } else {
                let n = choose|n: int|
                    0 <= n < dedup_ids(ids).len() && dedup_ids(ids)[n] == x;
                if rest.contains(ids.last()) {
                    assert(rest.contains(x));
                } else {
                    if n < rest.len() {
                        assert(rest[n] == x);
                        assert(rest.contains(x));
                    } else {
                        assert(x == ids.last());
                    }
                }
            }
        }
        assert forall|x: Seq<char>| ids.contains(x) implies #[trigger] dedup_ids(
            ids,
        ).contains(x) by {
            let j = choose|j: int| 0 <= j < ids.len() && ids[j] == x;
            if j < ids.len() - 1 {
                assert(ids.drop_last()[j] == x);
                assert(ids.drop_last().contains(x));
                assert(rest.contains(x));
                let n = choose|n: int| 0 <= n < rest.len() && rest[n] == x;
                assert(dedup_ids(ids)[n] == x);
            } else {
                if rest.contains(ids.last()) {
                    let n = choose|n: int| 0 <= n < rest.len() && rest[n] == ids.last();
                    assert(dedup_ids(ids)[n] == x);
                } else {
                    assert(dedup_ids(ids)[rest.len() as int] == x);
                }
            }
        }
    }
}

} // verus!
