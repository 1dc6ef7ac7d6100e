use vstd::prelude::*;

verus! {

/// Aggregation with an accumulator of fields already kept: entries of a
/// field already seen are dropped, entries with no queued failure are
/// ignored, and every other entry contributes its field with the first
/// queued failure message.
pub open spec fn spec_aggregate_from(
    fs: Seq<(Seq<char>, Seq<Seq<char>>)>,
    seen: Set<Seq<char>>,
) -> Seq<(Seq<char>, Seq<char>)>
    decreases fs.len(),
{
    if fs.len() == 0 {
        Seq::<(Seq<char>, Seq<char>)>::empty()
    } else {
        let field = fs[0].0;
        let messages = fs[0].1;
        if !seen.contains(field) && messages.len() > 0 {
            seq![(field, messages[0])] + spec_aggregate_from(fs.drop_first(), seen.insert(field))
        } else {
            spec_aggregate_from(fs.drop_first(), seen)
        }
    }
}

/// The aggregation of per-field validation failures: exactly one entry per
/// field, carrying the field's first failure, in first-seen field order.
pub open spec fn spec_aggregate(fs: Seq<(Seq<char>, Seq<Seq<char>>)>) -> Seq<
    (Seq<char>, Seq<char>),
> {
    spec_aggregate_from(fs, Set::<Seq<char>>::empty())
}

/// The set of field names appearing in a detail list.
pub open spec fn detail_fields(ds: Seq<crate::error::ErrorDetail>) -> Set<Seq<char>> {
    Set::new(|f: Seq<char>| exists|j: int| 0 <= j < ds.len() && (#[trigger] ds[j]).field@ == f)
}

fn contains_field(ds: &Vec<crate::error::ErrorDetail>, field: &str) -> (r: bool)
    ensures
        r == detail_fields(ds@).contains(field@),
{
    let n = ds.len();
    let mut i: usize = 0;
    while i < n
        invariant
            n == ds@.len(),
            i <= n,
            forall|j: int| 0 <= j < i ==> (#[trigger] ds@[j]).field@ != field@,
        decreases n - i,
    {
        if crate::strutil::str_eq(ds[i].field.as_str(), field) {
            return true;
        }
        i = i + 1;
    }
    false
}

/// Aggregates per-field validation failures into the structured detail
/// list: only the first failure of each field is kept, in the field order
/// supplied by the input; a repeated field or a field with no queued
/// failure adds nothing.
pub fn extract_errors(failures: &Vec<(String, Vec<String>)>) -> (r: Vec<crate::error::ErrorDetail>)
    ensures
        crate::error::detail_views(r@) == spec_aggregate(failures.deep_view()),
{
    let n = failures.len();
    let mut result: Vec<crate::error::ErrorDetail> = Vec::new();
    let mut i: usize = 0;
    proof {
        assert(crate::error::detail_views(result@) =~= Seq::<(Seq<char>, Seq<char>)>::empty());
        assert(detail_fields(result@) =~= Set::<Seq<char>>::empty());
        assert(failures.deep_view().subrange(0, n as int) =~= failures.deep_view());
    }
    while i < n
        invariant
            n == failures@.len(),
            i <= n,
            spec_aggregate(failures.deep_view()) == crate::error::detail_views(result@)
                + spec_aggregate_from(
                failures.deep_view().subrange(i as int, n as int),
                detail_fields(result@),
            ),
        decreases n - i,
    {
        let ghost dv = failures.deep_view();
        let ghost suffix = dv.subrange(i as int, n as int);
        proof {
            assert(suffix[0] == dv[i as int]);
            assert(suffix.drop_first() =~= dv.subrange(i as int + 1, n as int));
        }
        let has_message: bool = failures[i].1.len() > 0;
        if has_message && !contains_field(&result, failures[i].0.as_str()) {
            let ghost prev = result@;
            let field: String = failures[i].0.clone();
            let message: String = failures[i].1[0].clone();
            proof {
                assert(message@ == dv[i as int].1[0]);
            }
            result.push(crate::error::ErrorDetail { field, message });
            proof {
                assert(crate::error::detail_views(result@) =~= crate::error::detail_views(prev)
                    + seq![(dv[i as int].0, dv[i as int].1[0])]);
                assert forall|f: Seq<char>|
                    detail_fields(result@).contains(f) == detail_fields(prev).insert(
                        dv[i as int].0,
                    ).contains(f) by {
                    if detail_fields(result@).contains(f) {
                        let j = choose|j: int|
                            0 <= j < result@.len() && (#[trigger] result@[j]).field@ == f;
                        if j < prev.len() {
                            assert(prev[j].field@ == f);
                        }
                    }
                    if detail_fields(prev).contains(f) {
                        let j = choose|j: int|
                            0 <= j < prev.len() && (#[trigger] prev[j]).field@ == f;
                        assert(result@[j].field@ == f);
                    }
                    assert(result@[prev.len() as int].field@ == dv[i as int].0);
                }
                assert(detail_fields(result@) =~= detail_fields(prev).insert(dv[i as int].0));
                assert((crate::error::detail_views(prev) + seq![(dv[i as int].0, dv[i as int].1[0])])
                    + spec_aggregate_from(suffix.drop_first(), detail_fields(result@))
                    =~= crate::error::detail_views(prev) + (seq![(dv[i as int].0, dv[i as int].1[0])]
                    + spec_aggregate_from(suffix.drop_first(), detail_fields(result@))));
            }
        } else {
            proof {
                if has_message {
                    assert(detail_fields(result@).contains(dv[i as int].0));
                } else {
                    assert(dv[i as int].1.len() == 0);
                }
            }
        }
        i = i + 1;
    }
    proof {
        assert(failures.deep_view().subrange(n as int, n as int) =~= Seq::<
            (Seq<char>, Seq<Seq<char>>),
        >::empty());
    }
    result
}

proof fn lemma_aggregate_from_distinct(fs: Seq<(Seq<char>, Seq<Seq<char>>)>, seen: Set<Seq<char>>)
    ensures
        forall|k: int|
            0 <= k < spec_aggregate_from(fs, seen).len() ==> !seen.contains(
                (#[trigger] spec_aggregate_from(fs, seen)[k]).0,
            ),
        forall|k: int, l: int|
            0 <= k < l < spec_aggregate_from(fs, seen).len() ==> (
            #[trigger] spec_aggregate_from(fs, seen)[k]).0 != (
            #[trigger] spec_aggregate_from(fs, seen)[l]).0,
    decreases fs.len(),
{
    if fs.len() > 0 {
        let field = fs[0].0;
        let messages = fs[0].1;
        let res = spec_aggregate_from(fs, seen);
        if !seen.contains(field) && messages.len() > 0 {
            let rest = spec_aggregate_from(fs.drop_first(), seen.insert(field));
            lemma_aggregate_from_distinct(fs.drop_first(), seen.insert(field));
            assert(res == seq![(field, messages[0])] + rest);
            assert forall|k: int| 0 <= k < res.len() implies !seen.contains(
                (#[trigger] res[k]).0,
            ) by {
                if k > 0 {
                    assert(res[k] == rest[k - 1]);
                    assert(!seen.insert(field).contains(rest[k - 1].0));
                }
            }
            assert forall|k: int, l: int| 0 <= k < l < res.len() implies (#[trigger] res[k]).0 != (
            #[trigger] res[l]).0 by {
                assert(res[l] == rest[l - 1]);
                assert(!seen.insert(field).contains(rest[l - 1].0));
                if k > 0 {
                    assert(res[k] == rest[k - 1]);
                }
            }
        } else {
            lemma_aggregate_from_distinct(fs.drop_first(), seen);
            assert(res == spec_aggregate_from(fs.drop_first(), seen));
        }
    }
}

/// Law: the aggregation keeps exactly one entry per field — no field name
/// appears twice in the result, however many failures were queued for it.
pub proof fn lemma_aggregate_fields_distinct(fs: Seq<(Seq<char>, Seq<Seq<char>>)>)
    ensures
        forall|k: int, l: int|
            0 <= k < l < spec_aggregate(fs).len() ==> (#[trigger] spec_aggregate(fs)[k]).0 != (
            #[trigger] spec_aggregate(fs)[l]).0,
{
    lemma_aggregate_from_distinct(fs, Set::<Seq<char>>::empty());
}

} // verus!
