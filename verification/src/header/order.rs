//! The order in which headers go on the wire.

use vstd::prelude::*;
use crate::header::map::{contains_name, reject, select, Field, HeaderMap};
use crate::header::original::OriginalHeaders;

verus! {

/// The fields in wire order: for each listed name in turn, the fields of
/// that name; behind them the fields of no listed name, in their order.
pub open spec fn sorted(fields: Seq<Field>, names: Seq<Seq<u8>>) -> Seq<Field>
    decreases names.len(),
{
    if names.len() == 0 {
        fields
    } else {
        select(fields, names[0]) + sorted(reject(fields, names[0]), names.drop_first())
    }
}

/// The fields of a listed name, grouped by name in the order of the list.
pub open spec fn listed(fields: Seq<Field>, names: Seq<Seq<u8>>) -> Seq<Field>
    decreases names.len(),
{
    if names.len() == 0 {
        Seq::empty()
    } else {
        select(fields, names[0]) + listed(reject(fields, names[0]), names.drop_first())
    }
}

/// The fields of no listed name, in their order.
pub open spec fn unlisted(fields: Seq<Field>, names: Seq<Seq<u8>>) -> Seq<Field>
    decreases fields.len(),
{
    if fields.len() == 0 {
        fields
    } else if names.contains(fields.last().name) {
        unlisted(fields.drop_last(), names)
    } else {
        unlisted(fields.drop_last(), names).push(fields.last())
    }
}

/// Sorts the headers in the specified order.
///
/// Headers in `orig` are sorted to the front, preserving their order.
/// Remaining headers are appended in their original order.
pub fn sort_headers(headers: &mut HeaderMap, orig: &OriginalHeaders)
    ensures
        final(headers)@ == sorted(old(headers)@, orig@),
{
    // Create a new header map to store the sorted headers
    let mut sorted_headers = HeaderMap::new();
    let mut i: usize = 0;
    proof {
        assert(orig@.skip(0) =~= orig@);
        assert(sorted_headers@ + sorted(headers@, orig@.skip(0)) =~= sorted(headers@, orig@));
    }
    // First insert headers in the specified order
    while i < orig.len()
        invariant
            i <= orig@.len(),
            sorted(old(headers)@, orig@) == sorted_headers@ + sorted(
                headers@,
                orig@.skip(i as int),
            ),
        decreases orig@.len() - i,
    {
        let name = orig.name(i);
        let ghost before = headers@;
        let ghost done = sorted_headers@;
        let taken = headers.split_by_name(name);
        sorted_headers.extend(taken);
        proof {
            let rest = orig@.skip(i as int);
            assert(rest[0] == orig@[i as int]);
            assert(rest.drop_first() =~= orig@.skip(i + 1));
            assert(done + (select(before, rest[0]) + sorted(
                reject(before, rest[0]),
                rest.drop_first(),
            )) =~= (done + select(before, rest[0])) + sorted(
                reject(before, rest[0]),
                rest.drop_first(),
            ));
        }
        i += 1;
    }
    // Then insert any remaining headers that were not ordered
    let mut rest = HeaderMap::new();
    std::mem::swap(headers, &mut rest);
    sorted_headers.extend(rest);
    std::mem::swap(headers, &mut sorted_headers);
}

/// Rejecting a name commutes with dropping the fields of listed names.
proof fn lemma_unlisted_reject(fields: Seq<Field>, name: Seq<u8>, names: Seq<Seq<u8>>)
    ensures
        unlisted(reject(fields, name), names) == unlisted(fields, seq![name] + names),
    decreases fields.len(),
{
    let all = seq![name] + names;
    if fields.len() > 0 {
        lemma_unlisted_reject(fields.drop_last(), name, names);
        let last = fields.last();
        assert(all[0] == name);
        if last.name == name {
            assert(all.contains(last.name));
        } else {
            let kept = reject(fields, name);
            assert(kept.drop_last() =~= reject(fields.drop_last(), name));
            assert(kept.last() == last);
            if names.contains(last.name) {
                let j = choose|j: int| 0 <= j < names.len() && names[j] == last.name;
                assert(all[j + 1] == last.name);
            }
            if all.contains(last.name) {
                let j = choose|j: int| 0 <= j < all.len() && all[j] == last.name;
                assert(names[j - 1] == last.name);
            }
        }
    }
}

/// With no name listed, every field is unlisted.
proof fn lemma_unlisted_none(fields: Seq<Field>)
    ensures
        unlisted(fields, Seq::empty()) == fields,
    decreases fields.len(),
{
    if fields.len() > 0 {
        lemma_unlisted_none(fields.drop_last());
        assert(fields.drop_last().push(fields.last()) =~= fields);
    }
}

/// Every field of `listed` bears a listed name.
proof fn lemma_listed_names(fields: Seq<Field>, names: Seq<Seq<u8>>)
    ensures
        forall|i: int|
            0 <= i < listed(fields, names).len() ==> names.contains(
                (#[trigger] listed(fields, names)[i]).name,
            ),
    decreases names.len(),
{
    if names.len() > 0 {
        let head = select(fields, names[0]);
        let tail = listed(reject(fields, names[0]), names.drop_first());
        lemma_listed_names(reject(fields, names[0]), names.drop_first());
        crate::header::map::lemma_select_reject(fields, names[0]);
        assert forall|i: int| 0 <= i < listed(fields, names).len() implies names.contains(
            (#[trigger] listed(fields, names)[i]).name,
        ) by {
            if i < head.len() {
                assert(listed(fields, names)[i] == head[i]);
                assert(names[0] == head[i].name);
            } else {
                let f = tail[i - head.len()];
                assert(listed(fields, names)[i] == f);
                let j = choose|j: int|
                    0 <= j < names.drop_first().len() && names.drop_first()[j] == f.name;
                assert(names[j + 1] == f.name);
            }
        }
    }
}

/// No field of `unlisted` bears a listed name.
proof fn lemma_unlisted_names(fields: Seq<Field>, names: Seq<Seq<u8>>)
    ensures
        forall|i: int|
            0 <= i < unlisted(fields, names).len() ==> !names.contains(
                (#[trigger] unlisted(fields, names)[i]).name,
            ),
    decreases fields.len(),
{
    if fields.len() > 0 {
        let front = unlisted(fields.drop_last(), names);
        lemma_unlisted_names(fields.drop_last(), names);
        assert forall|i: int| 0 <= i < unlisted(fields, names).len() implies !names.contains(
            (#[trigger] unlisted(fields, names)[i]).name,
        ) by {
            if i < front.len() {
                assert(unlisted(fields, names)[i] == front[i]);
            }
        }
    }
}

/// Ordered emission: the sorted headers are the fields of listed names,
/// grouped in the order of the list, and behind all of them the fields of
/// no listed name, in the order in which the map held them.
pub proof fn law_ordered_emission(fields: Seq<Field>, names: Seq<Seq<u8>>)
    ensures
        sorted(fields, names) == listed(fields, names) + unlisted(fields, names),
        forall|i: int|
            0 <= i < listed(fields, names).len() ==> names.contains(
                (#[trigger] listed(fields, names)[i]).name,
            ),
        forall|i: int|
            0 <= i < unlisted(fields, names).len() ==> !names.contains(
                (#[trigger] unlisted(fields, names)[i]).name,
            ),
    decreases names.len(),
{
    lemma_listed_names(fields, names);
    lemma_unlisted_names(fields, names);
    if names.len() == 0 {
        lemma_unlisted_none(fields);
        assert(names =~= Seq::<Seq<u8>>::empty());
        assert(Seq::<Field>::empty() + fields =~= fields);
    } else {
        let rest = reject(fields, names[0]);
        law_ordered_emission(rest, names.drop_first());
        lemma_unlisted_reject(fields, names[0], names.drop_first());
        assert(seq![names[0]] + names.drop_first() =~= names);
        assert(select(fields, names[0]) + (listed(rest, names.drop_first()) + unlisted(
            rest,
            names.drop_first(),
        )) =~= (select(fields, names[0]) + listed(rest, names.drop_first())) + unlisted(
            rest,
            names.drop_first(),
        ));
    }
}

pub use crate::header::map::replaced_all;

/// Gives every name that `src` bears, in `dst`, the values that `src` has
/// for it.
pub fn replace_headers(dst: &mut HeaderMap, src: HeaderMap)
    ensures
        final(dst)@ == replaced_all(old(dst)@, src@),
{
    dst.replace_all(src);
}

/// The headers that go out: those of the request, and behind them every
/// default whose name the request does not bear.
pub open spec fn merged(request: Seq<Field>, defaults: Seq<Field>) -> Seq<Field>
    decreases defaults.len(),
{
    if defaults.len() == 0 {
        request
    } else if contains_name(request, defaults.last().name) {
        merged(request, defaults.drop_last())
    } else {
        merged(request, defaults.drop_last()).push(defaults.last())
    }
}

/// Gives the request every default header whose name it does not bear yet.
/// A default with more than one value is taken over with all of them.
pub fn merge_defaults(headers: &mut HeaderMap, defaults: &HeaderMap)
    ensures
        final(headers)@ == merged(old(headers)@, defaults@),
{
    let mut added = HeaderMap::new();
    let mut i: usize = 0;
    proof {
        assert(defaults@.take(0) =~= Seq::<Field>::empty());
        assert(headers@ + added@ =~= headers@);
    }
    while i < defaults.len()
        invariant
            i <= defaults@.len(),
            headers@ == old(headers)@,
            headers@ + added@ == merged(headers@, defaults@.take(i as int)),
        decreases defaults@.len() - i,
    {
        let name = defaults.name_at(i);
        proof {
            assert(defaults@.take(i + 1).drop_last() =~= defaults@.take(i as int));
            assert(defaults@.take(i + 1).last() == defaults@[i as int]);
        }
        if !headers.contains_key(name) {
            let ghost before = added@;
            added.append(name.clone(), defaults.value_at(i).clone());
            proof {
                assert(headers@ + before.push(defaults@[i as int]) =~= (headers@ + before).push(
                    defaults@[i as int],
                ));
            }
        }
        i += 1;
    }
    proof {
        assert(defaults@.take(defaults@.len() as int) =~= defaults@);
    }
    headers.extend(added);
}

/// The default-header merge: what the request says of a name stands, and a
/// default speaks only for a name of which the request says nothing.
pub proof fn law_defaults_do_not_override(request: Seq<Field>, defaults: Seq<Field>, name: Seq<u8>)
    ensures
        select(merged(request, defaults), name) == (if contains_name(request, name) {
            select(request, name)
        } else {
            select(defaults, name)
        }),
        merged(request, defaults).len() >= request.len(),
        merged(request, defaults).take(request.len() as int) == request,
    decreases defaults.len(),
{
    if defaults.len() == 0 {
        assert(merged(request, defaults).take(request.len() as int) =~= request);
        crate::header::map::lemma_select_reject(request, name);
    } else {
        let front = defaults.drop_last();
        law_defaults_do_not_override(request, front, name);
        let m = merged(request, front);
        if !contains_name(request, defaults.last().name) {
            assert(m.push(defaults.last()).drop_last() =~= m);
            assert(m.push(defaults.last()).take(request.len() as int) =~= m.take(
                request.len() as int,
            ));
        }
    }
}

} // verus!
