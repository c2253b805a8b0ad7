//! The laws the extraction pass obeys, stated over the specification
//! machine of [`crate::type_extract`] and proved once and for all.

use vstd::prelude::*;

use crate::ids::HirId;
use crate::ids::ItemLocalId;
use crate::ids::OwnerId;
use crate::item::Body;
use crate::item::Item;
use crate::item::ItemKind;
use crate::item::Mod;
use crate::ty::ty_is_infer_or_error;
use crate::ty::Ty;
use crate::type_map::entries_contain_key;
use crate::type_map::TypeMap;
use crate::type_extract::apply_step;
use crate::type_extract::find_body;
use crate::type_extract::insert_all;
use crate::type_extract::item_trace;
use crate::type_extract::items_trace;
use crate::type_extract::kind_trace;
use crate::type_extract::mod_trace;
use crate::type_extract::spec_extract;
use crate::type_extract::ExtractState;
use crate::type_extract::TypeckTable;
use crate::type_extract::WalkStep;

verus! {

/// Uniqueness: within one extraction result, two distinct recorded
/// entries never share a node identifier. [`crate::type_extract::extract_types`]
/// ensures `map.wf()` of every map it returns, so this holds of every
/// node pair that received a type.
pub proof fn lemma_uniqueness(map: TypeMap, i: int, j: int)
    requires
        map.wf(),
        0 <= i < map@.len(),
        0 <= j < map@.len(),
        i != j,
    ensures
        map@[i].0 != map@[j].0,
{
}

/// One body's results, each keyed by that body's owner.
pub open spec fn keyed_results(owner: OwnerId, results: Seq<(ItemLocalId, Ty)>) -> Seq<
    (HirId, Ty),
> {
    results.map_values(|p: (ItemLocalId, Ty)| (HirId { owner, local_id: p.0 }, p.1))
}

/// An error-free recording appends exactly the keyed results.
pub proof fn lemma_insert_all_ok(
    entries: Seq<(HirId, Ty)>,
    owner: OwnerId,
    results: Seq<(ItemLocalId, Ty)>,
)
    requires
        insert_all(entries, owner, results).1 is None,
    ensures
        insert_all(entries, owner, results).0 == entries + keyed_results(owner, results),
    decreases results.len(),
{
    if results.len() == 0 {
        assert(keyed_results(owner, results) =~= Seq::<(HirId, Ty)>::empty());
        assert(entries + keyed_results(owner, results) =~= entries);
    } else {
        let key = HirId { owner, local_id: results[0].0 };
        assert(!entries_contain_key(entries, key));
        let pushed = entries.push((key, results[0].1));
        lemma_insert_all_ok(pushed, owner, results.drop_first());
        assert(pushed + keyed_results(owner, results.drop_first()) =~= entries + keyed_results(
            owner,
            results,
        ));
    }
}

/// Completeness per body: when a body whose results the table holds is
/// processed without error, the map gains exactly those results — one new
/// entry per result-bearing node, appended in order, each keyed by the
/// body's owner, with everything recorded before left untouched.
pub proof fn lemma_completeness_per_body(st: ExtractState, b: Body)
    requires
        st.error is None,
        st.pending is Some,
        find_body(st.bodies, st.pending->0) is Some,
        apply_step(st, WalkStep::Reach { body: b }).error is None,
    ensures
        ({
            let st2 = apply_step(st, WalkStep::Reach { body: b });
            let owner = st.pending->0.hir_id.owner;
            let results = st.bodies[find_body(st.bodies, st.pending->0)->0].node_types@;
            st2.entries == st.entries + keyed_results(owner, results) && st2.entries.len()
                == st.entries.len() + results.len() && (forall|k: int|
                st.entries.len() <= k < st2.entries.len() ==> st2.entries[k].0.owner == owner)
        }),
{
    let owner = st.pending->0.hir_id.owner;
    let results = st.bodies[find_body(st.bodies, st.pending->0)->0].node_types@;
    lemma_insert_all_ok(st.entries, owner, results);
}

/// A body the table holds nothing for adds nothing: the map is exactly
/// as it was, and the pass goes on without error.
pub proof fn lemma_body_without_results(st: ExtractState, b: Body)
    requires
        st.error is None,
        st.pending is Some,
        find_body(st.bodies, st.pending->0) is None,
    ensures
        apply_step(st, WalkStep::Reach { body: b }).entries == st.entries,
        apply_step(st, WalkStep::Reach { body: b }).error is None,
{
}

/// No inference leakage: when none of a body's reported types is an
/// inference variable or the error sentinel, none of the entries that
/// processing the body adds to the map is either.
pub proof fn lemma_no_inference_leakage(st: ExtractState, b: Body)
    requires
        st.error is None,
        st.pending is Some,
        find_body(st.bodies, st.pending->0) is Some,
        apply_step(st, WalkStep::Reach { body: b }).error is None,
        forall|k: int|
            0 <= k < st.bodies[find_body(st.bodies, st.pending->0)->0].node_types@.len()
                ==> !ty_is_infer_or_error(
                st.bodies[find_body(st.bodies, st.pending->0)->0].node_types@[k].1,
            ),
    ensures
        forall|k: int|
            st.entries.len() <= k < apply_step(st, WalkStep::Reach { body: b }).entries.len()
                ==> !ty_is_infer_or_error(
                apply_step(st, WalkStep::Reach { body: b }).entries[k].1,
            ),
{
    lemma_completeness_per_body(st, b);
    let st2 = apply_step(st, WalkStep::Reach { body: b });
    let owner = st.pending->0.hir_id.owner;
    let results = st.bodies[find_body(st.bodies, st.pending->0)->0].node_types@;
    assert forall|k: int|
        st.entries.len() <= k < st2.entries.len() implies !ty_is_infer_or_error(
        st2.entries[k].1,
    ) by {
        assert(st2.entries[k] == keyed_results(owner, results)[k - st.entries.len()]);
        assert(st2.entries[k].1 == results[k - st.entries.len()].1);
    }
}

/// The bodies an item kind carries, in source order: one for a static,
/// const or function item, those of a nested module, none otherwise.
pub open spec fn kind_bodies(k: ItemKind) -> Seq<Body>
    decreases k,
{
    match k {
        ItemKind::Static { body, .. } => seq![body],
        ItemKind::Const { body, .. } => seq![body],
        ItemKind::Fn { body, .. } => seq![body],
        ItemKind::Mod { module } => mod_bodies(module),
        _ => Seq::empty(),
    }
}

/// The bodies one item carries.
pub open spec fn item_bodies(i: Item) -> Seq<Body>
    decreases i,
{
    kind_bodies(i.kind)
}

/// The bodies a sequence of items carries, in source order.
pub open spec fn items_bodies(items: Seq<Item>) -> Seq<Body>
    decreases items,
{
    if items.len() == 0 {
        Seq::empty()
    } else {
        item_bodies(items[0]) + items_bodies(items.drop_first())
    }
}

/// The bodies a module carries, in source order, nested modules included.
pub open spec fn mod_bodies(m: Mod) -> Seq<Body>
    decreases m,
    via mod_bodies_decreases
{
    items_bodies(m.items@)
}

#[via_fn]
proof fn mod_bodies_decreases(m: Mod) {
    assert(decreases_to!(m => m.items));
    assert(decreases_to!(m.items => m.items@));
}

/// The bodies a list of walk steps reaches, in order.
pub open spec fn reached_bodies(steps: Seq<WalkStep>) -> Seq<Body>
    decreases steps.len(),
{
    if steps.len() == 0 {
        Seq::empty()
    } else {
        match steps[0] {
            WalkStep::Reach { body } => seq![body] + reached_bodies(steps.drop_first()),
            WalkStep::Pend { .. } => reached_bodies(steps.drop_first()),
        }
    }
}

/// Reaching distributes over concatenation of step lists.
pub proof fn lemma_reached_bodies_app(a: Seq<WalkStep>, b: Seq<WalkStep>)
    ensures
        reached_bodies(a + b) == reached_bodies(a) + reached_bodies(b),
    decreases a.len(),
{
    if a.len() == 0 {
        assert(a + b =~= b);
        assert(reached_bodies(a) + reached_bodies(b) =~= reached_bodies(b));
    } else {
        assert((a + b)[0] == a[0]);
        assert((a + b).drop_first() =~= a.drop_first() + b);
        lemma_reached_bodies_app(a.drop_first(), b);
        match a[0] {
            WalkStep::Reach { body } => {
                assert(seq![body] + (reached_bodies(a.drop_first()) + reached_bodies(b)) =~= (
                seq![body] + reached_bodies(a.drop_first())) + reached_bodies(b));
            },
            WalkStep::Pend { .. } => {},
        }
    }
}

/// A walk that records a token and then reaches one body reaches
/// exactly that body.
pub proof fn lemma_reached_bodies_reach_one(step: WalkStep, body: Body)
    requires
        step == (WalkStep::Reach { body }),
    ensures
        reached_bodies(seq![step]) == seq![body],
{
    assert(seq![step].drop_first() =~= Seq::<WalkStep>::empty());
    assert(reached_bodies(Seq::<WalkStep>::empty()) == Seq::<Body>::empty());
    assert(seq![body] + Seq::<Body>::empty() =~= seq![body]);
}

/// Traversal completeness for one item kind.
pub proof fn lemma_kind_trace_bodies(k: ItemKind)
    ensures
        reached_bodies(kind_trace(k)) == kind_bodies(k),
    decreases k,
{
    match k {
        ItemKind::Static { body, .. } => {
            lemma_reached_bodies_reach_one(WalkStep::Reach { body }, body);
        },
        ItemKind::Const { body_id, body, .. } => {
            let steps = seq![WalkStep::Pend { id: body_id }, WalkStep::Reach { body }];
            assert(steps.drop_first() =~= seq![WalkStep::Reach { body }]);
            lemma_reached_bodies_reach_one(WalkStep::Reach { body }, body);
        },
        ItemKind::Fn { body_id, body, .. } => {
            let steps = seq![WalkStep::Pend { id: body_id }, WalkStep::Reach { body }];
            assert(steps.drop_first() =~= seq![WalkStep::Reach { body }]);
            lemma_reached_bodies_reach_one(WalkStep::Reach { body }, body);
        },
        ItemKind::Mod { module } => {
            lemma_traversal_completeness(module);
        },
        _ => {
            assert(reached_bodies(Seq::<WalkStep>::empty()) == Seq::<Body>::empty());
        },
    }
}

/// Traversal completeness for one item.
pub proof fn lemma_item_trace_bodies(i: Item)
    ensures
        reached_bodies(item_trace(i)) == item_bodies(i),
    decreases i,
{
    lemma_kind_trace_bodies(i.kind);
}

/// Traversal completeness for a sequence of items.
pub proof fn lemma_items_trace_bodies(items: Seq<Item>)
    ensures
        reached_bodies(items_trace(items)) == items_bodies(items),
    decreases items,
{
    if items.len() > 0 {
        assert(decreases_to!(items => items[0]));
        lemma_reached_bodies_app(item_trace(items[0]), items_trace(items.drop_first()));
        lemma_item_trace_bodies(items[0]);
        lemma_items_trace_bodies(items.drop_first());
    }
}

/// Traversal completeness: the walk of a module reaches exactly the
/// bodies that its body-carrying items (function, const, static) hold,
/// once each, in source declaration order at every module level.
pub proof fn lemma_traversal_completeness(m: Mod)
    ensures
        reached_bodies(mod_trace(m)) == mod_bodies(m),
    decreases m,
{
    assert(decreases_to!(m => m.items));
    assert(decreases_to!(m.items => m.items@));
    lemma_items_trace_bodies(m.items@);
}

/// Idempotent re-walk: extracting over structurally identical mirrors
/// with identical tables yields identical outcomes — the same entries,
/// key by key, or the same error.
pub proof fn lemma_idempotent_rewalk(m1: Mod, t1: TypeckTable, m2: Mod, t2: TypeckTable)
    requires
        m1 == m2,
        t1.bodies@ == t2.bodies@,
    ensures
        spec_extract(m1, t1) == spec_extract(m2, t2),
{
    assert(crate::type_extract::init_state(t1) == crate::type_extract::init_state(t2));
}

} // verus!
