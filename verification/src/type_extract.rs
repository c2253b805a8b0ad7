//! The extraction pass: walk a mirrored module and record, for every node
//! the type-checker resolved, its type under the node's stable identifier.
//!
//! The pass is a visitor with two pieces of state: the accumulating
//! [`TypeMap`] and a single-slot pending body token. An item that carries a
//! body identifier (function, const) records it as pending; reaching the
//! body node consumes the slot, takes the type-checking results for that
//! body from the table, and records each result under
//! `(owner, local_id)`. Reaching a body with the slot empty, or recording
//! a key twice, is a fatal internal-consistency error: the pass stops and
//! reports it instead of guessing ([`ExtractError`]).
//!
//! The whole pass is specified by a small machine: [`mod_trace`] lists, in
//! traversal order, the slot writes and body arrivals the walk produces,
//! and [`run_steps`] folds [`apply_step`] over that list. The contract of
//! [`extract_types`] says the pass returns exactly what that machine
//! computes.

use vstd::prelude::*;

use crate::ids::BodyId;
use crate::ids::HirId;
use crate::ids::ItemLocalId;
use crate::ids::OwnerId;
use crate::item::Body;
use crate::item::Expr;
use crate::item::Impl;
use crate::item::Item;
use crate::item::ItemKind;
use crate::item::Mod;
use crate::ty::Ty;
use crate::type_map::entries_contain_key;
use crate::type_map::ExtractError;
use crate::type_map::TypeMap;
use crate::visit::Visit;

verus! {

/// The type-checking results for one body: every node of that body for
/// which the checker resolved a type, keyed by node-local identifier.
#[derive(Debug, PartialEq, Eq)]
pub struct BodyTypes {
    pub body_id: BodyId,
    pub node_types: Vec<(ItemLocalId, Ty)>,
}

/// The host type-checker's answers, copied out as plain values: one entry
/// per queried body. The extraction pass consumes an entry when its body
/// is reached; a body without an entry simply contributes no types.
#[derive(Debug, PartialEq, Eq)]
pub struct TypeckTable {
    pub bodies: Vec<BodyTypes>,
}

/// One observable event of the walk: an item recording its body token as
/// pending, or a body node being reached.
pub enum WalkStep {
    Pend { id: BodyId },
    Reach { body: Body },
}

/// The machine state of the pass: recorded entries, the single pending
/// slot, the first fatal error if one occurred, and the table entries not
/// yet consumed.
pub struct ExtractState {
    pub entries: Seq<(HirId, Ty)>,
    pub pending: Option<BodyId>,
    pub error: Option<ExtractError>,
    pub bodies: Seq<BodyTypes>,
}

/// The index of the first table entry for this body, if any.
pub open spec fn find_body(bodies: Seq<BodyTypes>, id: BodyId) -> Option<int>
    decreases bodies.len(),
{
    if bodies.len() == 0 {
        None
    } else if bodies[0].body_id == id {
        Some(0int)
    } else {
        match find_body(bodies.drop_first(), id) {
            None => None,
            Some(i) => Some(i + 1),
        }
    }
}

/// Record one body's results in order: each local id is paired with the
/// body's owner to form the key; a key that is already present stops the
/// recording with a duplicate-key error.
pub open spec fn insert_all(
    entries: Seq<(HirId, Ty)>,
    owner: OwnerId,
    results: Seq<(ItemLocalId, Ty)>,
) -> (Seq<(HirId, Ty)>, Option<ExtractError>)
    decreases results.len(),
{
    if results.len() == 0 {
        (entries, None)
    } else {
        let key = HirId { owner, local_id: results[0].0 };
        if entries_contain_key(entries, key) {
            (entries, Some(ExtractError::DuplicateKey { id: key }))
        } else {
            insert_all(entries.push((key, results[0].1)), owner, results.drop_first())
        }
    }
}

/// One transition of the machine. After a fatal error every step is inert.
pub open spec fn apply_step(st: ExtractState, step: WalkStep) -> ExtractState {
    if st.error is Some {
        st
    } else {
        match step {
            WalkStep::Pend { id } => ExtractState {
                entries: st.entries,
                pending: Some(id),
                error: st.error,
                bodies: st.bodies,
            },
            WalkStep::Reach { body } => match st.pending {
                None => ExtractState {
                    entries: st.entries,
                    pending: st.pending,
                    error: Some(ExtractError::MissingPendingOwner),
                    bodies: st.bodies,
                },
                Some(id) => {
                    let owner = id.hir_id.owner;
                    match find_body(st.bodies, id) {
                        None => ExtractState {
                            entries: st.entries,
                            pending: None,
                            error: st.error,
                            bodies: st.bodies,
                        },
                        Some(i) => {
                            let folded = insert_all(st.entries, owner, st.bodies[i].node_types@);
                            ExtractState {
                                entries: folded.0,
                                pending: None,
                                error: folded.1,
                                bodies: st.bodies.remove(i),
                            }
                        },
                    }
                },
            },
        }
    }
}

/// Fold the machine over a list of steps, front first.
pub open spec fn run_steps(st: ExtractState, steps: Seq<WalkStep>) -> ExtractState
    decreases steps.len(),
{
    if steps.len() == 0 {
        st
    } else {
        run_steps(apply_step(st, steps[0]), steps.drop_first())
    }
}

/// The steps an item kind contributes to the walk: a function or const
/// records its body token and reaches its body; a static reaches its body
/// without recording a token; a nested module contributes its own walk;
/// every other kind contributes nothing.
pub open spec fn kind_trace(k: ItemKind) -> Seq<WalkStep>
    decreases k,
{
    match k {
        ItemKind::Static { body, .. } => seq![WalkStep::Reach { body }],
        ItemKind::Const { body_id, body, .. } => seq![
            WalkStep::Pend { id: body_id },
            WalkStep::Reach { body },
        ],
        ItemKind::Fn { body_id, body, .. } => seq![
            WalkStep::Pend { id: body_id },
            WalkStep::Reach { body },
        ],
        ItemKind::Mod { module } => mod_trace(module),
        _ => Seq::empty(),
    }
}

/// The steps one item contributes: those of its kind.
pub open spec fn item_trace(i: Item) -> Seq<WalkStep>
    decreases i,
{
    kind_trace(i.kind)
}

/// The steps of a sequence of items, in source order.
pub open spec fn items_trace(items: Seq<Item>) -> Seq<WalkStep>
    decreases items,
{
    if items.len() == 0 {
        Seq::empty()
    } else {
        item_trace(items[0]) + items_trace(items.drop_first())
    }
}

/// The steps of a whole module: its items in source order.
pub open spec fn mod_trace(m: Mod) -> Seq<WalkStep>
    decreases m,
    via mod_trace_decreases
{
    items_trace(m.items@)
}

#[via_fn]
proof fn mod_trace_decreases(m: Mod) {
    assert(decreases_to!(m => m.items));
    assert(decreases_to!(m.items => m.items@));
}

/// The machine's starting state: nothing recorded, the slot empty, the
/// whole table unconsumed.
pub open spec fn init_state(table: TypeckTable) -> ExtractState {
    ExtractState { entries: Seq::empty(), pending: None, error: None, bodies: table.bodies@ }
}

/// What one extraction pass over a module computes.
pub open spec fn spec_extract(m: Mod, table: TypeckTable) -> ExtractState {
    run_steps(init_state(table), mod_trace(m))
}

/// Folding a concatenation is folding each part in turn.
pub proof fn lemma_run_steps_app(st: ExtractState, a: Seq<WalkStep>, b: Seq<WalkStep>)
    ensures
        run_steps(st, a + b) == run_steps(run_steps(st, a), b),
    decreases a.len(),
{
    if a.len() == 0 {
        assert(a + b =~= b);
    } else {
        assert((a + b)[0] == a[0]);
        assert((a + b).drop_first() =~= a.drop_first() + b);
        lemma_run_steps_app(apply_step(st, a[0]), a.drop_first(), b);
    }
}

/// Folding a single step is applying it.
pub proof fn lemma_run_steps_one(st: ExtractState, step: WalkStep)
    ensures
        run_steps(st, seq![step]) == apply_step(st, step),
{
    assert(seq![step].drop_first() =~= Seq::<WalkStep>::empty());
    assert(run_steps(apply_step(st, step), Seq::<WalkStep>::empty()) == apply_step(st, step));
}

/// Folding two steps is applying them in order.
pub proof fn lemma_run_steps_two(st: ExtractState, s1: WalkStep, s2: WalkStep)
    ensures
        run_steps(st, seq![s1, s2]) == apply_step(apply_step(st, s1), s2),
{
    assert(seq![s1, s2].drop_first() =~= seq![s2]);
    lemma_run_steps_one(apply_step(st, s1), s2);
}

/// The concrete visitor of the extraction pass. Its fields are private:
/// a collector is created, driven over one module, and consumed by
/// [`extract_types`].
pub struct Collector {
    map: TypeMap,
    last_body_id: Option<BodyId>,
    error: Option<ExtractError>,
    table: TypeckTable,
}

impl Collector {
    /// The accumulated map has pairwise distinct keys.
    pub closed spec fn map_wf(&self) -> bool {
        self.map.wf()
    }

    /// The machine state this collector is in.
    pub closed spec fn state(&self) -> ExtractState {
        ExtractState {
            entries: self.map@,
            pending: self.last_body_id,
            error: self.error,
            bodies: self.table.bodies@,
        }
    }

    /// A collector over a fresh map with the whole table unconsumed.
    pub fn new(table: TypeckTable) -> (r: Collector)
        ensures
            r.state() == init_state(table),
            r.map_wf(),
    {
        Collector { map: TypeMap::new(), last_body_id: None, error: None, table }
    }
}

impl Visit for Collector {
    fn visit_mod(&mut self, m: &Mod)
        ensures
            final (self).state() == run_steps(old(self).state(), mod_trace(*m)),
            old(self).map_wf() ==> final (self).map_wf(),
        decreases *m,
    {
        proof {
            assert(m.items@.skip(0) =~= m.items@);
        }
        let ghost st0 = self.state();
        let n = m.items.len();
        for idx in 0..n
            invariant
                n == m.items@.len(),
                run_steps(st0, items_trace(m.items@)) == run_steps(
                    self.state(),
                    items_trace(m.items@.skip(idx as int)),
                ),
                old(self).map_wf() ==> self.map_wf(),
            decreases n - idx,
        {
            proof {
                assert(decreases_to!(*m => m.items));
                assert(decreases_to!(m.items => m.items@));
                assert(decreases_to!(m.items@ => m.items@[idx as int]));
                assert(m.items@.skip(idx as int).drop_first() =~= m.items@.skip(idx + 1));
                assert(m.items@.skip(idx as int)[0] == m.items@[idx as int]);
                lemma_run_steps_app(
                    self.state(),
                    item_trace(m.items@[idx as int]),
                    items_trace(m.items@.skip(idx + 1)),
                );
            }
            self.visit_item(&m.items[idx]);
        }
        proof {
            assert(m.items@.skip(n as int) =~= Seq::<Item>::empty());
        }
    }

    fn visit_item(&mut self, i: &Item)
        ensures
            final (self).state() == run_steps(old(self).state(), item_trace(*i)),
            old(self).map_wf() ==> final (self).map_wf(),
        decreases *i,
    {
        self.visit_item_kind(&i.kind);
    }

    fn visit_item_kind(&mut self, k: &ItemKind)
        ensures
            final (self).state() == run_steps(old(self).state(), kind_trace(*k)),
            old(self).map_wf() ==> final (self).map_wf(),
        decreases *k,
    {
        let ghost st0 = self.state();
        match k {
            ItemKind::Fn { body_id, body, .. } => {
                if self.error.is_none() {
                    self.last_body_id = Some(*body_id);
                }
                proof {
                    assert(self.state() == apply_step(st0, WalkStep::Pend { id: *body_id }));
                    lemma_run_steps_two(
                        st0,
                        WalkStep::Pend { id: *body_id },
                        WalkStep::Reach { body: *body },
                    );
                }
                self.visit_body(body);
            },
            ItemKind::Const { body_id, body, .. } => {
                if self.error.is_none() {
                    self.last_body_id = Some(*body_id);
                }
                proof {
                    assert(self.state() == apply_step(st0, WalkStep::Pend { id: *body_id }));
                    lemma_run_steps_two(
                        st0,
                        WalkStep::Pend { id: *body_id },
                        WalkStep::Reach { body: *body },
                    );
                }
                self.visit_body(body);
            },
            ItemKind::Static { body, .. } => {
                proof {
                    lemma_run_steps_one(st0, WalkStep::Reach { body: *body });
                }
                self.visit_body(body);
            },
            ItemKind::Mod { module } => {
                self.visit_mod(module);
            },
            ItemKind::Impl { implementation } => {
                self.visit_impl(implementation);
            },
            _ => {},
        }
    }

    #[verifier::loop_isolation(false)]
    fn visit_body(&mut self, b: &Body)
        ensures
            final (self).state() == apply_step(
                old(self).state(),
                WalkStep::Reach { body: *b },
            ),
            old(self).map_wf() ==> final (self).map_wf(),
        decreases *b,
    {
        if self.error.is_some() {
            return ;
        }
        let pend = self.last_body_id;
        self.last_body_id = None;
        let id = match pend {
            None => {
                self.error = Some(ExtractError::MissingPendingOwner);
                return ;
            },
            Some(id) => id,
        };
        let owner = id.hir_id.owner;
        let ghost st0 = old(self).state();

        // Find the first table entry for this body.
        let n = self.table.bodies.len();
        let mut j: usize = 0;
        while j < n && self.table.bodies[j].body_id != id
            invariant
                j <= n,
                n == self.table.bodies@.len(),
                forall|k: int| 0 <= k < j ==> self.table.bodies@[k].body_id != id,
            decreases n - j,
        {
            j = j + 1;
        }
        if j == n {
            proof {
                lemma_find_body_none(self.table.bodies@, id);
            }
            // No results for this body: the slot is consumed, nothing recorded.
            return ;
        }
        proof {
            lemma_find_body_at(self.table.bodies@, id, j as int);
        }
        let mut bt = self.table.bodies.remove(j);
        let ghost results = bt.node_types@;
        let ghost entries0 = self.map@;
        proof {
            assert(insert_all(entries0, owner, results) == insert_all(
                self.map@,
                owner,
                bt.node_types@,
            ));
        }
        let ghost target = apply_step(st0, WalkStep::Reach { body: *b });
        proof {
            assert(target == ExtractState {
                entries: insert_all(entries0, owner, results).0,
                pending: None,
                error: insert_all(entries0, owner, results).1,
                bodies: st0.bodies.remove(j as int),
            });
        }
        while bt.node_types.len() > 0
            invariant
                self.error is None,
                self.last_body_id is None,
                self.table.bodies@ == st0.bodies.remove(j as int),
                insert_all(entries0, owner, results) == insert_all(
                    self.map@,
                    owner,
                    bt.node_types@,
                ),
                old(self).map_wf() ==> self.map_wf(),
            decreases bt.node_types.len(),
        {
            let ghost nt_pre = bt.node_types@;
            let ghost map_pre = self.map@;
            proof {
                assert(nt_pre.remove(0) =~= nt_pre.drop_first());
            }
            let pair = bt.node_types.remove(0);
            let key = HirId { owner, local_id: pair.0 };
            match self.map.insert(key, pair.1) {
                Ok(()) => {
                    proof {
                        assert(insert_all(map_pre, owner, nt_pre) == insert_all(
                            map_pre.push((key, pair.1)),
                            owner,
                            nt_pre.drop_first(),
                        ));
                    }
                },
                Err(e) => {
                    proof {
                        assert(insert_all(map_pre, owner, nt_pre) == (
                            map_pre,
                            Some(ExtractError::DuplicateKey { id: key }),
                        ));
                    }
                    self.error = Some(e);
                    return ;
                },
            }
        }
        proof {
            assert(bt.node_types@ =~= Seq::<(ItemLocalId, Ty)>::empty());
            assert(insert_all(self.map@, owner, bt.node_types@) == (
                self.map@,
                None::<ExtractError>,
            ));
        }
    }

    fn visit_impl(&mut self, _i: &Impl)
        ensures
            *final (self) == *old(self),
        decreases *_i,
    {
    }

    fn visit_expr(&mut self, _e: &Expr)
        ensures
            *final (self) == *old(self),
        decreases *_e,
    {
    }
}

/// A scan that stopped at the first match pins [`find_body`] down.
pub proof fn lemma_find_body_at(bodies: Seq<BodyTypes>, id: BodyId, j: int)
    requires
        0 <= j < bodies.len(),
        bodies[j].body_id == id,
        forall|k: int| 0 <= k < j ==> bodies[k].body_id != id,
    ensures
        find_body(bodies, id) == Some(j),
    decreases bodies.len(),
{
    if j > 0 {
        assert(bodies[0].body_id != id);
        assert forall|k: int| 0 <= k < j - 1 implies bodies.drop_first()[k].body_id != id by {
            assert(bodies.drop_first()[k] == bodies[k + 1]);
        }
        assert(bodies.drop_first()[j - 1] == bodies[j]);
        lemma_find_body_at(bodies.drop_first(), id, j - 1);
    }
}

/// A scan that matched nothing means [`find_body`] finds nothing.
pub proof fn lemma_find_body_none(bodies: Seq<BodyTypes>, id: BodyId)
    requires
        forall|k: int| 0 <= k < bodies.len() ==> bodies[k].body_id != id,
    ensures
        find_body(bodies, id) is None,
    decreases bodies.len(),
{
    if bodies.len() > 0 {
        assert forall|k: int| 0 <= k < bodies.drop_first().len() implies bodies.drop_first()[
            k
        ].body_id != id by {
            assert(bodies.drop_first()[k] == bodies[k + 1]);
        }
        lemma_find_body_none(bodies.drop_first(), id);
    }
}

/// Walk a mirrored module and return the mapping from node identifier to
/// resolved type that the type-checking results in `table` induce: for
/// every body reached with a recorded token, each of that body's results
/// keyed by the body owner and the node-local id. Returns the first fatal
/// internal-consistency error instead if the walk reaches a body with no
/// token recorded or a node identifier twice; no partial map is exposed.
/// The returned map is exactly what the specification machine computes.
pub fn extract_types(m: &Mod, table: TypeckTable) -> (r: Result<TypeMap, ExtractError>)
    ensures
        ({
            let fin = spec_extract(*m, table);
            match r {
                Ok(map) => fin.error is None && map@ == fin.entries && map.wf(),
                Err(e) => fin.error == Some(e),
            }
        }),
{
    let mut c = Collector::new(table);
    c.visit_mod(m);
    match c.error {
        Some(e) => Err(e),
        None => Ok(c.map),
    }
}

} // verus!
