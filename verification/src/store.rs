//! The route-table store: the only state shared by all request handlers.
//!
//! It holds two reusable table generations and a monotonically advanced
//! selector whose parity names the active slot. Readers resolve against
//! the active slot; a rebuild clears and refills the inactive slot and
//! then publishes it by advancing the selector, so a reader never sees a
//! half-built generation and a reader of the previous generation finds it
//! intact until the next rebuild overwrites it.

use vstd::prelude::*;

use crate::api::ApiView;
use crate::api::DeserializedApi;
use crate::api::ManagedApi;
use crate::api::classify;
use crate::api::is_malformed;
use crate::api::lemma_classify_wf;
use crate::api::malformed;
use crate::table::RouteTable;
use crate::table::TableView;
use crate::table::empty_table;
use crate::table::table_find;
use crate::table::table_insert;
use crate::table::table_wf;

verus! {

/// Two table generations plus the parity-selected generation counter.
#[derive(Debug)]
pub struct RouteTableStore {
    map_left: RouteTable,
    map_right: RouteTable,
    global_view: usize,
}

/// Mathematical image of the store.
pub ghost struct StoreView {
    pub left: TableView,
    pub right: TableView,
    pub selector: nat,
}

impl View for RouteTableStore {
    type V = StoreView;

    closed spec fn view(&self) -> StoreView {
        StoreView {
            left: self.map_left@,
            right: self.map_right@,
            selector: self.global_view as nat,
        }
    }
}

/// The generation visible to readers: left on even selector, right on odd.
pub open spec fn active_of(s: StoreView) -> TableView {
    if s.selector % 2 == 0 {
        s.left
    } else {
        s.right
    }
}

/// The generation the next rebuild overwrites.
pub open spec fn inactive_of(s: StoreView) -> TableView {
    if s.selector % 2 == 0 {
        s.right
    } else {
        s.left
    }
}

/// One definition folded into a generation under construction: a
/// malformed definition is skipped, every other one is classified and
/// inserted.
pub open spec fn insert_def(t: TableView, d: ApiView) -> TableView {
    if malformed(d) {
        t
    } else {
        table_insert(t, classify(d))
    }
}

/// A definition list folded into a generation, first to last.
pub open spec fn apply_defs(t: TableView, defs: Seq<ApiView>) -> TableView
    decreases defs.len(),
{
    if defs.len() == 0 {
        t
    } else {
        apply_defs(insert_def(t, defs[0]), defs.drop_first())
    }
}

/// The generation a definition list builds: the fold from the empty
/// table, so it holds exactly the routes of the list and nothing older.
pub open spec fn build_table(defs: Seq<ApiView>) -> TableView {
    apply_defs(empty_table(), defs)
}

proof fn lemma_apply_defs_snoc(t: TableView, defs: Seq<ApiView>, d: ApiView)
    ensures
        apply_defs(t, defs.push(d)) == insert_def(apply_defs(t, defs), d),
    decreases defs.len(),
{
    if defs.len() == 0 {
        assert(defs.push(d)[0] == d);
        assert(defs.push(d).drop_first() =~= Seq::<ApiView>::empty());
        assert(apply_defs(t, defs.push(d)) == apply_defs(insert_def(t, d), defs.push(d).drop_first()));
        assert(apply_defs(t, defs.push(d)) == insert_def(t, d));
        assert(apply_defs(t, defs) == t);
    } else {
        assert(defs.push(d)[0] == defs[0]);
        assert(defs.push(d).drop_first() =~= defs.drop_first().push(d));
        assert(apply_defs(t, defs.push(d)) == apply_defs(
            insert_def(t, defs[0]),
            defs.drop_first().push(d),
        ));
        lemma_apply_defs_snoc(insert_def(t, defs[0]), defs.drop_first(), d);
        assert(apply_defs(t, defs) == apply_defs(insert_def(t, defs[0]), defs.drop_first()));
    }
}

/// Rebuilding from the same definition list is idempotent: any two
/// generations built from the same list answer every lookup alike, so
/// applying an identical list twice leaves the lookup behaviour
/// functionally unchanged.
pub proof fn lemma_apply_idempotent(
    defs: Seq<ApiView>,
    t1: TableView,
    t2: TableView,
    m: Seq<char>,
    p: Seq<char>,
)
    requires
        t1 == build_table(defs),
        t2 == build_table(defs),
    ensures
        table_find(t1, m, p) == table_find(t2, m, p),
{
}

impl RouteTableStore {
    /// Store invariant: both generations satisfy the table invariant.
    pub open spec fn wf(&self) -> bool {
        table_wf(self@.left) && table_wf(self@.right)
    }

    /// A store whose two generations are empty, with the left slot active.
    pub fn new() -> (r: Self)
        ensures
            r.wf(),
            active_of(r@) == empty_table(),
            inactive_of(r@) == empty_table(),
    {
        RouteTableStore {
            map_left: RouteTable::new(),
            map_right: RouteTable::new(),
            global_view: 0,
        }
    }

    /// The parity of the generation selector: 0 reads the left slot, 1
    /// the right slot.
    pub fn get_gloval_view(&self) -> (v: usize)
        ensures
            v as nat == self@.selector % 2,
    {
        let v = self.global_view & 1;
        proof {
            let g = self.global_view;
            assert(g & 1 == g % 2) by (bit_vector);
        }
        v
    }

    /// Publishes the freshly rebuilt slot: advancing the selector swaps
    /// the active and the inactive generation and changes nothing else.
    pub fn change_global_view(&mut self)
        ensures
            final(self)@.left == old(self)@.left,
            final(self)@.right == old(self)@.right,
            active_of(final(self)@) == inactive_of(old(self)@),
            inactive_of(final(self)@) == active_of(old(self)@),
    {
        if self.global_view == usize::MAX {
            self.global_view = 0;
        } else {
            self.global_view = self.global_view + 1;
        }
    }

    /// Shared, non-blocking read access to the active generation; a
    /// concurrent rebuild only ever writes the other slot.
    pub fn read_active(&self) -> (t: &RouteTable)
        requires
            self.wf(),
        ensures
            t@ == active_of(self@),
            t.wf(),
    {
        if self.get_gloval_view() == 0 {
            &self.map_left
        } else {
            &self.map_right
        }
    }

    /// Resolves a request line against the active generation.
    pub fn find_api_by_reqline(&self, method: &str, uri: &str) -> (r: Option<ManagedApi>)
        requires
            self.wf(),
        ensures
            r.deep_view() == table_find(active_of(self@), method@, uri@),
    {
        if self.get_gloval_view() == 0 {
            self.map_left.find(method, uri)
        } else {
            self.map_right.find(method, uri)
        }
    }

    /// Begins a rebuild: clears the inactive slot. The active generation
    /// and the selector are untouched.
    pub fn clear_old_map(&mut self)
        requires
            old(self).wf(),
        ensures
            final(self).wf(),
            final(self)@.selector == old(self)@.selector,
            active_of(final(self)@) == active_of(old(self)@),
            inactive_of(final(self)@) == empty_table(),
    {
        if self.get_gloval_view() == 0 {
            self.map_right.clear();
        } else {
            self.map_left.clear();
        }
    }

    /// Folds one definition into the inactive slot: a malformed
    /// definition is skipped without aborting anything, every other one
    /// is classified and inserted. The active generation and the selector
    /// are untouched.
    pub fn insert_api_into_new_map(&mut self, api: DeserializedApi)
        requires
            old(self).wf(),
        ensures
            final(self).wf(),
            final(self)@.selector == old(self)@.selector,
            active_of(final(self)@) == active_of(old(self)@),
            inactive_of(final(self)@) == insert_def(inactive_of(old(self)@), api@),
    {
        if is_malformed(&api) {
            return ;
        }
        proof {
            lemma_classify_wf(api@);
        }
        let m_api = ManagedApi::new(api);
        if self.get_gloval_view() == 0 {
            self.map_right.insert(m_api);
        } else {
            self.map_left.insert(m_api);
        }
    }

    /// Applies a whole definition list: the inactive slot is rebuilt from
    /// empty — so the new generation holds exactly the routes of the list,
    /// with no leftovers from any prior generation — and published by
    /// advancing the selector. The generation that was active before the
    /// call is kept intact as the new inactive slot, so a reader that
    /// acquired it beforehand keeps observing it unchanged. An empty list
    /// is a valid drain: it publishes a generation where every lookup
    /// misses.
    pub fn insert_apis_into_new_map(&mut self, apis: Vec<DeserializedApi>)
        requires
            old(self).wf(),
        ensures
            final(self).wf(),
            active_of(final(self)@) == build_table(apis.deep_view()),
            inactive_of(final(self)@) == active_of(old(self)@),
    {
        let ghost defs = apis.deep_view();
        self.clear_old_map();
        let mut i: usize = 0;
        while i < apis.len()
            invariant
                self.wf(),
                i <= apis.len(),
                defs == apis.deep_view(),
                defs.len() == apis.len(),
                active_of(self@) == active_of(old(self)@),
                inactive_of(self@) == apply_defs(empty_table(), defs.take(i as int)),
            decreases apis.len() - i,
        {
            proof {
                assert(defs[i as int] == apis@[i as int].deep_view());
            }
            let api = apis[i].clone();
            self.insert_api_into_new_map(api);
            proof {
                lemma_apply_defs_snoc(empty_table(), defs.take(i as int), defs[i as int]);
                assert(defs.take(i as int).push(defs[i as int]) =~= defs.take(i as int + 1));
            }
            i += 1;
        }
        proof {
            assert(defs.take(apis.len() as int) =~= defs);
        }
        self.change_global_view();
    }

    /// The control channel's `apply(definitions)`: a whole-table
    /// replacement; see `insert_apis_into_new_map`.
    pub fn apply(&mut self, apis: Vec<DeserializedApi>)
        requires
            old(self).wf(),
        ensures
            final(self).wf(),
            active_of(final(self)@) == build_table(apis.deep_view()),
            inactive_of(final(self)@) == active_of(old(self)@),
    {
        self.insert_apis_into_new_map(apis);
    }
}

} // verus!
