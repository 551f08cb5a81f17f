//! One generation of the routing table and the request matcher.
//!
//! A table is split into an exact-match partition, keyed by canonical base
//! path with unique keys and last-write-wins on duplicates, and an ordered
//! prefix-match partition where the first matching entry in insertion
//! order wins. Matching tries the exact partition first; a prefix match
//! rewrites the target path by appending the remainder of the request
//! path, from the path separator that closes the matched prefix, to the
//! target path template.

use vstd::prelude::*;

use crate::api::ApiView;
use crate::api::EntryView;
use crate::api::ManagedApi;
use crate::api::MatchType;
use crate::api::entry_wf;
use crate::text::str_eq;

verus! {

/// One generation of the routing table.
#[derive(Debug)]
pub struct RouteTable {
    exact_match: Vec<ManagedApi>,
    prefix_match: Vec<ManagedApi>,
}

/// Mathematical image of a table generation.
pub ghost struct TableView {
    pub exact: Seq<EntryView>,
    pub prefix: Seq<EntryView>,
}

impl View for RouteTable {
    type V = TableView;

    closed spec fn view(&self) -> TableView {
        TableView {
            exact: self.exact_match.deep_view(),
            prefix: self.prefix_match.deep_view(),
        }
    }
}

/// The table with no entries at all.
pub open spec fn empty_table() -> TableView {
    TableView { exact: Seq::empty(), prefix: Seq::empty() }
}

/// Table invariant: every entry satisfies the entry invariant, each
/// partition holds only entries of its kind, and exact keys are unique.
pub open spec fn table_wf(t: TableView) -> bool {
    &&& forall|i: int|
        0 <= i < t.exact.len() ==> entry_wf(#[trigger] t.exact[i]) && !t.exact[i].prefix
    &&& forall|i: int|
        0 <= i < t.prefix.len() ==> entry_wf(#[trigger] t.prefix[i]) && t.prefix[i].prefix
    &&& forall|i: int, j: int|
        #![trigger t.exact[i], t.exact[j]]
        0 <= i < j < t.exact.len() ==> t.exact[i].api.base_path != t.exact[j].api.base_path
}

/// Whether the method set of an entry contains the request method.
pub open spec fn method_allowed(methods: Seq<Seq<char>>, m: Seq<char>) -> bool {
    exists|i: int| 0 <= i < methods.len() && methods[i] == m
}

/// An exact entry matches when its canonical base path equals the request
/// path and the request method is allowed.
pub open spec fn exact_entry_matches(e: EntryView, m: Seq<char>, p: Seq<char>) -> bool {
    e.api.base_path == p && method_allowed(e.api.methods, m)
}

/// A prefix entry matches when its canonical base path is a literal prefix
/// of the request path and the request method is allowed.
pub open spec fn prefix_entry_matches(e: EntryView, m: Seq<char>, p: Seq<char>) -> bool {
    &&& e.api.base_path.len() <= p.len()
    &&& p.take(e.api.base_path.len() as int) == e.api.base_path
    &&& method_allowed(e.api.methods, m)
}

/// The rewritten target path of a prefix match: the target path template
/// (a trailing path separator dropped, so the two parts join cleanly)
/// followed by the remainder of the request path, starting at the path
/// separator that closes the matched prefix.
pub open spec fn rewrite_target(template: Seq<char>, base_len: int, p: Seq<char>) -> Seq<char> {
    let t = if template.len() > 0 && template[template.len() - 1] == '/' {
        template.take(template.len() - 1)
    } else {
        template
    };
    let start = if base_len == 0 {
        0
    } else {
        base_len - 1
    };
    t + p.skip(start)
}

/// The resolution produced by a prefix match: the entry with its target
/// path template replaced by the rewritten target path.
pub open spec fn resolve_entry(e: EntryView, p: Seq<char>) -> EntryView {
    EntryView {
        prefix: e.prefix,
        api: ApiView {
            target_path: rewrite_target(e.api.target_path, e.api.base_path.len() as int, p),
            ..e.api
        },
    }
}

/// The first entry of the exact partition that matches, scanned in order.
pub open spec fn find_exact(s: Seq<EntryView>, m: Seq<char>, p: Seq<char>) -> Option<EntryView>
    decreases s.len(),
{
    if s.len() == 0 {
        None
    } else if exact_entry_matches(s[0], m, p) {
        Some(s[0])
    } else {
        find_exact(s.drop_first(), m, p)
    }
}

/// The resolution of the first prefix entry that matches, in insertion
/// order; there is no longest-prefix scoring.
pub open spec fn find_prefix(s: Seq<EntryView>, m: Seq<char>, p: Seq<char>) -> Option<EntryView>
    decreases s.len(),
{
    if s.len() == 0 {
        None
    } else if prefix_entry_matches(s[0], m, p) {
        Some(resolve_entry(s[0], p))
    } else {
        find_prefix(s.drop_first(), m, p)
    }
}

/// The result of a table lookup: the exact phase, and only when it yields
/// nothing, the prefix phase.
pub open spec fn table_find(t: TableView, m: Seq<char>, p: Seq<char>) -> Option<EntryView> {
    match find_exact(t.exact, m, p) {
        Some(e) => Some(e),
        None => find_prefix(t.prefix, m, p),
    }
}

/// The exact partition after inserting an entry: the first entry with the
/// same key is replaced, otherwise the entry is appended.
pub open spec fn exact_insert(s: Seq<EntryView>, e: EntryView) -> Seq<EntryView>
    decreases s.len(),
{
    if s.len() == 0 {
        seq![e]
    } else if s[0].api.base_path == e.api.base_path {
        seq![e] + s.drop_first()
    } else {
        seq![s[0]] + exact_insert(s.drop_first(), e)
    }
}

/// A table after inserting one compiled entry into the partition of its
/// kind.
pub open spec fn table_insert(t: TableView, e: EntryView) -> TableView {
    if e.prefix {
        TableView { exact: t.exact, prefix: t.prefix.push(e) }
    } else {
        TableView { exact: exact_insert(t.exact, e), prefix: t.prefix }
    }
}

proof fn lemma_exact_insert_found(s: Seq<EntryView>, e: EntryView, i: int)
    requires
        0 <= i < s.len(),
        forall|j: int| 0 <= j < i ==> (#[trigger] s[j]).api.base_path != e.api.base_path,
        s[i].api.base_path == e.api.base_path,
    ensures
        exact_insert(s, e) == s.update(i, e),
    decreases i,
{
    if i == 0 {
        assert(exact_insert(s, e) =~= s.update(0, e));
    } else {
        assert(s.drop_first()[i - 1] == s[i]);
        lemma_exact_insert_found(s.drop_first(), e, i - 1);
        assert(exact_insert(s, e) =~= s.update(i, e));
    }
}

proof fn lemma_exact_insert_notfound(s: Seq<EntryView>, e: EntryView)
    requires
        forall|j: int| 0 <= j < s.len() ==> (#[trigger] s[j]).api.base_path != e.api.base_path,
    ensures
        exact_insert(s, e) == s.push(e),
    decreases s.len(),
{
    if s.len() == 0 {
        assert(exact_insert(s, e) =~= s.push(e));
    } else {
        lemma_exact_insert_notfound(s.drop_first(), e);
        assert(exact_insert(s, e) =~= s.push(e));
    }
}

impl RouteTable {
    /// Table invariant; see `table_wf`.
    pub open spec fn wf(&self) -> bool {
        table_wf(self@)
    }

    /// An empty table: every lookup misses.
    pub fn new() -> (r: Self)
        ensures
            r@ == empty_table(),
            r.wf(),
    {
        let exact_match: Vec<ManagedApi> = Vec::new();
        let prefix_match: Vec<ManagedApi> = Vec::new();
        let r = RouteTable { exact_match, prefix_match };
        assert(r@.exact =~= empty_table().exact);
        assert(r@.prefix =~= empty_table().prefix);
        r
    }

    /// Removes every entry.
    pub fn clear(&mut self)
        ensures
            final(self)@ == empty_table(),
            final(self).wf(),
    {
        self.exact_match.clear();
        self.prefix_match.clear();
        assert(self@.exact =~= empty_table().exact);
        assert(self@.prefix =~= empty_table().prefix);
    }

    /// Inserts one compiled entry into the partition of its kind. A
    /// duplicate exact key replaces the earlier entry; a prefix entry is
    /// appended behind all earlier prefix entries.
    pub fn insert(&mut self, m_api: ManagedApi)
        requires
            old(self).wf(),
            entry_wf(m_api@),
        ensures
            final(self)@ == table_insert(old(self)@, m_api@),
            final(self).wf(),
    {
        match m_api.match_type {
            MatchType::Prefix => {
                let ghost pfx = old(self)@.prefix;
                let ghost e = m_api@;
                self.prefix_match.push(m_api);
                proof {
                    assert(self@.prefix =~= pfx.push(e));
                    assert(self@.exact == old(self)@.exact);
                    let t2 = self@.prefix;
                    assert forall|j: int|
                        0 <= j < t2.len() implies entry_wf(#[trigger] t2[j]) && t2[j].prefix by {
                        if j != pfx.len() as int {
                            assert(t2[j] == pfx[j]);
                        } else {
                            assert(t2[j] == e);
                        }
                    }
                    assert(table_wf(self@));
                }
            },
            MatchType::Exact => {
                let ghost s = old(self)@.exact;
                let ghost pfx = old(self)@.prefix;
                let ghost e = m_api@;
                let mut i: usize = 0;
                while i < self.exact_match.len()
                    invariant
                        self@ == old(self)@,
                        self.wf(),
                        i <= self.exact_match.len(),
                        s == self@.exact,
                        pfx == self@.prefix,
                        e == m_api@,
                        !e.prefix,
                        entry_wf(e),
                        forall|j: int|
                            0 <= j < i ==> (#[trigger] s[j]).api.base_path != e.api.base_path,
                    decreases self.exact_match.len() - i,
                {
                    proof {
                        assert(s[i as int] == self.exact_match@[i as int].deep_view());
                    }
                    if str_eq(
                        self.exact_match[i].de_api.base_path.as_str(),
                        m_api.de_api.base_path.as_str(),
                    ) {
                        assert(s[i as int].api.base_path == e.api.base_path);
                        self.exact_match.set(i, m_api);
                        proof {
                            lemma_exact_insert_found(s, e, i as int);
                            assert(self@.exact =~= s.update(i as int, e));
                            let t2 = self@.exact;
                            assert forall|a: int, b: int|
                                #![trigger t2[a], t2[b]]
                                0 <= a < b < t2.len() implies t2[a].api.base_path
                                != t2[b].api.base_path by {
                                if a == i as int {
                                    assert(t2[a] == e && t2[b] == s[b]);
                                    assert(s[i as int].api.base_path != s[b].api.base_path);
                                } else if b == i as int {
                                    assert(t2[a] == s[a] && t2[b] == e);
                                    assert(s[a].api.base_path != s[i as int].api.base_path);
                                } else {
                                    assert(t2[a] == s[a] && t2[b] == s[b]);
                                }
                            }
                            assert forall|j: int|
                                0 <= j < t2.len() implies entry_wf(#[trigger] t2[j])
                                && !t2[j].prefix by {
                                if j != i as int {
                                    assert(t2[j] == s[j]);
                                }
                            }
                            assert(self@.prefix == pfx);
                            assert forall|j: int|
                                0 <= j < self@.prefix.len() implies entry_wf(
                                #[trigger] self@.prefix[j],
                            ) && self@.prefix[j].prefix by {
                                assert(self@.prefix[j] == pfx[j]);
                            }
                            assert(table_wf(self@));
                        }
                        return ;
                    }
                    i += 1;
                }
                proof {
                    lemma_exact_insert_notfound(s, e);
                }
                self.exact_match.push(m_api);
                proof {
                    assert(self@.exact =~= s.push(e));
                    let t2 = self@.exact;
                    assert forall|a: int, b: int|
                        #![trigger t2[a], t2[b]]
                        0 <= a < b < t2.len() implies t2[a].api.base_path
                        != t2[b].api.base_path by {
                        if b == s.len() as int {
                            assert(t2[a] == s[a] && t2[b] == e);
                            assert(s[a].api.base_path != e.api.base_path);
                        } else {
                            assert(t2[a] == s[a] && t2[b] == s[b]);
                        }
                    }
                    assert forall|j: int|
                        0 <= j < t2.len() implies entry_wf(#[trigger] t2[j]) && !t2[j].prefix by {
                        if j != s.len() as int {
                            assert(t2[j] == s[j]);
                        }
                    }
                    assert(self@.prefix == pfx);
                    assert forall|j: int|
                        0 <= j < self@.prefix.len() implies entry_wf(
                        #[trigger] self@.prefix[j],
                    ) && self@.prefix[j].prefix by {
                        assert(self@.prefix[j] == pfx[j]);
                    }
                    assert(table_wf(self@));
                }
            },
        }
    }
}

proof fn lemma_find_exact_at(s: Seq<EntryView>, m: Seq<char>, p: Seq<char>, i: int)
    requires
        0 <= i < s.len(),
        forall|j: int| 0 <= j < i ==> !exact_entry_matches(#[trigger] s[j], m, p),
        exact_entry_matches(s[i], m, p),
    ensures
        find_exact(s, m, p) == Some(s[i]),
    decreases i,
{
    if i == 0 {
    } else {
        assert(s.drop_first()[i - 1] == s[i]);
        assert forall|j: int| 0 <= j < i - 1 implies !exact_entry_matches(
            #[trigger] s.drop_first()[j],
            m,
            p,
        ) by {
            assert(s.drop_first()[j] == s[j + 1]);
        }
        lemma_find_exact_at(s.drop_first(), m, p, i - 1);
    }
}

proof fn lemma_find_exact_none(s: Seq<EntryView>, m: Seq<char>, p: Seq<char>)
    requires
        forall|j: int| 0 <= j < s.len() ==> !exact_entry_matches(#[trigger] s[j], m, p),
    ensures
        find_exact(s, m, p) is None,
    decreases s.len(),
{
    if s.len() == 0 {
    } else {
        assert forall|j: int| 0 <= j < s.drop_first().len() implies !exact_entry_matches(
            #[trigger] s.drop_first()[j],
            m,
            p,
        ) by {
            assert(s.drop_first()[j] == s[j + 1]);
        }
        lemma_find_exact_none(s.drop_first(), m, p);
    }
}

proof fn lemma_find_prefix_at(s: Seq<EntryView>, m: Seq<char>, p: Seq<char>, i: int)
    requires
        0 <= i < s.len(),
        forall|j: int| 0 <= j < i ==> !prefix_entry_matches(#[trigger] s[j], m, p),
        prefix_entry_matches(s[i], m, p),
    ensures
        find_prefix(s, m, p) == Some(resolve_entry(s[i], p)),
    decreases i,
{
    if i == 0 {
    } else {
        assert(s.drop_first()[i - 1] == s[i]);
        assert forall|j: int| 0 <= j < i - 1 implies !prefix_entry_matches(
            #[trigger] s.drop_first()[j],
            m,
            p,
        ) by {
            assert(s.drop_first()[j] == s[j + 1]);
        }
        lemma_find_prefix_at(s.drop_first(), m, p, i - 1);
    }
}

proof fn lemma_find_prefix_none(s: Seq<EntryView>, m: Seq<char>, p: Seq<char>)
    requires
        forall|j: int| 0 <= j < s.len() ==> !prefix_entry_matches(#[trigger] s[j], m, p),
    ensures
        find_prefix(s, m, p) is None,
    decreases s.len(),
{
    if s.len() == 0 {
    } else {
        assert forall|j: int| 0 <= j < s.drop_first().len() implies !prefix_entry_matches(
            #[trigger] s.drop_first()[j],
            m,
            p,
        ) by {
            assert(s.drop_first()[j] == s[j + 1]);
        }
        lemma_find_prefix_none(s.drop_first(), m, p);
    }
}

/// Whether the method list of an entry contains the request method.
fn contains_method(methods: &Vec<String>, method: &str) -> (r: bool)
    ensures
        r == method_allowed(methods.deep_view(), method@),
{
    let mut i: usize = 0;
    while i < methods.len()
        invariant
            i <= methods.len(),
            forall|j: int| 0 <= j < i ==> methods.deep_view()[j] != method@,
        decreases methods.len() - i,
    {
        if str_eq(methods[i].as_str(), method) {
            assert(methods.deep_view()[i as int] == method@);
            return true;
        }
        assert(methods.deep_view()[i as int] != method@);
        i += 1;
    }
    false
}

/// The rewritten target path of a prefix match; see `rewrite_target`.
fn rewrite_target_exec(template: &String, base_len: usize, uri: &str) -> (r: String)
    requires
        base_len <= uri@.len(),
    ensures
        r@ == rewrite_target(template@, base_len as int, uri@),
{
    let tlen = template.as_str().unicode_len();
    let mut out: String;
    if tlen > 0 && template.as_str().get_char(tlen - 1) == '/' {
        out = String::from_str(template.as_str().substring_char(0, tlen - 1));
    } else {
        out = template.clone();
    }
    let ulen = uri.unicode_len();
    let start: usize = if base_len == 0 {
        0
    } else {
        base_len - 1
    };
    out.append(uri.substring_char(start, ulen));
    out
}

impl RouteTable {
    /// Looks the request up in this generation. The exact phase wins over
    /// the prefix phase; within the prefix phase the first matching entry
    /// in insertion order wins, and its target path is rewritten with the
    /// remainder of the request path. `None` exactly when no entry of
    /// either partition matches the method and path.
    pub fn find(&self, method: &str, uri: &str) -> (r: Option<ManagedApi>)
        requires
            self.wf(),
        ensures
            r.deep_view() == table_find(self@, method@, uri@),
    {
        let mut i: usize = 0;
        while i < self.exact_match.len()
            invariant
                self.wf(),
                i <= self.exact_match.len(),
                forall|j: int|
                    0 <= j < i ==> !exact_entry_matches(#[trigger] self@.exact[j], method@, uri@),
            decreases self.exact_match.len() - i,
        {
            proof {
                assert(self@.exact[i as int] == self.exact_match@[i as int].deep_view());
            }
            let e = &self.exact_match[i];
            if str_eq(e.de_api.base_path.as_str(), uri) {
                if contains_method(&e.de_api.methods, method) {
                    proof {
                        assert(exact_entry_matches(self@.exact[i as int], method@, uri@));
                        lemma_find_exact_at(self@.exact, method@, uri@, i as int);
                    }
                    let found = e.clone();
                    return Some(found);
                }
            }
            assert(!exact_entry_matches(self@.exact[i as int], method@, uri@));
            i += 1;
        }
        proof {
            lemma_find_exact_none(self@.exact, method@, uri@);
        }

        let ulen = uri.unicode_len();
        let mut k: usize = 0;
        while k < self.prefix_match.len()
            invariant
                self.wf(),
                ulen == uri@.len(),
                k <= self.prefix_match.len(),
                find_exact(self@.exact, method@, uri@) is None,
                forall|j: int|
                    0 <= j < k ==> !prefix_entry_matches(#[trigger] self@.prefix[j], method@, uri@),
            decreases self.prefix_match.len() - k,
        {
            proof {
                assert(self@.prefix[k as int] == self.prefix_match@[k as int].deep_view());
            }
            let e = &self.prefix_match[k];
            let blen = e.de_api.base_path.as_str().unicode_len();
            if blen <= ulen {
                let sliced = uri.substring_char(0, blen);
                if str_eq(sliced, e.de_api.base_path.as_str()) {
                    if contains_method(&e.de_api.methods, method) {
                        proof {
                            assert(prefix_entry_matches(self@.prefix[k as int], method@, uri@));
                            lemma_find_prefix_at(self@.prefix, method@, uri@, k as int);
                        }
                        let mut found = e.clone();
                        let new_target = rewrite_target_exec(&e.de_api.target_path, blen, uri);
                        found.de_api.target_path = new_target;
                        assert(found.deep_view() == resolve_entry(
                            self@.prefix[k as int],
                            uri@,
                        ));
                        return Some(found);
                    }
                }
            }
            assert(!prefix_entry_matches(self@.prefix[k as int], method@, uri@));
            k += 1;
        }
        proof {
            lemma_find_prefix_none(self@.prefix, method@, uri@);
        }
        None
    }
}

proof fn lemma_find_exact_some(s: Seq<EntryView>, m: Seq<char>, p: Seq<char>)
    requires
        exists|i: int| 0 <= i < s.len() && exact_entry_matches(#[trigger] s[i], m, p),
    ensures
        find_exact(s, m, p) is Some,
        exact_entry_matches(find_exact(s, m, p).unwrap(), m, p),
        find_exact(s, m, p).unwrap().api.base_path == p,
    decreases s.len(),
{
    let i = choose|i: int| 0 <= i < s.len() && exact_entry_matches(#[trigger] s[i], m, p);
    if exact_entry_matches(s[0], m, p) {
    } else {
        assert(i > 0);
        assert(s.drop_first()[i - 1] == s[i]);
        lemma_find_exact_some(s.drop_first(), m, p);
    }
}

proof fn lemma_find_prefix_some(s: Seq<EntryView>, m: Seq<char>, p: Seq<char>)
    requires
        exists|i: int| 0 <= i < s.len() && prefix_entry_matches(#[trigger] s[i], m, p),
    ensures
        find_prefix(s, m, p) is Some,
    decreases s.len(),
{
    let i = choose|i: int| 0 <= i < s.len() && prefix_entry_matches(#[trigger] s[i], m, p);
    if prefix_entry_matches(s[0], m, p) {
    } else {
        assert(i > 0);
        assert(s.drop_first()[i - 1] == s[i]);
        lemma_find_prefix_some(s.drop_first(), m, p);
    }
}

proof fn lemma_find_exact_allows(s: Seq<EntryView>, m: Seq<char>, p: Seq<char>)
    ensures
        find_exact(s, m, p) is Some ==> method_allowed(
            find_exact(s, m, p).unwrap().api.methods,
            m,
        ),
    decreases s.len(),
{
    if s.len() == 0 {
    } else if exact_entry_matches(s[0], m, p) {
    } else {
        lemma_find_exact_allows(s.drop_first(), m, p);
    }
}

proof fn lemma_find_prefix_allows(s: Seq<EntryView>, m: Seq<char>, p: Seq<char>)
    ensures
        find_prefix(s, m, p) is Some ==> method_allowed(
            find_prefix(s, m, p).unwrap().api.methods,
            m,
        ),
    decreases s.len(),
{
    if s.len() == 0 {
    } else if prefix_entry_matches(s[0], m, p) {
        assert(resolve_entry(s[0], p).api.methods == s[0].api.methods);
    } else {
        lemma_find_prefix_allows(s.drop_first(), m, p);
    }
}

/// Exact-match precedence: whenever some entry of the exact partition
/// matches the method and path, the lookup resolves through the exact
/// partition — the result is an exact entry whose base path equals the
/// request path, returned with its target path template unmodified, and
/// no prefix entry for the same path takes its place.
pub proof fn lemma_exact_match_precedence(t: TableView, m: Seq<char>, p: Seq<char>)
    requires
        exists|i: int| 0 <= i < t.exact.len() && exact_entry_matches(#[trigger] t.exact[i], m, p),
    ensures
        table_find(t, m, p) is Some,
        table_find(t, m, p) == find_exact(t.exact, m, p),
        exact_entry_matches(table_find(t, m, p).unwrap(), m, p),
        table_find(t, m, p).unwrap().api.base_path == p,
{
    lemma_find_exact_some(t.exact, m, p);
}

/// Method filtering: a lookup never resolves to an entry that does not
/// allow the request method.
pub proof fn lemma_found_method_allowed(t: TableView, m: Seq<char>, p: Seq<char>)
    ensures
        table_find(t, m, p) is Some ==> method_allowed(table_find(t, m, p).unwrap().api.methods, m),
{
    lemma_find_exact_allows(t.exact, m, p);
    lemma_find_prefix_allows(t.prefix, m, p);
}

/// The lookup misses exactly when no entry of either partition matches
/// the method and path: an entry whose method set lacks the request
/// method is passed over in favour of later prefix entries, and when
/// none is left the route is reported as not found.
pub proof fn lemma_not_found_iff_no_match(t: TableView, m: Seq<char>, p: Seq<char>)
    ensures
        table_find(t, m, p) is None <==> {
            &&& forall|i: int|
                0 <= i < t.exact.len() ==> !exact_entry_matches(#[trigger] t.exact[i], m, p)
            &&& forall|i: int|
                0 <= i < t.prefix.len() ==> !prefix_entry_matches(#[trigger] t.prefix[i], m, p)
        },
{
    if table_find(t, m, p) is None {
        if exists|i: int| 0 <= i < t.exact.len() && exact_entry_matches(#[trigger] t.exact[i], m, p) {
            lemma_find_exact_some(t.exact, m, p);
        }
        if exists|i: int|
            0 <= i < t.prefix.len() && prefix_entry_matches(#[trigger] t.prefix[i], m, p) {
            lemma_find_prefix_some(t.prefix, m, p);
        }
    } else {
    }
    if (forall|i: int| 0 <= i < t.exact.len() ==> !exact_entry_matches(#[trigger] t.exact[i], m, p))
        && (forall|i: int|
        0 <= i < t.prefix.len() ==> !prefix_entry_matches(#[trigger] t.prefix[i], m, p)) {
        lemma_find_exact_none(t.exact, m, p);
        lemma_find_prefix_none(t.prefix, m, p);
    }
}

proof fn lemma_find_exact_preserves_wf(s: Seq<EntryView>, m: Seq<char>, p: Seq<char>)
    requires
        forall|i: int| 0 <= i < s.len() ==> entry_wf(#[trigger] s[i]),
    ensures
        find_exact(s, m, p) is Some ==> entry_wf(find_exact(s, m, p).unwrap()),
    decreases s.len(),
{
    if s.len() == 0 {
    } else if exact_entry_matches(s[0], m, p) {
    } else {
        lemma_find_exact_preserves_wf(s.drop_first(), m, p);
    }
}

proof fn lemma_find_prefix_preserves_wf(s: Seq<EntryView>, m: Seq<char>, p: Seq<char>)
    requires
        forall|i: int| 0 <= i < s.len() ==> entry_wf(#[trigger] s[i]),
    ensures
        find_prefix(s, m, p) is Some ==> entry_wf(find_prefix(s, m, p).unwrap()),
    decreases s.len(),
{
    if s.len() == 0 {
    } else if prefix_entry_matches(s[0], m, p) {
        assert(entry_wf(resolve_entry(s[0], p)));
    } else {
        lemma_find_prefix_preserves_wf(s.drop_first(), m, p);
    }
}

/// Whatever a lookup on a well-formed table resolves to satisfies the
/// entry invariant; in particular it names at least one target server.
pub proof fn lemma_found_entry_wf(t: TableView, m: Seq<char>, p: Seq<char>)
    requires
        table_wf(t),
    ensures
        table_find(t, m, p) is Some ==> entry_wf(table_find(t, m, p).unwrap()),
{
    lemma_find_exact_preserves_wf(t.exact, m, p);
    lemma_find_prefix_preserves_wf(t.prefix, m, p);
}

} // verus!




