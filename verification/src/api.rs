//! Route definitions and their compiled form.
//!
//! A definition arrives from the control plane as plain strings. Compiling
//! it classifies the entry as an exact match or, when the base path ends in
//! the wildcard marker `*`, as a prefix match with the marker stripped from
//! the base path and (when present) from the target path template.

use vstd::prelude::*;

verus! {

/// How a compiled route entry is matched against a request path.
#[derive(Clone, Copy, Debug, PartialEq, Eq, Structural)]
pub enum MatchType {
    Exact,
    Prefix,
}

/// A route definition as delivered by the control plane: identifier,
/// version, allowed methods, base path pattern, target path template and
/// the ordered target servers (the first one is used).
#[derive(Debug)]
pub struct DeserializedApi {
    pub _id: String,
    pub name: String,
    pub version: usize,
    pub methods: Vec<String>,
    pub base_path: String,
    pub target_path: String,
    pub target_servers: Vec<String>,
}

/// Mathematical image of a route definition.
pub ghost struct ApiView {
    pub id: Seq<char>,
    pub name: Seq<char>,
    pub version: int,
    pub methods: Seq<Seq<char>>,
    pub base_path: Seq<char>,
    pub target_path: Seq<char>,
    pub target_servers: Seq<Seq<char>>,
}

impl View for DeserializedApi {
    type V = ApiView;

    open spec fn view(&self) -> ApiView {
        ApiView {
            id: self._id@,
            name: self.name@,
            version: self.version as int,
            methods: self.methods.deep_view(),
            base_path: self.base_path@,
            target_path: self.target_path@,
            target_servers: self.target_servers.deep_view(),
        }
    }
}

impl DeepView for DeserializedApi {
    type V = ApiView;

    open spec fn deep_view(&self) -> ApiView {
        self.view()
    }
}

/// A route definition compiled for the matcher: the match kind together
/// with the canonicalized definition.
#[derive(Debug)]
pub struct ManagedApi {
    pub match_type: MatchType,
    pub de_api: DeserializedApi,
}

/// Mathematical image of a compiled entry.
pub ghost struct EntryView {
    pub prefix: bool,
    pub api: ApiView,
}

impl View for ManagedApi {
    type V = EntryView;

    open spec fn view(&self) -> EntryView {
        EntryView { prefix: self.match_type is Prefix, api: self.de_api@ }
    }
}

impl DeepView for ManagedApi {
    type V = EntryView;

    open spec fn deep_view(&self) -> EntryView {
        self.view()
    }
}

/// The wildcard marker is a single trailing `*`.
pub open spec fn ends_with_wildcard(s: Seq<char>) -> bool {
    s.len() > 0 && s[s.len() - 1] == '*'
}

/// The string with a trailing wildcard marker removed, if there is one.
pub open spec fn strip_wildcard(s: Seq<char>) -> Seq<char> {
    if ends_with_wildcard(s) {
        s.take(s.len() - 1)
    } else {
        s
    }
}

/// Classification of a route definition: a trailing wildcard marker on the
/// base path makes the entry a prefix match and is stripped from the base
/// path and from the target path template; otherwise the entry is an exact
/// match and the definition is kept verbatim.
pub open spec fn classify(d: ApiView) -> EntryView {
    if ends_with_wildcard(d.base_path) {
        EntryView {
            prefix: true,
            api: ApiView {
                base_path: strip_wildcard(d.base_path),
                target_path: strip_wildcard(d.target_path),
                ..d
            },
        }
    } else {
        EntryView { prefix: false, api: d }
    }
}

/// A definition the table builder rejects: an empty base path, an empty
/// target-server list, or a base path whose canonical form would still end
/// in the wildcard marker.
pub open spec fn malformed(d: ApiView) -> bool {
    ||| d.base_path.len() == 0
    ||| d.target_servers.len() == 0
    ||| ends_with_wildcard(strip_wildcard(d.base_path))
}

/// Invariant of every entry held by a route table: a usable target server
/// exists, the canonical base path no longer ends in the wildcard marker,
/// and an exact key is never empty.
pub open spec fn entry_wf(e: EntryView) -> bool {
    &&& e.api.target_servers.len() > 0
    &&& !ends_with_wildcard(e.api.base_path)
    &&& (!e.prefix ==> e.api.base_path.len() > 0)
}

/// Classifying any definition that is not malformed yields an entry that
/// satisfies the table invariant.
pub proof fn lemma_classify_wf(d: ApiView)
    requires
        !malformed(d),
    ensures
        entry_wf(classify(d)),
{
}

/// The string with its last character removed.
fn strip_last_char(s: &String) -> (r: String)
    requires
        s@.len() > 0,
    ensures
        r@ == s@.take(s@.len() - 1),
{
    let len = s.as_str().unicode_len();
    String::from_str(s.as_str().substring_char(0, len - 1))
}

/// Whether the table builder must reject this definition.
pub fn is_malformed(d: &DeserializedApi) -> (r: bool)
    ensures
        r == malformed(d@),
{
    let len = d.base_path.as_str().unicode_len();
    if len == 0 {
        return true;
    }
    if d.target_servers.len() == 0 {
        return true;
    }
    if d.base_path.as_str().get_char(len - 1) == '*' {
        if len >= 2 && d.base_path.as_str().get_char(len - 2) == '*' {
            return true;
        }
    }
    false
}

impl ManagedApi {
    /// Compiles a route definition. The match kind and the canonical paths
    /// are exactly those of `classify`.
    pub fn new(de_api: DeserializedApi) -> (r: Self)
        requires
            de_api@.base_path.len() > 0,
        ensures
            r@ == classify(de_api@),
    {
        let mut m_api = ManagedApi { match_type: MatchType::Exact, de_api };
        m_api.fix_matchtype_and_remove_asterisk();
        m_api
    }

    /// The key under which an exact entry is stored: its canonical base path.
    pub fn get_key(&self) -> (key: String)
        ensures
            key@ == self@.api.base_path,
    {
        self.de_api.base_path.clone()
    }

    fn fix_matchtype_and_remove_asterisk(&mut self)
        requires
            old(self).match_type is Exact,
            old(self).de_api@.base_path.len() > 0,
        ensures
            final(self)@ == classify(old(self).de_api@),
    {
        let len = self.de_api.base_path.as_str().unicode_len();
        if self.de_api.base_path.as_str().get_char(len - 1) == '*' {
            self.match_type = MatchType::Prefix;
            let stripped_base = strip_last_char(&self.de_api.base_path);
            self.de_api.base_path = stripped_base;

            let tlen = self.de_api.target_path.as_str().unicode_len();
            if tlen > 0 {
                if self.de_api.target_path.as_str().get_char(tlen - 1) == '*' {
                    let stripped_target = strip_last_char(&self.de_api.target_path);
                    self.de_api.target_path = stripped_target;
                }
            }
        }
    }
}

pub(crate) fn clone_string_vec(v: &Vec<String>) -> (r: Vec<String>)
    ensures
        r.deep_view() == v.deep_view(),
{
    let mut r: Vec<String> = Vec::new();
    let mut i: usize = 0;
    while i < v.len()
        invariant
            i <= v.len(),
            r@.len() == i,
            forall|j: int| 0 <= j < i ==> r@[j]@ == v@[j]@,
        decreases v.len() - i,
    {
        r.push(v[i].clone());
        i += 1;
    }
    assert(r.deep_view() =~= v.deep_view());
    r
}

impl Clone for DeserializedApi {
    /// A clone has the same mathematical image as the original.
    fn clone(&self) -> (res: Self)
        ensures
            res@ == self@,
    {
        DeserializedApi {
            _id: self._id.clone(),
            name: self.name.clone(),
            version: self.version,
            methods: clone_string_vec(&self.methods),
            base_path: self.base_path.clone(),
            target_path: self.target_path.clone(),
            target_servers: clone_string_vec(&self.target_servers),
        }
    }
}

impl Clone for ManagedApi {
    /// A clone has the same mathematical image as the original.
    fn clone(&self) -> (res: Self)
        ensures
            res@ == self@,
    {
        ManagedApi { match_type: self.match_type, de_api: self.de_api.clone() }
    }
}

} // verus!
