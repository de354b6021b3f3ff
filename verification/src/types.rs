//! Core data types of the request model: the HTTP method, the body kind,
//! and the ordered string-to-string map used for query and form parameters.

use vstd::prelude::*;
use crate::text::str_eq;

verus! {

/// The HTTP methods a request shape may declare.
#[derive(Clone, Copy, Debug, PartialEq, Eq, Structural)]
pub enum HttpMethod {
    Get,
    Post,
    Put,
    Delete,
    Patch,
    Head,
    Options,
}

/// The upper-case token of a method, as it appears on the wire.
pub open spec fn spec_method_text(m: HttpMethod) -> Seq<char> {
    match m {
        HttpMethod::Get => "GET"@,
        HttpMethod::Post => "POST"@,
        HttpMethod::Put => "PUT"@,
        HttpMethod::Delete => "DELETE"@,
        HttpMethod::Patch => "PATCH"@,
        HttpMethod::Head => "HEAD"@,
        HttpMethod::Options => "OPTIONS"@,
    }
}

impl HttpMethod {
    /// The upper-case token of this method.
    pub fn as_str(&self) -> (s: &'static str)
        ensures
            s@ == spec_method_text(*self),
    {
        match self {
            HttpMethod::Get => "GET",
            HttpMethod::Post => "POST",
            HttpMethod::Put => "PUT",
            HttpMethod::Delete => "DELETE",
            HttpMethod::Patch => "PATCH",
            HttpMethod::Head => "HEAD",
            HttpMethod::Options => "OPTIONS",
        }
    }
}

/// The four mutually exclusive body modes of a request shape.
#[derive(Clone, Copy, Debug, PartialEq, Eq, Structural)]
pub enum RequestBody {
    /// A structured-document body.
    Json,
    /// A form-encoded body of flattened fields.
    Form,
    /// A multipart body, for file uploads.
    Multipart,
    /// No body at all.
    NoBody,
}

/// An ordered mapping from parameter names to values: entries keep their
/// insertion order, and inserting an existing key replaces its value in
/// place.
#[derive(Debug, Clone, PartialEq)]
pub struct QueryParams {
    pairs: Vec<(String, String)>,
}

impl View for QueryParams {
    type V = Seq<(Seq<char>, Seq<char>)>;

    closed spec fn view(&self) -> Seq<(Seq<char>, Seq<char>)> {
        self.pairs@.map_values(|p: (String, String)| (p.0@, p.1@))
    }
}

/// The views of a vector of name/value string pairs.
pub open spec fn spec_pairs_view(v: Seq<(String, String)>) -> Seq<(Seq<char>, Seq<char>)> {
    v.map_values(|p: (String, String)| (p.0@, p.1@))
}

/// The views of a vector of strings.
pub open spec fn spec_names_view(v: Seq<String>) -> Seq<Seq<char>> {
    v.map_values(|s: String| s@)
}

/// The value under `k` in the ordered map `m`: the first entry whose key
/// is `k`, if any.
pub open spec fn spec_map_lookup(
    m: Seq<(Seq<char>, Seq<char>)>,
    k: Seq<char>,
) -> Option<Seq<char>>
    decreases m.len(),
{
    if m.len() == 0 {
        None
    } else if m[0].0 == k {
        Some(m[0].1)
    } else {
        spec_map_lookup(m.skip(1), k)
    }
}

/// `m` with `v` stored under `k`: the first entry keyed `k` is replaced in
/// place, or a new entry is appended when none exists.
pub open spec fn spec_map_insert(
    m: Seq<(Seq<char>, Seq<char>)>,
    k: Seq<char>,
    v: Seq<char>,
) -> Seq<(Seq<char>, Seq<char>)>
    decreases m.len(),
{
    if m.len() == 0 {
        seq![(k, v)]
    } else if m[0].0 == k {
        seq![(k, v)] + m.skip(1)
    } else {
        seq![m[0]] + spec_map_insert(m.skip(1), k, v)
    }
}

/// Replacing the first entry keyed `k` is a positional update.
pub(crate) proof fn lemma_map_insert_found(
    m: Seq<(Seq<char>, Seq<char>)>,
    k: Seq<char>,
    v: Seq<char>,
    i: int,
)
    requires
        0 <= i < m.len(),
        m[i].0 == k,
        forall|j: int| 0 <= j < i ==> m[j].0 != k,
    ensures
        spec_map_insert(m, k, v) == m.update(i, (k, v)),
    decreases i,
{
    if i == 0 {
        assert(spec_map_insert(m, k, v) =~= m.update(0, (k, v)));
    } else {
        lemma_map_insert_found(m.skip(1), k, v, i - 1);
        assert(spec_map_insert(m, k, v) =~= m.update(i, (k, v)));
    }
}

/// Inserting an absent key appends the entry.
pub(crate) proof fn lemma_map_insert_absent(m: Seq<(Seq<char>, Seq<char>)>, k: Seq<char>, v: Seq<char>)
    requires
        forall|j: int| 0 <= j < m.len() ==> m[j].0 != k,
    ensures
        spec_map_insert(m, k, v) == m.push((k, v)),
    decreases m.len(),
{
    if m.len() == 0 {
        assert(spec_map_insert(m, k, v) =~= m.push((k, v)));
    } else {
        lemma_map_insert_absent(m.skip(1), k, v);
        assert(spec_map_insert(m, k, v) =~= m.push((k, v)));
    }
}

/// The first entry keyed `k` decides the lookup.
pub(crate) proof fn lemma_map_lookup_found(m: Seq<(Seq<char>, Seq<char>)>, k: Seq<char>, i: int)
    requires
        0 <= i < m.len(),
        m[i].0 == k,
        forall|j: int| 0 <= j < i ==> m[j].0 != k,
    ensures
        spec_map_lookup(m, k) == Some(m[i].1),
    decreases i,
{
    if i > 0 {
        lemma_map_lookup_found(m.skip(1), k, i - 1);
    }
}

/// A key under no entry looks up to nothing.
pub(crate) proof fn lemma_map_lookup_absent(m: Seq<(Seq<char>, Seq<char>)>, k: Seq<char>)
    requires
        forall|j: int| 0 <= j < m.len() ==> m[j].0 != k,
    ensures
        spec_map_lookup(m, k) is None,
    decreases m.len(),
{
    if m.len() > 0 {
        lemma_map_lookup_absent(m.skip(1), k);
    }
}

impl QueryParams {
    /// An empty map.
    pub fn new() -> (q: QueryParams)
        ensures
            q@ == Seq::<(Seq<char>, Seq<char>)>::empty(),
    {
        let q = QueryParams { pairs: Vec::new() };
        proof {
            assert(q@ =~= Seq::<(Seq<char>, Seq<char>)>::empty());
        }
        q
    }

    /// How many entries the map holds.
    pub fn len(&self) -> (n: usize)
        ensures
            n == self@.len(),
    {
        self.pairs.len()
    }

    /// Whether the map holds no entry.
    pub fn is_empty(&self) -> (b: bool)
        ensures
            b == (self@.len() == 0),
    {
        self.pairs.len() == 0
    }

    /// Stores `v` under `k`, replacing the first entry keyed `k` in place
    /// or appending a new one.
    pub fn insert(&mut self, k: String, v: String)
        ensures
            final(self)@ == spec_map_insert(old(self)@, k@, v@),
    {
        let n = self.pairs.len();
        let mut i: usize = 0;
        while i < n
            invariant
                i <= n,
                n == self.pairs@.len(),
                self@ == old(self)@,
                self.pairs@ == old(self).pairs@,
                forall|j: int| 0 <= j < i ==> #[trigger] self@[j].0 != k@,
            decreases n - i,
        {
            if str_eq(self.pairs[i].0.as_str(), k.as_str()) {
                proof {
                    assert(self@[i as int].0 == k@);
                    lemma_map_insert_found(self@, k@, v@, i as int);
                }
                self.pairs.remove(i);
                self.pairs.insert(i, (k, v));
                proof {
                    assert(self@ =~= spec_map_insert(old(self)@, k@, v@));
                }
                return ;
            }
            i = i + 1;
        }
        proof {
            lemma_map_insert_absent(self@, k@, v@);
        }
        self.pairs.push((k, v));
        proof {
            assert(self@ =~= spec_map_insert(old(self)@, k@, v@));
        }
    }

    /// The value stored under `k`, if any.
    pub fn get(&self, k: &str) -> (r: Option<&String>)
        ensures
            match r {
                Some(v) => spec_map_lookup(self@, k@) == Some(v@),
                None => spec_map_lookup(self@, k@) is None,
            },
    {
        let n = self.pairs.len();
        let mut i: usize = 0;
        while i < n
            invariant
                i <= n,
                n == self.pairs@.len(),
                forall|j: int| 0 <= j < i ==> #[trigger] self@[j].0 != k@,
            decreases n - i,
        {
            if str_eq(self.pairs[i].0.as_str(), k) {
                proof {
                    lemma_map_lookup_found(self@, k@, i as int);
                }
                return Some(&self.pairs[i].1);
            }
            i = i + 1;
        }
        proof {
            lemma_map_lookup_absent(self@, k@);
        }
        None
    }

    /// Whether some entry is keyed `k`.
    pub fn contains_key(&self, k: &str) -> (b: bool)
        ensures
            b == (spec_map_lookup(self@, k@) is Some),
    {
        match self.get(k) {
            Some(_) => true,
            None => false,
        }
    }

    /// The entries in order, for a consumer that walks the whole map.
    pub fn entries(&self) -> (v: &Vec<(String, String)>)
        ensures
            v@.map_values(|p: (String, String)| (p.0@, p.1@)) == self@,
    {
        &self.pairs
    }
}

} // verus!
