//! Header-grammar validation and the validated header set.
//!
//! The grammar matches what the `http` crate enforces when the assembled
//! request is later handed to a real client: a header name is 1 to 65535
//! characters from the token alphabet (letters, digits, and
//! `! # $ % & ' * + - . ^ _ ` | ~`), with capital letters lowered on
//! storage; a header value holds no control character other than the
//! horizontal tab.

use vstd::prelude::*;
use crate::text::{ascii_lower, spec_lower, str_eq};
use crate::types::{spec_map_insert, spec_map_lookup};

verus! {

/// Whether `c` may appear in a header name.
pub open spec fn spec_header_name_char_ok(c: char) -> bool {
    let u = c as int;
    ||| (97 <= u && u <= 122)  // a-z
    ||| (65 <= u && u <= 90)  // A-Z
    ||| (48 <= u && u <= 57)  // 0-9
    ||| u == 33  // !
    ||| u == 35  // #
    ||| u == 36  // $
    ||| u == 37  // %
    ||| u == 38  // &
    ||| u == 39  // '
    ||| u == 42  // *
    ||| u == 43  // +
    ||| u == 45  // -
    ||| u == 46  // .
    ||| u == 94  // ^
    ||| u == 95  // _
    ||| u == 96  // `
    ||| u == 124  // |
    ||| u == 126  // ~
}

/// Whether `s` is a valid header name: nonempty, within the length limit,
/// and made only of token characters.
pub open spec fn spec_header_name_ok(s: Seq<char>) -> bool {
    &&& 1 <= s.len()
    &&& s.len() <= 65535
    &&& forall|i: int| 0 <= i < s.len() ==> spec_header_name_char_ok(#[trigger] s[i])
}

/// Whether `c` may appear in a header value: no control character other
/// than the horizontal tab.
pub open spec fn spec_header_value_char_ok(c: char) -> bool {
    c == '\t' || (c as int >= 32 && c as int != 127)
}

/// Whether `s` is a valid header value.
pub open spec fn spec_header_value_ok(s: Seq<char>) -> bool {
    forall|i: int| 0 <= i < s.len() ==> spec_header_value_char_ok(#[trigger] s[i])
}

/// Checks `s` against the header-name grammar.
pub fn header_name_ok(s: &str) -> (b: bool)
    ensures
        b == spec_header_name_ok(s@),
{
    let n = s.unicode_len();
    if n == 0 || n > 65535 {
        return false;
    }
    let mut i: usize = 0;
    while i < n
        invariant
            i <= n,
            n == s@.len(),
            forall|j: int| 0 <= j < i ==> spec_header_name_char_ok(#[trigger] s@[j]),
        decreases n - i,
    {
        let u = s.get_char(i) as u32;
        let ok = (97 <= u && u <= 122) || (65 <= u && u <= 90) || (48 <= u && u <= 57)
            || u == 33 || u == 35 || u == 36 || u == 37 || u == 38 || u == 39 || u == 42
            || u == 43 || u == 45 || u == 46 || u == 94 || u == 95 || u == 96 || u == 124
            || u == 126;
        if !ok {
            return false;
        }
        i = i + 1;
    }
    true
}

/// Checks `s` against the header-value grammar.
pub fn header_value_ok(s: &str) -> (b: bool)
    ensures
        b == spec_header_value_ok(s@),
{
    let n = s.unicode_len();
    let mut i: usize = 0;
    while i < n
        invariant
            i <= n,
            n == s@.len(),
            forall|j: int| 0 <= j < i ==> spec_header_value_char_ok(#[trigger] s@[j]),
        decreases n - i,
    {
        let c = s.get_char(i);
        let u = c as u32;
        if !(u == 9 || (u >= 32 && u != 127)) {
            return false;
        }
        i = i + 1;
    }
    true
}

/// A set of validated headers: an ordered name-to-value map whose names
/// are stored lowered, looked up without regard to ASCII case.
#[derive(Debug, Clone, PartialEq)]
pub struct HeaderMap {
    pairs: Vec<(String, String)>,
}

impl View for HeaderMap {
    type V = Seq<(Seq<char>, Seq<char>)>;

    closed spec fn view(&self) -> Seq<(Seq<char>, Seq<char>)> {
        self.pairs@.map_values(|p: (String, String)| (p.0@, p.1@))
    }
}

impl HeaderMap {
    /// An empty header set.
    pub fn new() -> (h: HeaderMap)
        ensures
            h@ == Seq::<(Seq<char>, Seq<char>)>::empty(),
    {
        let h = HeaderMap { pairs: Vec::new() };
        proof {
            assert(h@ =~= Seq::<(Seq<char>, Seq<char>)>::empty());
        }
        h
    }

    /// How many headers the set holds.
    pub fn len(&self) -> (n: usize)
        ensures
            n == self@.len(),
    {
        self.pairs.len()
    }

    /// Whether the set holds no header.
    pub fn is_empty(&self) -> (b: bool)
        ensures
            b == (self@.len() == 0),
    {
        self.pairs.len() == 0
    }

    /// Stores `v` under the lowered form of `k`, replacing an entry of the
    /// same name in place or appending a new one.
    pub fn insert(&mut self, k: &str, v: String)
        ensures
            final(self)@ == spec_map_insert(old(self)@, spec_lower(k@), v@),
    {
        let low = ascii_lower(k);
        let n = self.pairs.len();
        let mut i: usize = 0;
        while i < n
            invariant
                i <= n,
                n == self.pairs@.len(),
                self@ == old(self)@,
                self.pairs@ == old(self).pairs@,
                low@ == spec_lower(k@),
                forall|j: int| 0 <= j < i ==> #[trigger] self@[j].0 != low@,
            decreases n - i,
        {
            if str_eq(self.pairs[i].0.as_str(), low.as_str()) {
                proof {
                    crate::types::lemma_map_insert_found(self@, low@, v@, i as int);
                }
                self.pairs.remove(i);
                self.pairs.insert(i, (low, v));
                proof {
                    assert(self@ =~= spec_map_insert(old(self)@, spec_lower(k@), v@));
                }
                return ;
            }
            i = i + 1;
        }
        proof {
            crate::types::lemma_map_insert_absent(self@, low@, v@);
        }
        self.pairs.push((low, v));
        proof {
            assert(self@ =~= spec_map_insert(old(self)@, spec_lower(k@), v@));
        }
    }

    /// The value stored under `k`, compared without regard to ASCII case.
    pub fn get(&self, k: &str) -> (r: Option<&String>)
        ensures
            match r {
                Some(v) => spec_map_lookup(self@, spec_lower(k@)) == Some(v@),
                None => spec_map_lookup(self@, spec_lower(k@)) is None,
            },
    {
        let low = ascii_lower(k);
        let n = self.pairs.len();
        let mut i: usize = 0;
        while i < n
            invariant
                i <= n,
                n == self.pairs@.len(),
                low@ == spec_lower(k@),
                forall|j: int| 0 <= j < i ==> #[trigger] self@[j].0 != low@,
            decreases n - i,
        {
            if str_eq(self.pairs[i].0.as_str(), low.as_str()) {
                proof {
                    crate::types::lemma_map_lookup_found(self@, low@, i as int);
                }
                return Some(&self.pairs[i].1);
            }
            i = i + 1;
        }
        proof {
            crate::types::lemma_map_lookup_absent(self@, low@);
        }
        None
    }

    /// The headers in order, for a consumer that walks the whole set.
    pub fn entries(&self) -> (v: &Vec<(String, String)>)
        ensures
            v@.map_values(|p: (String, String)| (p.0@, p.1@)) == self@,
    {
        &self.pairs
    }
}

} // verus!
