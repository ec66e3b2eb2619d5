//! Header fields as this library holds them: names and values as bytes.
use vstd::prelude::*;

verus! {

/// One header field.
#[derive(Debug, Clone, PartialEq, Eq)]
pub struct HeaderField {
    pub name: Vec<u8>,
    pub value: Vec<u8>,
}

/// An ordered list of header fields; a name may occur more than once.
/// Names are kept in ASCII lower case, as HTTP/2 sends them, so a lookup
/// does not depend on the case of the name asked for.
#[derive(Debug, Clone, PartialEq, Eq)]
pub struct HeaderMap {
    entries: Vec<HeaderField>,
}

/// The name and value of a header field.
pub open spec fn spec_field(f: HeaderField) -> (Seq<u8>, Seq<u8>) {
    (f.name@, f.value@)
}

impl View for HeaderMap {
    /// The fields in order, each as its name and value.
    type V = Seq<(Seq<u8>, Seq<u8>)>;

    closed spec fn view(&self) -> Seq<(Seq<u8>, Seq<u8>)> {
        self.entries@.map_values(|f: HeaderField| spec_field(f))
    }
}

/// The index of the first field named `name`, if any.
pub open spec fn spec_first_index(m: Seq<(Seq<u8>, Seq<u8>)>, name: Seq<u8>, from: int) -> Option<int>
    decreases m.len() - from,
{
    if from < 0 || from >= m.len() {
        None
    } else if m[from].0 == name {
        Some(from)
    } else {
        spec_first_index(m, name, from + 1)
    }
}

/// The value of the first field named `name`, if any.
pub open spec fn spec_get(m: Seq<(Seq<u8>, Seq<u8>)>, name: Seq<u8>) -> Option<Seq<u8>> {
    match spec_first_index(m, name, 0) {
        Some(i) => Some(m[i].1),
        None => None,
    }
}

/// A byte in ASCII lower case: `A` to `Z` become `a` to `z`, every other
/// byte is kept.
pub open spec fn spec_lower_byte(b: u8) -> u8 {
    if 65 <= b <= 90 {
        (b + 32) as u8
    } else {
        b
    }
}

/// A byte string in ASCII lower case.
pub open spec fn spec_lower(s: Seq<u8>) -> Seq<u8> {
    s.map_values(|b: u8| spec_lower_byte(b))
}

/// The byte string in ASCII lower case.
pub fn ascii_lowercase(s: &[u8]) -> (r: Vec<u8>)
    ensures
        r@ == spec_lower(s@),
{
    let mut r: Vec<u8> = Vec::new();
    let mut i: usize = 0;
    while i < s.len()
        invariant
            i <= s@.len(),
            r@ == spec_lower(s@.subrange(0, i as int)),
        decreases s@.len() - i,
    {
        let b = s[i];
        let lower: u8 = if 65 <= b && b <= 90 {
            b + 32
        } else {
            b
        };
        r.push(lower);
        proof {
            assert(s@.subrange(0, i + 1) =~= s@.subrange(0, i as int).push(b));
            assert(spec_lower(s@.subrange(0, i + 1)) =~= spec_lower(s@.subrange(0, i as int)).push(lower));
        }
        i = i + 1;
    }
    proof {
        assert(s@.subrange(0, s@.len() as int) =~= s@);
    }
    r
}

/// Returns true when the two byte strings are equal.
pub fn bytes_equal(a: &[u8], b: &[u8]) -> (r: bool)
    ensures
        r == (a@ == b@),
{
    if a.len() != b.len() {
        return false;
    }
    let mut i: usize = 0;
    while i < a.len()
        invariant
            a@.len() == b@.len(),
            i <= a@.len(),
            forall|j: int| 0 <= j < i ==> a@[j] == b@[j],
        decreases a@.len() - i,
    {
        if a[i] != b[i] {
            return false;
        }
        i = i + 1;
    }
    proof {
        assert(a@ =~= b@);
    }
    true
}

impl HeaderMap {
    /// An empty list.
    pub fn new() -> (r: HeaderMap)
        ensures
            r@ == Seq::<(Seq<u8>, Seq<u8>)>::empty(),
    {
        let r = HeaderMap { entries: Vec::new() };
        proof {
            assert(r@ =~= Seq::<(Seq<u8>, Seq<u8>)>::empty());
        }
        r
    }

    /// Adds a field after the others, its name in ASCII lower case.
    pub fn append(&mut self, name: Vec<u8>, value: Vec<u8>)
        ensures
            final(self)@ == old(self)@.push((spec_lower(name@), value@)),
    {
        let name = ascii_lowercase(name.as_slice());
        let f = HeaderField { name, value };
        self.entries.push(f);
        proof {
            assert(final(self)@ =~= old(self)@.push((f.name@, value@)));
        }
    }

    /// The number of fields.
    pub fn len(&self) -> (r: usize)
        ensures
            r == self@.len(),
    {
        self.entries.len()
    }

    /// The value of the first field named `name`, whatever the case of
    /// `name`.
    pub fn get(&self, name: &[u8]) -> (r: Option<&Vec<u8>>)
        ensures
            match r {
                Some(v) => spec_get(self@, spec_lower(name@)) == Some(v@),
                None => spec_get(self@, spec_lower(name@)) is None,
            },
    {
        let key = ascii_lowercase(name);
        let mut i: usize = 0;
        while i < self.entries.len()
            invariant
                i <= self@.len(),
                self@.len() == self.entries@.len(),
                key@ == spec_lower(name@),
                spec_first_index(self@, key@, 0) == spec_first_index(self@, key@, i as int),
            decreases self.entries@.len() - i,
        {
            if bytes_equal(self.entries[i].name.as_slice(), key.as_slice()) {
                return Some(&self.entries[i].value);
            }
            i = i + 1;
        }
        None
    }
}

/// The pseudo-header fields of a request or response.
#[derive(Debug, Clone, PartialEq, Eq)]
pub struct Pseudo {
    pub method: Option<Vec<u8>>,
    pub scheme: Option<Vec<u8>>,
    pub authority: Option<Vec<u8>>,
    pub path: Option<Vec<u8>>,
    pub status: Option<u16>,
}

/// No pseudo-header field.
pub open spec fn spec_empty_pseudo() -> Pseudo {
    Pseudo { method: None, scheme: None, authority: None, path: None, status: None }
}

impl Default for Pseudo {
    fn default() -> (r: Pseudo)
        ensures
            r == spec_empty_pseudo(),
    {
        Pseudo { method: None, scheme: None, authority: None, path: None, status: None }
    }
}

/// A request as a server promises it: its method and its header fields.
#[derive(Debug, Clone, PartialEq, Eq)]
pub struct Request {
    pub method: Vec<u8>,
    pub headers: HeaderMap,
}

} // verus!
