//! Header sets and the policy that selects what is passed on to the origin.
//!
//! A header set is an ordered list of name/value pairs. Names are matched
//! without regard to ASCII case, values are opaque bytes.

use vstd::prelude::*;
use vstd::slice::slice_to_vec;
use vstd::string::StringSliceAdditionalSpecFns;

verus! {

/// One header line: a name and its value, both as bytes.
#[derive(Clone, Debug, PartialEq, Eq)]
pub struct Header {
    pub name: Vec<u8>,
    pub value: Vec<u8>,
}

impl View for Header {
    type V = (Seq<u8>, Seq<u8>);

    open spec fn view(&self) -> (Seq<u8>, Seq<u8>) {
        (self.name@, self.value@)
    }
}

/// The name/value pairs of a list of headers, in order.
pub open spec fn entries(headers: Seq<Header>) -> Seq<(Seq<u8>, Seq<u8>)> {
    headers.map_values(|h: Header| h@)
}

/// The bytes of each key of an allow-list, in order.
pub open spec fn key_bytes(keys: Seq<&str>) -> Seq<Seq<u8>> {
    keys.map_values(|k: &str| k.spec_bytes())
}

/// An ASCII letter in lower case; every other byte unchanged.
pub open spec fn lower(b: u8) -> u8 {
    if 65 <= b && b <= 90 {
        (b + 32) as u8
    } else {
        b
    }
}

/// Two header names are the same when they differ at most in ASCII case.
pub open spec fn same_name(a: Seq<u8>, b: Seq<u8>) -> bool {
    a.len() == b.len() && forall|i: int| 0 <= i < a.len() ==> lower(#[trigger] a[i]) == lower(b[i])
}

/// Whether `name` is one of `keys`.
pub open spec fn listed(name: Seq<u8>, keys: Seq<Seq<u8>>) -> bool {
    exists|k: int| 0 <= k < keys.len() && same_name(name, #[trigger] keys[k])
}

/// The test that keeps exactly the pairs whose name is one of `keys`.
pub open spec fn named_in(keys: Seq<Seq<u8>>) -> spec_fn((Seq<u8>, Seq<u8>)) -> bool {
    |e: (Seq<u8>, Seq<u8>)| listed(e.0, keys)
}

impl Header {
    /// A header made of copies of the given name and value.
    pub fn new(name: &[u8], value: &[u8]) -> (h: Header)
        ensures
            h@ == (name@, value@),
    {
        Header { name: slice_to_vec(name), value: slice_to_vec(value) }
    }

    /// A header with a textual name and value.
    pub fn text(name: &str, value: &str) -> (h: Header)
        ensures
            h@ == (name.spec_bytes(), value.spec_bytes()),
    {
        Header { name: slice_to_vec(name.as_bytes()), value: slice_to_vec(value.as_bytes()) }
    }
}

fn to_lower(b: u8) -> (r: u8)
    ensures
        r == lower(b),
{
    if 65 <= b && b <= 90 {
        b + 32
    } else {
        b
    }
}

/// Compares two header names without regard to ASCII case.
pub fn names_match(a: &[u8], b: &[u8]) -> (r: bool)
    ensures
        r == same_name(a@, b@),
{
    if a.len() != b.len() {
        return false;
    }
    let mut i: usize = 0;
    while i < a.len()
        invariant
            i <= a.len(),
            a.len() == b.len(),
            forall|j: int| 0 <= j < i ==> lower(#[trigger] a@[j]) == lower(b@[j]),
        decreases a.len() - i,
    {
        if to_lower(a[i]) != to_lower(b[i]) {
            return false;
        }
        i += 1;
    }
    true
}

/// Whether `name` is on the allow-list `keys`.
pub fn is_listed(name: &[u8], keys: &Vec<&str>) -> (r: bool)
    ensures
        r == listed(name@, key_bytes(keys@)),
{
    let mut k: usize = 0;
    while k < keys.len()
        invariant
            k <= keys.len(),
            forall|j: int| 0 <= j < k ==> !same_name(name@, #[trigger] key_bytes(keys@)[j]),
        decreases keys.len() - k,
    {
        if names_match(name, keys[k].as_bytes()) {
            assert(same_name(name@, key_bytes(keys@)[k as int]));
            return true;
        }
        k += 1;
    }
    false
}

/// Copies the headers of `source` whose name is one of `keys`, in order.
pub fn select_headers(source: &Vec<Header>, keys: &Vec<&str>) -> (kept: Vec<Header>)
    ensures
        entries(kept@) == entries(source@).filter(named_in(key_bytes(keys@))),
{
    let mut kept: Vec<Header> = Vec::new();
    let mut i: usize = 0;
    proof {
        entries(source@).take(0).lemma_filter_len(named_in(key_bytes(keys@)));
    }
    while i < source.len()
        invariant
            i <= source.len(),
            entries(kept@) == entries(source@).take(i as int).filter(named_in(key_bytes(keys@))),
        decreases source.len() - i,
    {
        let ghost seen = entries(source@).take(i as int);
        let ghost pair = source@[i as int]@;
        proof {
            assert(entries(source@).take(i + 1) =~= seen.push(pair));
            seen.lemma_filter_push(pair, named_in(key_bytes(keys@)));
        }
        if is_listed(source[i].name.as_slice(), keys) {
            kept.push(Header::new(source[i].name.as_slice(), source[i].value.as_slice()));
        }
        i += 1;
    }
    assert(entries(source@).take(source.len() as int) =~= entries(source@));
    kept
}

/// Keeps the headers of `source` whose name is one of `keys` and drops
/// every other, leaving order and values untouched.
pub fn filter_headers(source: Vec<Header>, keys: Vec<&str>) -> (filtered: Vec<Header>)
    ensures
        entries(filtered@) == entries(source@).filter(named_in(key_bytes(keys@))),
{
    select_headers(&source, &keys)
}

} // verus!
