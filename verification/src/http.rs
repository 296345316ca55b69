//! Plain model of the HTTP values the gateway handles: header lists, header
//! name syntax, and the status codes of the error taxonomy.

use vstd::prelude::*;
use vstd::string::*;
use crate::bytestr::{eq_ignore_ascii_case, lower_bytes};

verus! {

/// One header of a request or a response. Names are compared without regard
/// to ASCII case; values are opaque bytes.
pub struct HeaderEntry {
    pub name: Vec<u8>,
    pub value: Vec<u8>,
}

/// The mathematical value of a header: its name and value as byte strings.
pub ghost struct HeaderView {
    pub name: Seq<u8>,
    pub value: Seq<u8>,
}

impl View for HeaderEntry {
    type V = HeaderView;

    open spec fn view(&self) -> HeaderView {
        HeaderView { name: self.name@, value: self.value@ }
    }
}

impl HeaderEntry {
    /// A copy of this header.
    pub fn duplicate(&self) -> (r: HeaderEntry)
        ensures
            r@ == self@,
    {
        HeaderEntry {
            name: vstd::slice::slice_to_vec(self.name.as_slice()),
            value: vstd::slice::slice_to_vec(self.value.as_slice()),
        }
    }
}

/// The view of a whole header list.
pub open spec fn headers_view(hs: Seq<HeaderEntry>) -> Seq<HeaderView> {
    hs.map_values(|h: HeaderEntry| h@)
}

/// Two header names are the same header, up to ASCII case.
pub open spec fn name_matches(a: Seq<u8>, b: Seq<u8>) -> bool {
    lower_bytes(a) == lower_bytes(b)
}

/// The name of the `Host` header, which the proxy never forwards.
pub open spec fn host_name() -> Seq<u8> {
    "host".spec_bytes()
}

/// This header is the `Host` header.
pub open spec fn is_host_name(name: Seq<u8>) -> bool {
    name_matches(name, host_name())
}

/// Decides `is_host_name`.
pub fn is_host_header(name: &[u8]) -> (r: bool)
    ensures
        r == is_host_name(name@),
{
    let host = "host".as_bytes();
    eq_ignore_ascii_case(name, host)
}

/// A byte allowed in an HTTP token: header names and method names are
/// non-empty strings of these. The allowed bytes are the digits, the letters
/// of both cases, and the punctuation ``!#$%&'*+-.^_`|~``.
pub open spec fn is_token_byte(b: u8) -> bool {
    (48 <= b && b <= 57) || (97 <= b && b <= 122) || (65 <= b && b <= 90) || b == 33 || b == 35
        || b == 36 || b == 37 || b == 38 || b == 39 || b == 42 || b == 43 || b == 45 || b == 46
        || b == 94 || b == 95 || b == 96 || b == 124 || b == 126
}

/// A syntactically well-formed HTTP token (a header name or a method name).
pub open spec fn is_token_text(s: Seq<u8>) -> bool {
    s.len() > 0 && forall|i: int| 0 <= i < s.len() ==> is_token_byte(s[i])
}

/// Decides whether one byte may appear in an HTTP token.
pub fn token_byte(b: u8) -> (r: bool)
    ensures
        r == is_token_byte(b),
{
    (b >= 48 && b <= 57) || (b >= 97 && b <= 122) || (b >= 65 && b <= 90) || b == 33 || b == 35
        || b == 36 || b == 37 || b == 38 || b == 39 || b == 42 || b == 43 || b == 45 || b == 46
        || b == 94 || b == 95 || b == 96 || b == 124 || b == 126
}

/// Decides `is_token_text`.
pub fn token_text(s: &[u8]) -> (r: bool)
    ensures
        r == is_token_text(s@),
{
    if s.len() == 0 {
        return false;
    }
    let mut i: usize = 0;
    while i < s.len()
        invariant
            i <= s@.len(),
            forall|j: int| 0 <= j < i ==> is_token_byte(s@[j]),
        decreases s@.len() - i,
    {
        if !token_byte(s[i]) {
            return false;
        }
        i = i + 1;
    }
    true
}

/// A syntactically valid header name, as the response relay checks it: a
/// non-empty HTTP token.
pub open spec fn is_valid_header_name(name: Seq<u8>) -> bool {
    is_token_text(name)
}

/// Decides `is_valid_header_name`.
pub fn valid_header_name(name: &[u8]) -> (r: bool)
    ensures
        r == is_valid_header_name(name@),
{
    token_text(name)
}

/// The value of the first header named `name` (up to ASCII case), if any;
/// header lookup returns the earliest entry, as HTTP header maps do.
pub open spec fn first_header_value(hs: Seq<HeaderView>, name: Seq<u8>) -> Option<Seq<u8>>
    decreases hs.len(),
{
    if hs.len() == 0 {
        None
    } else if name_matches(hs[0].name, name) {
        Some(hs[0].value)
    } else {
        first_header_value(hs.drop_first(), name)
    }
}

/// Looks a header up by name, returning a copy of the earliest matching
/// value.
pub fn header_value(headers: &Vec<HeaderEntry>, name: &[u8]) -> (r: Option<Vec<u8>>)
    ensures
        match r {
            Some(v) => first_header_value(headers_view(headers@), name@) == Some(v@),
            None => first_header_value(headers_view(headers@), name@) is None,
        },
{
    let ghost all = headers_view(headers@);
    proof {
        assert(all.skip(0) =~= all);
    }
    let mut i: usize = 0;
    while i < headers.len()
        invariant
            i <= headers@.len(),
            all == headers_view(headers@),
            first_header_value(all, name@) == first_header_value(
                all.skip(i as int),
                name@,
            ),
        decreases headers@.len() - i,
    {
        if eq_ignore_ascii_case(headers[i].name.as_slice(), name) {
            proof {
                assert(all.skip(i as int)[0] == all[i as int]);
            }
            return Some(vstd::slice::slice_to_vec(headers[i].value.as_slice()));
        }
        proof {
            assert(all.skip(i as int).drop_first() =~= all.skip(i + 1));
            assert(all.skip(i as int)[0] == all[i as int]);
        }
        i = i + 1;
    }
    proof {
        assert(all.skip(headers@.len() as int) =~= Seq::<HeaderView>::empty());
    }
    None
}

} // verus!
