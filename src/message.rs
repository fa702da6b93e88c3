use vstd::prelude::*;
use vstd::string::StrSliceExecFns;

verus! {

/// One header field: a name and its raw value. Names compare without regard
/// to ASCII case.
#[derive(Debug)]
pub struct Header {
    pub name: String,
    pub value: Vec<u8>,
}

/// The HTTP protocol version of a message.
#[derive(Clone, Copy, Debug, PartialEq, Eq, Structural)]
pub enum Version {
    Http09,
    Http10,
    Http11,
    Http2,
    Http3,
}

/// An HTTP response as the handshake engine reports it.
#[derive(Debug)]
pub struct Response {
    /// The status code.
    pub status: u16,
    /// The header fields, in order.
    pub headers: Vec<Header>,
}

/// The model of a list of header fields: name and value of each, in order.
pub open spec fn headers_view(hs: Seq<Header>) -> Seq<(Seq<char>, Seq<u8>)> {
    hs.map_values(|h: Header| (h.name@, h.value@))
}

/// A character with ASCII upper case folded to lower case, as a code point.
pub open spec fn fold_char(c: char) -> u32 {
    if 65 <= c as u32 && c as u32 <= 90 {
        (c as u32 + 32) as u32
    } else {
        c as u32
    }
}

/// Two field names that are equal without regard to ASCII case.
pub open spec fn same_name(a: Seq<char>, b: Seq<char>) -> bool {
    &&& a.len() == b.len()
    &&& forall|i: int| 0 <= i < a.len() ==> #[trigger] fold_char(a[i]) == fold_char(b[i])
}

/// The value of the first field whose name is `name`, without regard to ASCII case.
pub open spec fn first_named(hs: Seq<(Seq<char>, Seq<u8>)>, name: Seq<char>) -> Option<Seq<u8>>
    decreases hs.len(),
{
    if hs.len() == 0 {
        None
    } else if same_name(hs[0].0, name) {
        Some(hs[0].1)
    } else {
        first_named(hs.drop_first(), name)
    }
}

/// The name of the redirect target header, as stored (lower case).
pub open spec fn location_name() -> Seq<char> {
    seq!['l', 'o', 'c', 'a', 't', 'i', 'o', 'n']
}

/// A status of the redirection class (3xx).
pub open spec fn is_redirection(status: u16) -> bool {
    300 <= status < 400
}

/// A byte that a header value may hold when read as text: visible ASCII or tab.
pub open spec fn is_visible_ascii(b: u8) -> bool {
    (32 <= b && b < 127) || b == 9
}

/// Every byte is visible ASCII or tab.
pub open spec fn all_visible_ascii(s: Seq<u8>) -> bool {
    forall|i: int| 0 <= i < s.len() ==> is_visible_ascii(#[trigger] s[i])
}

/// Whether `status` is of the redirection class.
pub fn status_is_redirection(status: u16) -> (r: bool)
    ensures
        r == is_redirection(status),
{
    300 <= status && status < 400
}

/// Whether every byte of `value` is visible ASCII or tab, so that it reads as text.
pub fn value_is_text(value: &[u8]) -> (r: bool)
    ensures
        r == all_visible_ascii(value@),
{
    let mut i: usize = 0;
    while i < value.len()
        invariant
            i <= value@.len(),
            forall|j: int| 0 <= j < i ==> is_visible_ascii(#[trigger] value@[j]),
        decreases value@.len() - i,
    {
        let b = value[i];
        if !((32 <= b && b < 127) || b == 9) {
            assert(!is_visible_ascii(value@[i as int]));
            return false;
        }
        i = i + 1;
    }
    true
}

proof fn lemma_first_named_from(hs: Seq<(Seq<char>, Seq<u8>)>, name: Seq<char>, i: int)
    requires
        0 <= i < hs.len(),
        !same_name(hs[i].0, name),
    ensures
        first_named(hs.subrange(i, hs.len() as int), name) == first_named(
            hs.subrange(i + 1, hs.len() as int),
            name,
        ),
{
    assert(hs.subrange(i, hs.len() as int).drop_first() =~= hs.subrange(i + 1, hs.len() as int));
}

fn fold(c: char) -> (r: u32)
    ensures
        r == fold_char(c),
{
    let v = c as u32;
    if 65 <= v && v <= 90 {
        v + 32
    } else {
        v
    }
}

/// Whether two field names are equal without regard to ASCII case.
pub fn names_match(a: &String, b: &String) -> (r: bool)
    ensures
        r == same_name(a@, b@),
{
    let sa = a.as_str();
    let sb = b.as_str();
    let n = sa.unicode_len();
    if n != sb.unicode_len() {
        return false;
    }
    let mut i: usize = 0;
    while i < n
        invariant
            n == sa@.len(),
            n == sb@.len(),
            sa@ == a@,
            sb@ == b@,
            i <= n,
            forall|j: int| 0 <= j < i ==> #[trigger] fold_char(a@[j]) == fold_char(b@[j]),
        decreases n - i,
    {
        if fold(sa.get_char(i)) != fold(sb.get_char(i)) {
            return false;
        }
        i = i + 1;
    }
    true
}

/// The value of the first header field whose name is `name` without regard to
/// ASCII case, if any.
pub fn find_header<'a>(headers: &'a Vec<Header>, name: &String) -> (r: Option<&'a Vec<u8>>)
    ensures
        match r {
            Some(v) => first_named(headers_view(headers@), name@) == Some(v@),
            None => first_named(headers_view(headers@), name@) is None,
        },
{
    let ghost hv = headers_view(headers@);
    let mut i: usize = 0;
    assert(hv.subrange(0, hv.len() as int) =~= hv);
    while i < headers.len()
        invariant
            i <= headers@.len(),
            hv == headers_view(headers@),
            hv.len() == headers@.len(),
            first_named(hv, name@) == first_named(hv.subrange(i as int, hv.len() as int), name@),
        decreases headers@.len() - i,
    {
        let h = &headers[i];
        if names_match(&h.name, name) {
            return Some(&h.value);
        }
        proof {
            lemma_first_named_from(hv, name@, i as int);
        }
        i = i + 1;
    }
    None
}

/// A copy of a list of header fields.
pub fn copy_headers(headers: &Vec<Header>) -> (r: Vec<Header>)
    ensures
        headers_view(r@) == headers_view(headers@),
{
    let mut out: Vec<Header> = Vec::new();
    let mut i: usize = 0;
    while i < headers.len()
        invariant
            i <= headers@.len(),
            headers_view(out@) =~= headers_view(headers@).subrange(0, i as int),
        decreases headers@.len() - i,
    {
        let h = &headers[i];
        let mut value: Vec<u8> = Vec::new();
        let mut j: usize = 0;
        while j < h.value.len()
            invariant
                j <= h.value@.len(),
                value@ =~= h.value@.subrange(0, j as int),
            decreases h.value@.len() - j,
        {
            value.push(h.value[j]);
            j = j + 1;
        }
        assert(value@ =~= h.value@);
        let ghost before = out@;
        out.push(Header { name: h.name.clone(), value });
        assert(out@ =~= before.push(out@.last()));
        assert(headers_view(out@) =~= headers_view(before).push((h.name@, h.value@)));
        assert(headers_view(headers@).subrange(0, i + 1) =~= headers_view(headers@).subrange(
            0,
            i as int,
        ).push(headers_view(headers@)[i as int]));
        i = i + 1;
    }
    assert(headers_view(headers@).subrange(0, headers@.len() as int) =~= headers_view(headers@));
    out
}

} // verus!
