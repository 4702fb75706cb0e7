use vstd::prelude::*;
use crate::bytes::copy_bytes;
use crate::error::ClientError;

verus! {

/// One HTTP header: a case-insensitive ASCII name and an opaque byte value.
#[derive(Debug)]
pub struct Header {
    /// Header name; names differing only in ASCII case are the same header.
    pub name: Vec<u8>,
    /// Header value, passed through verbatim.
    pub value: Vec<u8>,
}

/// ASCII lower-casing of one byte.
pub open spec fn lower_byte(b: u8) -> u8 {
    if 65 <= b && b <= 90 {
        (b + 32) as u8
    } else {
        b
    }
}

/// The `Host` header name, lower-cased.
pub open spec fn spec_host_name() -> Seq<u8> {
    seq![104u8, 111u8, 115u8, 116u8]
}

/// Whether `name` is the `Host` header name, compared without regard to
/// ASCII case.
pub open spec fn is_host_name(name: Seq<u8>) -> bool {
    name.len() == 4 && (forall|i: int| 0 <= i < 4 ==> lower_byte(#[trigger] name[i]) == spec_host_name()[i])
}

/// Whether the header list already carries a `Host` header.
pub open spec fn has_host_header(headers: Seq<Header>) -> bool {
    exists|i: int| 0 <= i < headers.len() && is_host_name(#[trigger] headers[i].name@)
}

/// Whether `v` may stand as an HTTP header value: horizontal tab or any
/// byte outside the control range, DEL excluded.
pub open spec fn spec_valid_header_value(v: Seq<u8>) -> bool {
    forall|i: int| 0 <= i < v.len() ==> (#[trigger] v[i] == 9 || (v[i] >= 32 && v[i] != 127))
}

/// ASCII lower-casing of one byte.
pub fn lower(b: u8) -> (r: u8)
    ensures
        r == lower_byte(b),
{
    if 65 <= b && b <= 90 {
        b + 32
    } else {
        b
    }
}

/// Whether this header name is `Host`, in any ASCII case.
pub fn name_is_host(name: &Vec<u8>) -> (r: bool)
    ensures
        r == is_host_name(name@),
{
    if name.len() != 4 {
        return false;
    }
    let r = lower(name[0]) == 104 && lower(name[1]) == 111 && lower(name[2]) == 115 && lower(
        name[3],
    ) == 116;
    proof {
        if r {
            assert forall|i: int| 0 <= i < 4 implies lower_byte(name@[i]) == spec_host_name()[i] by {
                if i == 0 {
                } else if i == 1 {
                } else if i == 2 {
                } else {
                    assert(i == 3);
                }
            }
        }
    }
    r
}

/// Whether the header list already carries a `Host` header.
pub fn headers_have_host(headers: &Vec<Header>) -> (r: bool)
    ensures
        r == has_host_header(headers@),
{
    let mut i: usize = 0;
    while i < headers.len()
        invariant
            i <= headers.len(),
            forall|j: int| 0 <= j < i ==> !is_host_name(#[trigger] headers@[j].name@),
        decreases headers.len() - i,
    {
        if name_is_host(&headers[i].name) {
            return true;
        }
        i = i + 1;
    }
    false
}

/// Whether these bytes may stand as an HTTP header value.
pub fn valid_header_value(v: &Vec<u8>) -> (r: bool)
    ensures
        r == spec_valid_header_value(v@),
{
    let mut i: usize = 0;
    while i < v.len()
        invariant
            i <= v.len(),
            forall|j: int| 0 <= j < i ==> (#[trigger] v@[j] == 9 || (v@[j] >= 32 && v@[j] != 127)),
        decreases v.len() - i,
    {
        let b = v[i];
        if !(b == 9 || (b >= 32 && b != 127)) {
            return false;
        }
        i = i + 1;
    }
    true
}

/// The `Host`-defaulting rule of the dispatcher: a list that already names
/// `Host` is left exactly as the caller wrote it; otherwise the caller's
/// headers stand unchanged, in order, followed by one synthesized `Host`
/// header whose value is the URI's authority.
pub open spec fn host_normalized(input: Seq<Header>, authority: Seq<u8>, out: Seq<Header>) -> bool {
    if has_host_header(input) {
        out == input
    } else {
        &&& out.len() == input.len() + 1
        &&& (forall|i: int| 0 <= i < input.len() ==> out[i] == input[i])
        &&& out[input.len() as int].name@ == spec_host_name()
        &&& out[input.len() as int].value@ == authority
    }
}

/// The `Host` header name as a byte vector.
fn host_name_vec() -> (r: Vec<u8>)
    ensures
        r@ == spec_host_name(),
{
    let mut v: Vec<u8> = Vec::new();
    v.push(104);
    v.push(111);
    v.push(115);
    v.push(116);
    proof {
        assert(v@ =~= spec_host_name());
    }
    v
}

/// Applies the `Host`-defaulting rule before a request is sent: a
/// caller-supplied `Host` header is never overwritten; a missing one is
/// synthesized from the URI's authority. Fails with `HttpError` exactly
/// when a `Host` header must be synthesized but the authority's bytes
/// cannot stand in a header value.
pub fn normalize_headers(headers: Vec<Header>, authority: &Vec<u8>) -> (r: Result<
    Vec<Header>,
    ClientError,
>)
    ensures
        r is Ok <==> (has_host_header(headers@) || spec_valid_header_value(authority@)),
        r matches Ok(out) ==> host_normalized(headers@, authority@, out@),
        r matches Err(e) ==> e == ClientError::Http,
{
    if headers_have_host(&headers) {
        Ok(headers)
    } else if valid_header_value(authority) {
        let mut out = headers;
        out.push(Header { name: host_name_vec(), value: copy_bytes(authority) });
        Ok(out)
    } else {
        Err(ClientError::Http)
    }
}

/// How many `Host` headers a list carries.
pub open spec fn host_header_count(headers: Seq<Header>) -> nat
    decreases headers.len(),
{
    if headers.len() == 0 {
        0
    } else {
        host_header_count(headers.drop_last()) + if is_host_name(headers.last().name@) {
            1nat
        } else {
            0nat
        }
    }
}

/// A list without a `Host` header counts none.
proof fn lemma_no_host_count_zero(headers: Seq<Header>)
    requires
        !has_host_header(headers),
    ensures
        host_header_count(headers) == 0,
    decreases headers.len(),
{
    if headers.len() > 0 {
        assert(!is_host_name(headers.last().name@)) by {
            assert(headers.last() == headers[headers.len() - 1]);
        }
        assert(!has_host_header(headers.drop_last())) by {
            if has_host_header(headers.drop_last()) {
                let i = choose|i: int|
                    0 <= i < headers.drop_last().len() && is_host_name(
                        #[trigger] headers.drop_last()[i].name@,
                    );
                assert(is_host_name(headers[i].name@));
            }
        }
        lemma_no_host_count_zero(headers.drop_last());
    }
}

/// Law: a request that lacked a `Host` header carries exactly one after
/// normalization, and its value equals the URI's authority.
pub proof fn lemma_normalize_host_count(input: Seq<Header>, authority: Seq<u8>, out: Seq<Header>)
    requires
        !has_host_header(input),
        host_normalized(input, authority, out),
    ensures
        host_header_count(out) == 1,
        out[out.len() - 1].value@ == authority,
{
    assert(out.drop_last() =~= input);
    lemma_no_host_count_zero(input);
    assert(out.last() == out[input.len() as int]);
    assert(is_host_name(out.last().name@)) by {
        lemma_host_name_is_host();
    }
}

/// The lower-cased `Host` name is itself a `Host` name.
proof fn lemma_host_name_is_host()
    ensures
        is_host_name(spec_host_name()),
{
    assert forall|i: int| 0 <= i < 4 implies lower_byte(spec_host_name()[i])
        == spec_host_name()[i] by {
        if i == 0 {
        } else if i == 1 {
        } else if i == 2 {
        } else {
            assert(i == 3);
        }
    }
}

/// Law: normalization preserves every caller-supplied header, in place and
/// unchanged; it can only append.
pub proof fn lemma_normalize_preserves_callers_headers(
    input: Seq<Header>,
    authority: Seq<u8>,
    out: Seq<Header>,
)
    requires
        host_normalized(input, authority, out),
    ensures
        out.len() >= input.len(),
        forall|i: int| 0 <= i < input.len() ==> out[i] == input[i],
{
}

/// Law: normalization is idempotent — normalizing an already normalized
/// header list changes nothing, so re-dispatching the same request leaves
/// its `Host` header untouched.
pub proof fn lemma_normalize_idempotent(
    input: Seq<Header>,
    authority: Seq<u8>,
    once: Seq<Header>,
    twice: Seq<Header>,
)
    requires
        host_normalized(input, authority, once),
        host_normalized(once, authority, twice),
    ensures
        twice == once,
{
    if !has_host_header(input) {
        assert(is_host_name(once[input.len() as int].name@)) by {
            lemma_host_name_is_host();
        }
        assert(has_host_header(once));
    }
}

} // verus!
