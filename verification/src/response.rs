//! Normalizing raw response parts — numeric status, grouped raw header
//! values, payload bytes — into the uniform response shape: canonical
//! status text, flattened displayable headers, and a text body.

use vstd::prelude::*;
use vstd::utf8::{
    decode_utf8, encode_utf8, encode_utf8_decode_utf8, encode_utf8_valid_utf8, is_ascii_chars,
    is_ascii_chars_encode_utf8, valid_utf8,
};
use crate::model::{ErrorKind, HttpResponse};

verus! {

/// One response header name with its value instances, in the order the
/// transport exposes them; values arrive as raw bytes.
#[derive(Debug, Clone)]
pub struct RawHeader {
    pub name: String,
    pub values: Vec<Vec<u8>>,
}

/// Ghost image of a raw response header.
pub ghost struct RawHeaderView {
    pub name: Seq<char>,
    pub values: Seq<Seq<u8>>,
}

impl DeepView for RawHeader {
    type V = RawHeaderView;

    open spec fn deep_view(&self) -> RawHeaderView {
        RawHeaderView { name: self.name@, values: self.values.deep_view() }
    }
}

/// A byte that can be shown in a header value string: visible ASCII, space,
/// or horizontal tab.
pub open spec fn is_displayable_byte(b: u8) -> bool {
    (32 <= b && b < 127) || b == 9
}

/// A header value that can be carried over into the normalized response.
pub open spec fn spec_displayable(bs: Seq<u8>) -> bool {
    forall|i: int| 0 <= i < bs.len() ==> is_displayable_byte(#[trigger] bs[i])
}

/// The characters of an ASCII byte string, one per byte.
pub open spec fn chars_of_ascii(bs: Seq<u8>) -> Seq<char> {
    Seq::new(bs.len(), |i: int| bs[i] as char)
}

/// A byte string of ASCII bytes is valid UTF-8 and decodes to exactly those
/// bytes read as characters.
pub proof fn lemma_ascii_bytes_decode(bs: Seq<u8>)
    requires
        forall|i: int| 0 <= i < bs.len() ==> #[trigger] bs[i] < 128,
    ensures
        valid_utf8(bs),
        decode_utf8(bs) == chars_of_ascii(bs),
{
    let cs = chars_of_ascii(bs);
    assert forall|i: int| 0 <= i < cs.len() implies '\0' <= #[trigger] cs[i] <= '\u{7f}' by {
        assert(bs[i] < 128);
    }
    assert(is_ascii_chars(cs));
    is_ascii_chars_encode_utf8(cs);
    assert(encode_utf8(cs) =~= bs);
    encode_utf8_valid_utf8(cs);
    encode_utf8_decode_utf8(cs);
}

/// The flattened entries one response header contributes: one pair per
/// displayable value instance, in the server's value order; values that are
/// not displayable text are skipped.
pub open spec fn flat_one(name: Seq<char>, values: Seq<Seq<u8>>) -> Seq<(Seq<char>, Seq<char>)>
    decreases values.len(),
{
    if values.len() == 0 {
        Seq::empty()
    } else {
        let rest = flat_one(name, values.drop_last());
        if spec_displayable(values.last()) {
            rest.push((name, chars_of_ascii(values.last())))
        } else {
            rest
        }
    }
}

/// The flattened response headers: each name's entries in turn, names in
/// the order the transport exposes them.
pub open spec fn flat_headers(hs: Seq<RawHeaderView>) -> Seq<(Seq<char>, Seq<char>)>
    decreases hs.len(),
{
    if hs.len() == 0 {
        Seq::empty()
    } else {
        flat_headers(hs.drop_last()) + flat_one(hs.last().name, hs.last().values)
    }
}

/// When every value instance of a header is displayable text, flattening
/// yields exactly one entry per instance, in the server's order — multiple
/// values of one name stay separate and none is merged or lost.
pub proof fn lemma_flat_one_all_displayable(name: Seq<char>, values: Seq<Seq<u8>>)
    requires
        forall|i: int| 0 <= i < values.len() ==> spec_displayable(#[trigger] values[i]),
    ensures
        flat_one(name, values).len() == values.len(),
        forall|j: int|
            0 <= j < values.len() ==> flat_one(name, values)[j] == (
                name,
                chars_of_ascii(values[j]),
            ),
    decreases values.len(),
{
    if values.len() > 0 {
        assert(forall|i: int|
            0 <= i < values.drop_last().len() ==> spec_displayable(
                #[trigger] values.drop_last()[i],
            ));
        lemma_flat_one_all_displayable(name, values.drop_last());
        assert(forall|j: int|
            0 <= j < values.len() - 1 ==> values.drop_last()[j] == values[j]);
    }
}

/// The canonical reason phrase the transport library associates with a
/// status code, when it knows one.
pub uninterp spec fn spec_reason_phrase(status: u16) -> Option<Seq<char>>;

/// The status text of a normalized response: the canonical reason phrase,
/// or empty text when the status is unknown.
pub open spec fn spec_status_text(status: u16) -> Seq<char> {
    match spec_reason_phrase(status) {
        Some(p) => p,
        None => Seq::empty(),
    }
}

/// Relies on `http::StatusCode::canonical_reason` (reached through
/// `http::StatusCode::from_u16`): the reason phrase is a fixed table keyed
/// by the status code alone, absent for unknown or out-of-range codes.
#[verifier::external_body]
fn reason_phrase(status: u16) -> (r: Option<String>)
    ensures
        r is Some <==> spec_reason_phrase(status) is Some,
        r matches Some(s) ==> spec_reason_phrase(status) matches Some(p) && s@ == p,
{
    match http::StatusCode::from_u16(status) {
        Ok(code) => code.canonical_reason().map(|p| p.to_string()),
        Err(_) => None,
    }
}

/// Relies on `String::from_utf8`: it succeeds exactly on valid UTF-8 input
/// and decodes the bytes to the corresponding characters.
#[verifier::external_body]
fn decode_text(bytes: Vec<u8>) -> (r: Option<String>)
    ensures
        r is Some <==> valid_utf8(bytes@),
        r matches Some(s) ==> s@ == decode_utf8(bytes@),
{
    String::from_utf8(bytes).ok()
}

/// True when every byte of the value is displayable text.
fn displayable(v: &Vec<u8>) -> (r: bool)
    ensures
        r == spec_displayable(v@),
{
    let mut i: usize = 0;
    while i < v.len()
        invariant
            i <= v.len(),
            forall|j: int| 0 <= j < i ==> is_displayable_byte(#[trigger] v@[j]),
        decreases v.len() - i,
    {
        let b = v[i];
        if !((32 <= b && b < 127) || b == 9) {
            return false;
        }
        i += 1;
    }
    true
}

/// Flattens grouped raw response headers into one (name, value) pair per
/// displayable value instance, preserving the server's value order within
/// each name; values that are not displayable text are skipped silently.
pub fn flatten_headers(headers: &Vec<RawHeader>) -> (out: Vec<(String, String)>)
    ensures
        out.deep_view() == flat_headers(headers.deep_view()),
{
    let ghost hv = headers.deep_view();
    let mut out: Vec<(String, String)> = Vec::new();
    let mut i: usize = 0;
    while i < headers.len()
        invariant
            hv == headers.deep_view(),
            i <= headers.len(),
            out.deep_view() == flat_headers(hv.take(i as int)),
        decreases headers.len() - i,
    {
        let h = &headers[i];
        let ghost nv = h.deep_view().name;
        let ghost vv = h.deep_view().values;
        proof {
            assert(hv.take(i + 1).drop_last() =~= hv.take(i as int));
            assert(hv.take(i + 1).last() == hv[i as int]);
        }
        let ghost outer = out.deep_view();
        let mut j: usize = 0;
        while j < h.values.len()
            invariant
                hv == headers.deep_view(),
                i < headers.len(),
                h == &headers[i as int],
                nv == h.deep_view().name,
                vv == h.deep_view().values,
                j <= h.values.len(),
                outer == flat_headers(hv.take(i as int)),
                out.deep_view() == outer + flat_one(nv, vv.take(j as int)),
            decreases h.values.len() - j,
        {
            let v = &h.values[j];
            proof {
                assert(vv.take(j + 1).drop_last() =~= vv.take(j as int));
                assert(vv.take(j + 1).last() == vv[j as int]);
                assert(vv[j as int] =~= v@);
            }
            if displayable(v) {
                proof {
                    lemma_ascii_bytes_decode(v@);
                }
                let text = decode_text(v.clone()).unwrap();
                let ghost before = out.deep_view();
                out.push((h.name.clone(), text));
                proof {
                    assert(out.deep_view() =~= before.push((nv, chars_of_ascii(vv[j as int]))));
                }
            }
            j += 1;
        }
        proof {
            assert(vv.take(h.values.len() as int) =~= vv);
            assert(flat_headers(hv.take(i + 1)) == outer + flat_one(nv, vv));
        }
        i += 1;
    }
    proof {
        assert(hv.take(headers.len() as int) =~= hv);
    }
    out
}

/// Normalizes raw response parts into the uniform response shape.
///
/// Succeeds exactly when the payload decodes as text; a payload that does
/// not fails with `BodyDecodeError` and no partial response is surfaced.
/// On success the response carries the status unchanged, its canonical
/// reason phrase (or empty text), the flattened displayable headers, and
/// the decoded body.
pub fn normalize_response(
    status: u16,
    headers: &Vec<RawHeader>,
    body: Vec<u8>,
) -> (r: Result<HttpResponse, ErrorKind>)
    ensures
        r is Ok <==> valid_utf8(body@),
        r matches Ok(res) ==> {
            &&& res.status == status
            &&& res.status_text@ == spec_status_text(status)
            &&& res.headers.deep_view() == flat_headers(headers.deep_view())
            &&& res.body@ == decode_utf8(body@)
        },
        r matches Err(e) ==> e is BodyDecodeError,
{
    let text = match decode_text(body) {
        Some(t) => t,
        None => {
            return Err(ErrorKind::BodyDecodeError);
        },
    };
    let status_text = match reason_phrase(status) {
        Some(p) => p,
        None => String::new(),
    };
    Ok(HttpResponse {
        status,
        status_text,
        headers: flatten_headers(headers),
        body: text,
    })
}

} // verus!
