//! Turning a request description into a validated transport plan: method
//! validation, silent filtering of malformed headers and of disabled or
//! blank form fields, and selection of the body encoding.

use vstd::prelude::*;
use vstd::utf8::encode_utf8;
use crate::model::{ErrorKind, HttpRequest, KeyValueItem, KvView};
use crate::tokens::{
    header_name_ok, header_value_ok, method_token_ok, spec_header_name_ok,
    spec_header_value_ok, spec_method_ok,
};

verus! {

/// A character with the Unicode `White_Space` property, the class that
/// trimming removes.
pub open spec fn is_whitespace_char(c: char) -> bool {
    let u = c as u32;
    ||| 9 <= u <= 13
    ||| u == 32
    ||| u == 0x85
    ||| u == 0xA0
    ||| u == 0x1680
    ||| 0x2000 <= u <= 0x200A
    ||| u == 0x2028
    ||| u == 0x2029
    ||| u == 0x202F
    ||| u == 0x205F
    ||| u == 0x3000
}

/// Text that trims to nothing: every character is whitespace.
pub open spec fn spec_is_blank(s: Seq<char>) -> bool {
    forall|i: int| 0 <= i < s.len() ==> is_whitespace_char(#[trigger] s[i])
}

/// True when `s` consists entirely of whitespace, so that trimming it
/// leaves the empty string.
pub fn is_blank(s: &str) -> (r: bool)
    ensures
        r == spec_is_blank(s@),
{
    let n = s.unicode_len();
    let mut i: usize = 0;
    while i < n
        invariant
            n == s@.len(),
            i <= n,
            forall|j: int| 0 <= j < i ==> is_whitespace_char(#[trigger] s@[j]),
        decreases n - i,
    {
        let u = s.get_char(i) as u32;
        if !((9 <= u && u <= 13) || u == 32 || u == 0x85 || u == 0xA0 || u == 0x1680
            || (0x2000 <= u && u <= 0x200A) || u == 0x2028 || u == 0x2029 || u == 0x202F
            || u == 0x205F || u == 0x3000) {
            return false;
        }
        i += 1;
    }
    true
}

/// A header pair survives filtering when its name and value both parse as
/// valid HTTP header tokens.
pub open spec fn header_pair_ok(p: (Seq<char>, Seq<char>)) -> bool {
    spec_header_name_ok(encode_utf8(p.0)) && spec_header_value_ok(encode_utf8(p.1))
}

/// The headers that are attached to the outgoing request: the valid pairs,
/// in their given order, duplicates kept as separate instances.
pub open spec fn kept_headers(hs: Seq<(Seq<char>, Seq<char>)>) -> Seq<(Seq<char>, Seq<char>)>
    decreases hs.len(),
{
    if hs.len() == 0 {
        Seq::empty()
    } else {
        let rest = kept_headers(hs.drop_last());
        if header_pair_ok(hs.last()) {
            rest.push(hs.last())
        } else {
            rest
        }
    }
}

/// A form field is transmitted when it is enabled and its key does not trim
/// to the empty string.
pub open spec fn field_kept(item: KvView) -> bool {
    item.enabled && !spec_is_blank(item.key)
}

/// The (key, value) text fields of the multipart body, in their given
/// order; disabled or blank-key items are dropped silently.  Keys keep
/// their original, untrimmed text.
pub open spec fn kept_fields(items: Seq<KvView>) -> Seq<(Seq<char>, Seq<char>)>
    decreases items.len(),
{
    if items.len() == 0 {
        Seq::empty()
    } else {
        let rest = kept_fields(items.drop_last());
        if field_kept(items.last()) {
            rest.push((items.last().key, items.last().value))
        } else {
            rest
        }
    }
}

/// Filtering is sound: every header pair it keeps is well-formed and was
/// among the given pairs — nothing is invented and nothing malformed slips
/// through.
pub proof fn lemma_kept_headers_sound(hs: Seq<(Seq<char>, Seq<char>)>, j: int)
    requires
        0 <= j < kept_headers(hs).len(),
    ensures
        header_pair_ok(kept_headers(hs)[j]),
        hs.contains(kept_headers(hs)[j]),
    decreases hs.len(),
{
    let rest = kept_headers(hs.drop_last());
    if j < rest.len() {
        lemma_kept_headers_sound(hs.drop_last(), j);
        let k = choose|k: int|
            0 <= k < hs.drop_last().len() && hs.drop_last()[k] == kept_headers(hs)[j];
        assert(hs[k] == kept_headers(hs)[j]);
    } else {
        assert(hs[hs.len() - 1] == kept_headers(hs)[j]);
    }
}

/// Filtering is complete: a well-formed header pair is never dropped, so a
/// malformed neighbour cannot abort the rest of the request.
pub proof fn lemma_kept_headers_complete(hs: Seq<(Seq<char>, Seq<char>)>, i: int)
    requires
        0 <= i < hs.len(),
        header_pair_ok(hs[i]),
    ensures
        kept_headers(hs).contains(hs[i]),
    decreases hs.len(),
{
    let rest = kept_headers(hs.drop_last());
    if i < hs.len() - 1 {
        assert(hs.drop_last()[i] == hs[i]);
        lemma_kept_headers_complete(hs.drop_last(), i);
        let k = choose|k: int| 0 <= k < rest.len() && rest[k] == hs[i];
        assert(kept_headers(hs)[k] == hs[i]);
    } else {
        assert(kept_headers(hs)[rest.len() as int] == hs[i]);
    }
}

/// Field selection is sound: every transmitted field is the (key, value)
/// of some enabled item whose key does not trim to nothing.
pub proof fn lemma_kept_fields_sound(items: Seq<KvView>, j: int)
    requires
        0 <= j < kept_fields(items).len(),
    ensures
        exists|i: int|
            0 <= i < items.len() && field_kept(#[trigger] items[i]) && kept_fields(items)[j]
                == (items[i].key, items[i].value),
    decreases items.len(),
{
    let rest = kept_fields(items.drop_last());
    if j < rest.len() {
        lemma_kept_fields_sound(items.drop_last(), j);
        let i = choose|i: int|
            0 <= i < items.drop_last().len() && field_kept(#[trigger] items.drop_last()[i])
                && rest[j] == (items.drop_last()[i].key, items.drop_last()[i].value);
        assert(items[i] == items.drop_last()[i]);
    } else {
        assert(items[items.len() - 1] == items.last());
    }
}

/// Field selection is complete: an enabled item with a non-blank key is
/// always transmitted.
pub proof fn lemma_kept_fields_complete(items: Seq<KvView>, i: int)
    requires
        0 <= i < items.len(),
        field_kept(items[i]),
    ensures
        kept_fields(items).contains((items[i].key, items[i].value)),
    decreases items.len(),
{
    let rest = kept_fields(items.drop_last());
    if i < items.len() - 1 {
        assert(items.drop_last()[i] == items[i]);
        lemma_kept_fields_complete(items.drop_last(), i);
        let k = choose|k: int|
            0 <= k < rest.len() && rest[k] == (items[i].key, items[i].value);
        assert(kept_fields(items)[k] == (items[i].key, items[i].value));
    } else {
        assert(kept_fields(items)[rest.len() as int] == (items[i].key, items[i].value));
    }
}

/// The body that is attached to the outgoing request.
#[derive(Debug, Clone)]
pub enum BodyPlan {
    /// The payload is exactly this text, with no transformation.
    Text(String),
    /// A multipart body made of these text fields, in order.
    Parts(Vec<(String, String)>),
    /// No body is attached.
    Empty,
}

/// Ghost image of a body plan.
pub ghost enum BodyPlanView {
    Text(Seq<char>),
    Parts(Seq<(Seq<char>, Seq<char>)>),
    Empty,
}

impl DeepView for BodyPlan {
    type V = BodyPlanView;

    open spec fn deep_view(&self) -> BodyPlanView {
        match self {
            BodyPlan::Text(s) => BodyPlanView::Text(s@),
            BodyPlan::Parts(v) => BodyPlanView::Parts(v.deep_view()),
            BodyPlan::Empty => BodyPlanView::Empty,
        }
    }
}

/// The body encoding selected by the `body_type` tag: `"form-data"` builds
/// a multipart body from the kept fields; `"raw"` and
/// `"x-www-form-urlencoded"` attach the body text verbatim when present;
/// every other tag attaches no body.
pub open spec fn spec_body_plan(
    body_type: Seq<char>,
    body: Option<Seq<char>>,
    items: Seq<KvView>,
) -> BodyPlanView {
    if body_type == "form-data"@ {
        BodyPlanView::Parts(kept_fields(items))
    } else if body_type == "raw"@ || body_type == "x-www-form-urlencoded"@ {
        match body {
            Some(b) => BodyPlanView::Text(b),
            None => BodyPlanView::Empty,
        }
    } else {
        BodyPlanView::Empty
    }
}

/// A fully validated request, ready for the transport: the method is a
/// valid verb token, every header pair is well-formed, and the body is
/// already encoded as planned.
#[derive(Debug, Clone)]
pub struct RequestPlan {
    pub method: String,
    pub url: String,
    pub headers: Vec<(String, String)>,
    pub body: BodyPlan,
    pub follow_redirects: bool,
    pub verify_ssl: bool,
}

/// The transport directives a plan's policies translate into.  The client
/// executing the plan is configured from these alone.
#[derive(Debug, Clone)]
pub struct ClientPolicy {
    /// `Some(n)` caps redirect following at `n` hops; `None` leaves the
    /// transport's default redirect handling in place.
    pub redirect_limit: Option<u32>,
    /// Accept certificates that fail chain validation.
    pub accept_invalid_certs: bool,
    /// Accept certificates whose hostname does not match.
    pub accept_invalid_hostnames: bool,
}

/// Translates the per-request policies into transport directives: not
/// following redirects means a hard zero-hop cap (not even a single
/// `Location` hop), and turning off TLS verification disables both
/// certificate and hostname checks together, for this call only.
pub fn client_policy(follow_redirects: bool, verify_ssl: bool) -> (p: ClientPolicy)
    ensures
        p.redirect_limit == if follow_redirects {
            Option::<u32>::None
        } else {
            Some(0u32)
        },
        p.accept_invalid_certs == !verify_ssl,
        p.accept_invalid_hostnames == !verify_ssl,
{
    ClientPolicy {
        redirect_limit: if follow_redirects {
            None
        } else {
            Some(0)
        },
        accept_invalid_certs: !verify_ssl,
        accept_invalid_hostnames: !verify_ssl,
    }
}

/// Drops every header pair whose name or value is not a valid HTTP header
/// token, keeping the rest in order — a malformed entry never aborts the
/// request.
pub fn filter_headers(headers: &Vec<(String, String)>) -> (out: Vec<(String, String)>)
    ensures
        out.deep_view() == kept_headers(headers.deep_view()),
{
    let ghost hv = headers.deep_view();
    let mut out: Vec<(String, String)> = Vec::new();
    let mut i: usize = 0;
    while i < headers.len()
        invariant
            hv == headers.deep_view(),
            i <= headers.len(),
            out.deep_view() == kept_headers(hv.take(i as int)),
        decreases headers.len() - i,
    {
        let pair = &headers[i];
        proof {
            assert(hv.take(i + 1).drop_last() =~= hv.take(i as int));
            assert(hv.take(i + 1).last() == hv[i as int]);
        }
        if header_name_ok(pair.0.as_str()) && header_value_ok(pair.1.as_str()) {
            let ghost before = out.deep_view();
            out.push((pair.0.clone(), pair.1.clone()));
            proof {
                assert(out.deep_view() =~= before.push(hv[i as int]));
            }
        }
        i += 1;
    }
    proof {
        assert(hv.take(headers.len() as int) =~= hv);
    }
    out
}

/// Keeps, in order, the (key, value) of every enabled form item whose key
/// does not trim to the empty string; the rest are dropped silently.
pub fn form_fields(items: &Vec<KeyValueItem>) -> (out: Vec<(String, String)>)
    ensures
        out.deep_view() == kept_fields(items.deep_view()),
{
    let ghost iv = items.deep_view();
    let mut out: Vec<(String, String)> = Vec::new();
    let mut i: usize = 0;
    while i < items.len()
        invariant
            iv == items.deep_view(),
            i <= items.len(),
            out.deep_view() == kept_fields(iv.take(i as int)),
        decreases items.len() - i,
    {
        let item = &items[i];
        proof {
            assert(iv.take(i + 1).drop_last() =~= iv.take(i as int));
            assert(iv.take(i + 1).last() == iv[i as int]);
        }
        if item.enabled && !is_blank(item.key.as_str()) {
            let ghost before = out.deep_view();
            out.push((item.key.clone(), item.value.clone()));
            proof {
                assert(out.deep_view() =~= before.push((iv[i as int].key, iv[i as int].value)));
            }
        }
        i += 1;
    }
    proof {
        assert(iv.take(items.len() as int) =~= iv);
    }
    out
}

/// Encodes the request body as its `body_type` tag directs.
pub fn body_plan(req: &HttpRequest) -> (out: BodyPlan)
    ensures
        out.deep_view() == spec_body_plan(
            req.body_type@,
            req.body.deep_view(),
            req.form_data.deep_view(),
        ),
{
    if req.body_type.eq(&String::from_str("form-data")) {
        BodyPlan::Parts(form_fields(&req.form_data))
    } else if req.body_type.eq(&String::from_str("raw"))
        || req.body_type.eq(&String::from_str("x-www-form-urlencoded")) {
        match &req.body {
            Some(b) => BodyPlan::Text(b.clone()),
            None => BodyPlan::Empty,
        }
    } else {
        BodyPlan::Empty
    }
}

/// Translates a request description into a validated transport plan.
///
/// Succeeds exactly when the method text is a valid HTTP verb token;
/// otherwise the call fails with `InvalidMethod` and nothing else is done.
/// On success the plan carries the URL and policies unchanged, the headers
/// filtered down to the well-formed pairs in order, and the body encoded as
/// the `body_type` tag directs.
pub fn plan_request(req: &HttpRequest) -> (r: Result<RequestPlan, ErrorKind>)
    ensures
        r is Ok <==> spec_method_ok(encode_utf8(req.method@)),
        r matches Ok(p) ==> {
            &&& p.method@ == req.method@
            &&& p.url@ == req.url@
            &&& p.headers.deep_view() == kept_headers(req.headers.deep_view())
            &&& p.body.deep_view() == spec_body_plan(
                req.body_type@,
                req.body.deep_view(),
                req.form_data.deep_view(),
            )
            &&& p.follow_redirects == req.settings.follow_redirects
            &&& p.verify_ssl == req.settings.verify_ssl
        },
        r matches Err(e) ==> e is InvalidMethod,
{
    if !method_token_ok(req.method.as_str()) {
        return Err(ErrorKind::InvalidMethod);
    }
    Ok(RequestPlan {
        method: req.method.clone(),
        url: req.url.clone(),
        headers: filter_headers(&req.headers),
        body: body_plan(req),
        follow_redirects: req.settings.follow_redirects,
        verify_ssl: req.settings.verify_ssl,
    })
}

} // verus!
