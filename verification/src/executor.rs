//! Turning a whole request model into a request plan — validated method,
//! target URL, filtered headers with auth appended, optional payload — and
//! normalizing the outcome of the send into a response record. The network
//! call itself is the host application's job: it sends a plan and hands the
//! outcome back.

use vstd::prelude::*;
use vstd::string::StringExecFns;
use crate::auth::{apply_auth, auth_headers};
use crate::bodybuild::{body_spec, build_body_from_struct};
use crate::errors::BuildError;
use crate::models::request::{HeaderView, Request, RequestView};
use crate::strutil::{str_eq, to_upper, upper_of};
use crate::urlbuild::{build_url_from_struct, build_url_spec};

verus! {

/// The supported HTTP verbs.
#[derive(Debug, Clone, Copy, PartialEq, Eq, Structural)]
pub enum Method {
    Get,
    Post,
    Put,
    Patch,
    Delete,
    Head,
    Options,
}

/// A fully assembled outbound request, ready to send.
#[derive(Debug)]
pub struct RequestPlan {
    pub method: Method,
    pub url: String,
    pub headers: Vec<(String, String)>,
    pub body: Option<String>,
}

/// The mathematical shape of a [`RequestPlan`].
pub ghost struct RequestPlanView {
    pub method: Method,
    pub url: Seq<char>,
    pub headers: Seq<(Seq<char>, Seq<char>)>,
    pub body: Option<Seq<char>>,
}

impl View for RequestPlan {
    type V = RequestPlanView;

    open spec fn view(&self) -> RequestPlanView {
        RequestPlanView {
            method: self.method,
            url: self.url@,
            headers: self.headers.deep_view(),
            body: self.body.deep_view(),
        }
    }
}

/// A normalized response record: the status (0 when the request never reached
/// the network), the response headers, the body text, and the elapsed time.
#[derive(Debug, Clone, PartialEq)]
pub struct HttpResponse {
    pub status_code: u16,
    pub headers: Vec<(String, String)>,
    pub body: String,
    pub duration_ms: u64,
}

/// The mathematical shape of an [`HttpResponse`].
pub ghost struct HttpResponseView {
    pub status_code: u16,
    pub headers: Seq<(Seq<char>, Seq<char>)>,
    pub body: Seq<char>,
    pub duration_ms: u64,
}

impl View for HttpResponse {
    type V = HttpResponseView;

    open spec fn view(&self) -> HttpResponseView {
        HttpResponseView {
            status_code: self.status_code,
            headers: self.headers.deep_view(),
            body: self.body@,
            duration_ms: self.duration_ms,
        }
    }
}

/// The method a name selects, once uppercased; `None` for an unsupported verb.
pub open spec fn parse_method(s: Seq<char>) -> Option<Method> {
    if s == "GET"@ {
        Some(Method::Get)
    } else if s == "POST"@ {
        Some(Method::Post)
    } else if s == "PUT"@ {
        Some(Method::Put)
    } else if s == "PATCH"@ {
        Some(Method::Patch)
    } else if s == "DELETE"@ {
        Some(Method::Delete)
    } else if s == "HEAD"@ {
        Some(Method::Head)
    } else if s == "OPTIONS"@ {
        Some(Method::Options)
    } else {
        None
    }
}

/// The method name a request carries: its method field, or `GET` when absent.
pub open spec fn method_name(req: RequestView) -> Seq<char> {
    match req.method {
        Some(m) => m,
        None => "GET"@,
    }
}

/// The explicitly enabled headers of a header list, in input order.
pub open spec fn enabled_headers(hs: Seq<HeaderView>) -> Seq<(Seq<char>, Seq<char>)>
    decreases hs.len(),
{
    if hs.len() == 0 {
        Seq::empty()
    } else {
        enabled_headers(hs.drop_last()) + (if hs.last().disabled == Some(true) {
            Seq::<(Seq<char>, Seq<char>)>::empty()
        } else {
            seq![(hs.last().key, hs.last().value)]
        })
    }
}

/// The request's own headers: the enabled explicit headers, or none.
pub open spec fn explicit_headers(req: RequestView) -> Seq<(Seq<char>, Seq<char>)> {
    match req.header {
        Some(hs) => enabled_headers(hs),
        None => Seq::empty(),
    }
}

/// The auth-derived headers, appended after the explicit ones.
pub open spec fn derived_headers(req: RequestView) -> Seq<(Seq<char>, Seq<char>)> {
    match req.auth {
        Some(a) => auth_headers(a),
        None => Seq::empty(),
    }
}

/// What the planner returns for each request: a missing or hostless URL
/// fails first; an unrecognized method fails next; otherwise the plan holds
/// the built URL, the explicit headers followed by the auth headers, and the
/// body produced by the body builder.
pub open spec fn plan_spec(req: RequestView) -> Result<RequestPlanView, BuildError> {
    match build_url_spec(req.url) {
        Err(e) => Err(e),
        Ok(url) => match parse_method(upper_of(method_name(req))) {
            None => Err(BuildError::UnsupportedMethod),
            Some(m) => Ok(
                RequestPlanView {
                    method: m,
                    url: url,
                    headers: explicit_headers(req) + derived_headers(req),
                    body: body_spec(req.body),
                },
            ),
        },
    }
}

/// Assembles the request plan from a request model.
pub fn prepare_request(req: &Request) -> (r: Result<RequestPlan, BuildError>)
    ensures
        match plan_spec(req@) {
            Ok(p) => r matches Ok(plan) && plan@ == p,
            Err(e) => r matches Err(e2) && e2 == e,
        },
{
    let url_ref = req.url.as_ref();
    proof {
        assert(url_ref.deep_view() == req@.url);
    }
    let url_str = match build_url_from_struct(url_ref) {
        Ok(u) => u,
        Err(e) => {
            return Err(e);
        },
    };
    let mut headers: Vec<(String, String)> = Vec::new();
    if let Some(hl) = &req.header {
        let mut i: usize = 0;
        while i < hl.len()
            invariant
                0 <= i <= hl.len(),
                headers.deep_view() == enabled_headers(hl.deep_view().take(i as int)),
            decreases hl.len() - i,
        {
            let h = &hl[i];
            proof {
                let dv = hl.deep_view();
                assert(dv.take(i + 1).drop_last() =~= dv.take(i as int));
                assert(dv.take(i + 1).last() == dv[i as int]);
            }
            let skip = match h.disabled {
                Some(d) => d,
                None => false,
            };
            if !skip {
                let ghost before = headers.deep_view();
                headers.push((h.key.clone(), h.value.clone()));
                proof {
                    let dv = hl.deep_view();
                    assert(headers.deep_view() =~= before + seq![(dv[i as int].key, dv[i as int].value)]);
                    assert(headers.deep_view() =~= enabled_headers(dv.take(i + 1)));
                }
            } else {
                proof {
                    let dv = hl.deep_view();
                    assert(headers.deep_view() =~= enabled_headers(dv.take(i + 1)));
                }
            }
            i += 1;
        }
        proof {
            assert(hl.deep_view().take(hl.len() as int) =~= hl.deep_view());
        }
    }
    proof {
        assert(headers.deep_view() =~= explicit_headers(req@));
    }
    if let Some(a) = &req.auth {
        match apply_auth(a, &mut headers) {
            Ok(()) => {},
            Err(e) => {
                return Err(e);
            },
        }
    }
    proof {
        assert(headers.deep_view() =~= explicit_headers(req@) + derived_headers(req@));
    }
    let body_ref = req.body.as_ref();
    proof {
        assert(body_ref.deep_view() == req@.body);
    }
    let body = match build_body_from_struct(body_ref) {
        Ok(b) => b,
        Err(e) => {
            return Err(e);
        },
    };
    let method_str = match &req.method {
        Some(m) => to_upper(m.as_str()),
        None => to_upper("GET"),
    };
    let m = method_str.as_str();
    let method = if str_eq(m, "GET") {
        Method::Get
    } else if str_eq(m, "POST") {
        Method::Post
    } else if str_eq(m, "PUT") {
        Method::Put
    } else if str_eq(m, "PATCH") {
        Method::Patch
    } else if str_eq(m, "DELETE") {
        Method::Delete
    } else if str_eq(m, "HEAD") {
        Method::Head
    } else if str_eq(m, "OPTIONS") {
        Method::Options
    } else {
        return Err(BuildError::UnsupportedMethod);
    };
    Ok(RequestPlan { method, url: url_str, headers, body })
}

/// A failure record: status 0, no headers, the given body and duration.
pub open spec fn failure_view(body: Seq<char>, duration_ms: u64) -> HttpResponseView {
    HttpResponseView { status_code: 0, headers: Seq::empty(), body: body, duration_ms: duration_ms }
}

/// Normalizes the outcome of the send: a response passes through with the
/// measured duration set; a failure message becomes a status-0 record whose
/// body is `Error: ` and the message. Every path yields a complete record.
pub fn finish_response(outcome: Result<HttpResponse, String>, duration_ms: u64) -> (r: HttpResponse)
    ensures
        outcome matches Ok(resp) ==> r@ == (HttpResponseView {
            status_code: resp@.status_code,
            headers: resp@.headers,
            body: resp@.body,
            duration_ms: duration_ms,
        }),
        outcome matches Err(msg) ==> r@ == failure_view("Error: "@ + msg@, duration_ms),
        r@.status_code == 0 || outcome is Ok,
{
    match outcome {
        Ok(resp) => HttpResponse {
            status_code: resp.status_code,
            headers: resp.headers,
            body: resp.body,
            duration_ms,
        },
        Err(msg) => {
            let mut body = String::from_str("Error: ");
            body.append(msg.as_str());
            let r = HttpResponse { status_code: 0, headers: Vec::new(), body, duration_ms };
            proof {
                assert(r@.headers =~= Seq::<(Seq<char>, Seq<char>)>::empty());
            }
            r
        },
    }
}

/// The record reported when the request document itself does not parse:
/// status 0, no headers, a body naming the parse error, zero duration.
pub fn parse_failure_response(msg: &str) -> (r: HttpResponse)
    ensures
        r@ == failure_view("Error parsing request: "@ + msg@, 0),
{
    let mut body = String::from_str("Error parsing request: ");
    body.append(msg);
    let r = HttpResponse { status_code: 0, headers: Vec::new(), body, duration_ms: 0 };
    proof {
        assert(r@.headers =~= Seq::<(Seq<char>, Seq<char>)>::empty());
    }
    r
}

/// An unsupported method on an otherwise buildable URL always fails the plan,
/// so nothing is ever handed to the transport; and for any duration, the
/// normalized answer for that failure carries status 0 and the method
/// message, never a real status.
pub proof fn lemma_unsupported_method(req: RequestView, duration_ms: u64)
    requires
        build_url_spec(req.url) is Ok,
        parse_method(upper_of(method_name(req))) is None,
    ensures
        plan_spec(req) == Err::<RequestPlanView, BuildError>(BuildError::UnsupportedMethod),
        failure_view(
            "Error: "@ + crate::errors::message_spec(BuildError::UnsupportedMethod),
            duration_ms,
        ).status_code == 0,
{
}

/// A disabled header never reaches the plan: it can be inserted anywhere in
/// the header list without changing the planned headers.
pub proof fn lemma_disabled_header_ignored(hs: Seq<HeaderView>, i: int, h: HeaderView)
    requires
        0 <= i <= hs.len(),
        h.disabled == Some(true),
    ensures
        enabled_headers(hs.insert(i, h)) == enabled_headers(hs),
    decreases hs.len(),
{
    let ext = hs.insert(i, h);
    if i == hs.len() {
        assert(ext.drop_last() =~= hs);
        assert(ext.last() == h);
        assert(enabled_headers(ext) =~~= enabled_headers(hs));
    } else {
        assert(ext.drop_last() =~= hs.drop_last().insert(i, h));
        assert(ext.last() == hs.last());
        lemma_disabled_header_ignored(hs.drop_last(), i, h);
        assert(enabled_headers(ext) =~~= enabled_headers(hs));
    }
}

} // verus!
