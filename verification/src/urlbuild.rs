//! Assembly of the target URL: a non-empty raw string wins; otherwise the
//! URL is protocol, host labels joined by `.`, the non-empty path segments
//! joined by `/`, and the percent-encoded query string.

use vstd::prelude::*;
use vstd::string::StringExecFns;
use crate::encoding::{url_encode, url_encoded};
use crate::errors::BuildError;
use crate::models::request::{QueryParamView, Url, UrlView};
use crate::strutil::{join_spec, join_strings, push_char};

verus! {

/// A query parameter contributes a pair exactly when it has a value and is
/// not disabled.
pub open spec fn query_active(p: QueryParamView) -> bool {
    p.value is Some && p.disabled != Some(true)
}

/// The `encoded-key=encoded-value` pair of one active parameter.
pub open spec fn query_pair(p: QueryParamView) -> Seq<char> {
    url_encoded(p.key) + seq!['='] + url_encoded(p.value->0)
}

/// The query string of a parameter list: the pairs of the active parameters
/// in input order, joined by `&`.
pub open spec fn query_string(qs: Seq<QueryParamView>) -> Seq<char>
    decreases qs.len(),
{
    if qs.len() == 0 {
        Seq::empty()
    } else {
        let rest = query_string(qs.drop_last());
        let p = qs.last();
        if !query_active(p) {
            rest
        } else if rest.len() == 0 {
            query_pair(p)
        } else {
            rest + seq!['&'] + query_pair(p)
        }
    }
}

/// The protocol prefix: the given protocol, or `http` when absent, followed
/// by `://`.
pub open spec fn protocol_part(protocol: Option<Seq<char>>) -> Seq<char> {
    match protocol {
        Some(p) => p + "://"@,
        None => "http://"@,
    }
}

/// The non-empty segments of a path, in input order.
pub open spec fn nonempty_segments(segs: Seq<Seq<char>>) -> Seq<Seq<char>>
    decreases segs.len(),
{
    if segs.len() == 0 {
        Seq::empty()
    } else {
        nonempty_segments(segs.drop_last()) + (if segs.last().len() > 0 {
            seq![segs.last()]
        } else {
            Seq::<Seq<char>>::empty()
        })
    }
}

/// The path suffix: `/` and the non-empty segments joined by `/`; a path of
/// only empty segments (or none at all) adds no suffix.
pub open spec fn path_part(path: Option<Seq<Seq<char>>>) -> Seq<char> {
    match path {
        None => Seq::empty(),
        Some(segs) => {
            let joined = join_spec(nonempty_segments(segs), "/"@);
            if joined.len() == 0 {
                Seq::empty()
            } else {
                seq!['/'] + joined
            }
        },
    }
}

/// The query suffix: `?` and the query string, or nothing when it is empty.
pub open spec fn query_part(query: Option<Seq<QueryParamView>>) -> Seq<char> {
    match query {
        None => Seq::empty(),
        Some(qs) => {
            let s = query_string(qs);
            if s.len() == 0 {
                Seq::empty()
            } else {
                seq!['?'] + s
            }
        },
    }
}

/// What the URL builder returns for each input: no URL fails, a non-empty raw
/// string is taken verbatim, and otherwise the parts are assembled around a
/// required host.
pub open spec fn build_url_spec(url: Option<UrlView>) -> Result<Seq<char>, BuildError> {
    match url {
        None => Err(BuildError::MissingUrl),
        Some(u) => {
            if u.raw matches Some(r) && r.len() > 0 {
                Ok(u.raw->0)
            } else {
                match u.host {
                    None => Err(BuildError::MissingHost),
                    Some(h) => Ok(
                        protocol_part(u.protocol) + join_spec(h, "."@) + path_part(u.path)
                            + query_part(u.query),
                    ),
                }
            }
        },
    }
}

/// Builds the target URL from an optional URL model.
pub fn build_url_from_struct(url: Option<&Url>) -> (r: Result<String, BuildError>)
    ensures
        match build_url_spec(url.deep_view()) {
            Ok(s) => r matches Ok(v) && v@ == s,
            Err(e) => r matches Err(e2) && e2 == e,
        },
{
    let u = match url {
        Some(u) => u,
        None => {
            return Err(BuildError::MissingUrl);
        },
    };
    if let Some(raw) = &u.raw {
        if !raw.as_str().is_empty() {
            return Ok(raw.clone());
        }
    }
    let mut out: String;
    match &u.protocol {
        Some(p) => {
            out = p.clone();
            out.append("://");
        },
        None => {
            out = String::from_str("http://");
        },
    }
    let ghost prefix = protocol_part(u@.protocol);
    proof {
        assert(out@ == prefix);
    }
    let hosts = match &u.host {
        Some(h) => h,
        None => {
            return Err(BuildError::MissingHost);
        },
    };
    let joined_host = join_strings(hosts, ".");
    out.append(joined_host.as_str());
    let ghost with_host = prefix + join_spec(u@.host->0, "."@);
    proof {
        assert(out@ == with_host);
    }
    if let Some(path) = &u.path {
        let mut kept: Vec<String> = Vec::new();
        let mut i: usize = 0;
        while i < path.len()
            invariant
                0 <= i <= path.len(),
                kept.deep_view() == nonempty_segments(path.deep_view().take(i as int)),
            decreases path.len() - i,
        {
            let seg = &path[i];
            proof {
                let dv = path.deep_view();
                assert(dv.take(i + 1).drop_last() =~= dv.take(i as int));
                assert(dv.take(i + 1).last() == dv[i as int]);
            }
            if !seg.as_str().is_empty() {
                let ghost before = kept.deep_view();
                kept.push(seg.clone());
                proof {
                    let dv = path.deep_view();
                    assert(kept.deep_view() =~~= before + seq![dv[i as int]]);
                    assert(kept.deep_view() =~~= nonempty_segments(dv.take(i + 1)));
                }
            } else {
                proof {
                    let dv = path.deep_view();
                    assert(kept.deep_view() =~~= nonempty_segments(dv.take(i + 1)));
                }
            }
            i += 1;
        }
        proof {
            assert(path.deep_view().take(path.len() as int) =~= path.deep_view());
        }
        let joined = join_strings(&kept, "/");
        if !joined.as_str().is_empty() {
            push_char(&mut out, '/');
            out.append(joined.as_str());
            proof {
                assert(out@ =~= with_host + (seq!['/'] + joined@));
            }
        }
    }
    let ghost with_path = with_host + path_part(u@.path);
    proof {
        assert(out@ =~= with_path);
    }
    if let Some(qps) = &u.query {
        let mut qs = String::new();
        let mut i: usize = 0;
        while i < qps.len()
            invariant
                0 <= i <= qps.len(),
                qs@ == query_string(qps.deep_view().take(i as int)),
            decreases qps.len() - i,
        {
            let p = &qps[i];
            let skip = match p.disabled {
                Some(d) => d,
                None => false,
            };
            if !skip {
                if let Some(v) = &p.value {
                    if !qs.as_str().is_empty() {
                        push_char(&mut qs, '&');
                    }
                    let ek = url_encode(p.key.as_str());
                    qs.append(ek.as_str());
                    push_char(&mut qs, '=');
                    let ev = url_encode(v.as_str());
                    qs.append(ev.as_str());
                }
            }
            proof {
                let dv = qps.deep_view();
                assert(dv.take(i + 1).drop_last() =~= dv.take(i as int));
                assert(dv.take(i + 1).last() == dv[i as int]);
                assert(qs@ =~= query_string(dv.take(i + 1)));
            }
            i += 1;
        }
        proof {
            assert(qps.deep_view().take(qps.len() as int) =~= qps.deep_view());
        }
        if !qs.as_str().is_empty() {
            push_char(&mut out, '?');
            out.append(qs.as_str());
            proof {
                assert(out@ =~= with_path + (seq!['?'] + qs@));
            }
        }
    }
    proof {
        assert(out@ =~= with_path + query_part(u@.query));
    }
    Ok(out)
}

/// A raw URL, when present and non-empty, is returned exactly, whatever the
/// other fields hold.
pub proof fn lemma_raw_url_wins(u: UrlView)
    requires
        u.raw matches Some(r) && r.len() > 0,
    ensures
        build_url_spec(Some(u)) == Ok::<Seq<char>, BuildError>(u.raw->0),
{
}

/// Without a usable raw string, the built URL starts with the protocol
/// (`http` when absent) followed by `://` and the host labels joined by `.`.
pub proof fn lemma_structured_url_prefix(u: UrlView)
    requires
        !(u.raw matches Some(r) && r.len() > 0),
        u.host is Some,
    ensures
        build_url_spec(Some(u)) matches Ok(s) && {
            let prefix = protocol_part(u.protocol) + join_spec(u.host->0, "."@);
            s.len() >= prefix.len() && s.take(prefix.len() as int) == prefix
        },
{
    let prefix = protocol_part(u.protocol) + join_spec(u.host->0, "."@);
    let s = build_url_spec(Some(u))->Ok_0;
    assert(s == prefix + path_part(u.path) + query_part(u.query));
    assert(s.take(prefix.len() as int) =~= prefix);
}

/// A disabled query parameter never contributes to the query string: it can
/// be inserted anywhere without changing the output.
pub proof fn lemma_disabled_query_ignored(qs: Seq<QueryParamView>, i: int, p: QueryParamView)
    requires
        0 <= i <= qs.len(),
        p.disabled == Some(true),
    ensures
        query_string(qs.insert(i, p)) == query_string(qs),
    decreases qs.len(),
{
    let ext = qs.insert(i, p);
    if i == qs.len() {
        assert(ext.drop_last() =~= qs);
        assert(ext.last() == p);
    } else {
        assert(ext.drop_last() =~= qs.drop_last().insert(i, p));
        assert(ext.last() == qs.last());
        lemma_disabled_query_ignored(qs.drop_last(), i, p);
    }
}

} // verus!
