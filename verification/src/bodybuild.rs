//! Production of the request payload: the body's mode tag selects raw
//! passthrough, URL-encoded form items, form-data items (also rendered
//! URL-encoded), or a constructed GraphQL JSON envelope. Unknown modes give
//! no body.

use vstd::prelude::*;
use vstd::string::StringExecFns;
use crate::encoding::{url_encode, url_encoded};
use crate::errors::BuildError;
use crate::models::request::{Body, BodyView, FormDataView, GraphQLBodyView};
use crate::strutil::{push_char, str_eq};

verus! {

/// What serde_json's `to_string` returns for a JSON string value holding the
/// given characters; the result depends on the characters alone.
pub uninterp spec fn json_string_lit(s: Seq<char>) -> Seq<char>;

/// Relies on serde_json's `to_string` applied to a JSON string value: the
/// escaped, quoted string literal. Serializing a string value cannot fail and
/// does not panic.
#[verifier::external_body]
pub(crate) fn json_quote(s: &str) -> (r: String)
    ensures
        r@ == json_string_lit(s@),
{
    serde_json::to_string(&serde_json::Value::String(s.to_string())).unwrap()
}

/// What parsing the given characters as a JSON document and re-serializing
/// compactly gives: `None` when they are not valid JSON. The outcome depends
/// on the characters alone.
pub uninterp spec fn json_normalized(s: Seq<char>) -> Option<Seq<char>>;

/// Relies on serde_json's `from_str` for `Value` and `to_string`: parses the
/// string as JSON and re-serializes it compactly; `None` when it does not
/// parse. Serializing a parsed `Value` cannot fail and does not panic.
#[verifier::external_body]
fn json_reserialize(s: &str) -> (r: Option<String>)
    ensures
        match r {
            Some(c) => json_normalized(s@) == Some(c@),
            None => json_normalized(s@) is None,
        },
{
    match serde_json::from_str::<serde_json::Value>(s) {
        Ok(v) => Some(serde_json::to_string(&v).unwrap()),
        Err(_) => None,
    }
}

/// A form item contributes a pair exactly when it has a value and is not
/// disabled.
pub open spec fn form_active(it: FormDataView) -> bool {
    it.value is Some && it.disabled != Some(true)
}

/// The `encoded-key=encoded-value` pair of one active form item.
pub open spec fn form_pair(it: FormDataView) -> Seq<char> {
    url_encoded(it.key) + seq!['='] + url_encoded(it.value->0)
}

/// The URL-encoded rendering of a form item list: the pairs of the active
/// items in input order, joined by `&`.
pub open spec fn form_pairs(items: Seq<FormDataView>) -> Seq<char>
    decreases items.len(),
{
    if items.len() == 0 {
        Seq::empty()
    } else {
        let rest = form_pairs(items.drop_last());
        let it = items.last();
        if !form_active(it) {
            rest
        } else if rest.len() == 0 {
            form_pair(it)
        } else {
            rest + seq!['&'] + form_pair(it)
        }
    }
}

/// The GraphQL JSON envelope: a `query` member holding the query as a string
/// literal, and a `variables` member holding the variables document re-read
/// as JSON when it parses, else as a string literal. Absent fields are
/// omitted.
pub open spec fn graphql_payload(g: GraphQLBodyView) -> Seq<char> {
    seq!['{'] + (match g.query {
        Some(q) => "\"query\":"@ + json_string_lit(q),
        None => Seq::empty(),
    }) + (if g.query is Some && g.variables is Some {
        seq![',']
    } else {
        Seq::empty()
    }) + (match g.variables {
        Some(v) => "\"variables\":"@ + (match json_normalized(v) {
            Some(c) => c,
            None => json_string_lit(v),
        }),
        None => Seq::empty(),
    }) + seq!['}']
}

/// What the body builder produces for each input. An absent mode counts as
/// `raw`; a mode with an absent sub-payload, the `file` mode and unknown
/// modes give no body.
pub open spec fn body_spec(body: Option<BodyView>) -> Option<Seq<char>> {
    match body {
        None => None,
        Some(b) => {
            let mode = match b.mode {
                Some(m) => m,
                None => "raw"@,
            };
            if mode == "raw"@ {
                b.raw
            } else if mode == "urlencoded"@ {
                match b.urlencoded {
                    Some(items) => Some(form_pairs(items)),
                    None => None,
                }
            } else if mode == "formdata"@ {
                match b.formdata {
                    Some(items) => Some(form_pairs(items)),
                    None => None,
                }
            } else if mode == "graphql"@ {
                match b.graphql {
                    Some(g) => Some(graphql_payload(g)),
                    None => None,
                }
            } else {
                None
            }
        },
    }
}

/// Renders a form item list as URL-encoded pairs joined by `&`.
fn encode_form_items(items: &Vec<crate::models::request::FormData>) -> (r: String)
    ensures
        r@ == form_pairs(items.deep_view()),
{
    let mut out = String::new();
    let mut i: usize = 0;
    while i < items.len()
        invariant
            0 <= i <= items.len(),
            out@ == form_pairs(items.deep_view().take(i as int)),
        decreases items.len() - i,
    {
        let it = &items[i];
        let skip = match it.disabled {
            Some(d) => d,
            None => false,
        };
        if !skip {
            if let Some(v) = &it.value {
                if !out.as_str().is_empty() {
                    push_char(&mut out, '&');
                }
                let ek = url_encode(it.key.as_str());
                out.append(ek.as_str());
                push_char(&mut out, '=');
                let ev = url_encode(v.as_str());
                out.append(ev.as_str());
            }
        }
        proof {
            let dv = items.deep_view();
            assert(dv.take(i + 1).drop_last() =~= dv.take(i as int));
            assert(dv.take(i + 1).last() == dv[i as int]);
            assert(out@ =~= form_pairs(dv.take(i + 1)));
        }
        i += 1;
    }
    proof {
        assert(items.deep_view().take(items.len() as int) =~= items.deep_view());
    }
    out
}

/// Builds the optional payload string from an optional body model.
pub fn build_body_from_struct(body: Option<&Body>) -> (r: Result<Option<String>, BuildError>)
    ensures
        r matches Ok(o) && o.deep_view() == body_spec(body.deep_view()),
{
    let b = match body {
        Some(b) => b,
        None => {
            return Ok(None);
        },
    };
    let mode: &str = match &b.mode {
        Some(m) => m.as_str(),
        None => "raw",
    };
    if str_eq(mode, "raw") {
        match &b.raw {
            Some(raw) => Ok(Some(raw.clone())),
            None => Ok(None),
        }
    } else if str_eq(mode, "urlencoded") {
        match &b.urlencoded {
            Some(items) => Ok(Some(encode_form_items(items))),
            None => Ok(None),
        }
    } else if str_eq(mode, "formdata") {
        match &b.formdata {
            Some(items) => Ok(Some(encode_form_items(items))),
            None => Ok(None),
        }
    } else if str_eq(mode, "graphql") {
        match &b.graphql {
            Some(g) => {
                let mut out = String::new();
                push_char(&mut out, '{');
                if let Some(q) = &g.query {
                    out.append("\"query\":");
                    let lit = json_quote(q.as_str());
                    out.append(lit.as_str());
                }
                if let Some(v) = &g.variables {
                    if g.query.is_some() {
                        push_char(&mut out, ',');
                    }
                    out.append("\"variables\":");
                    match json_reserialize(v.as_str()) {
                        Some(c) => out.append(c.as_str()),
                        None => {
                            let lit = json_quote(v.as_str());
                            out.append(lit.as_str());
                        },
                    }
                }
                push_char(&mut out, '}');
                proof {
                    assert(out@ =~= graphql_payload(g@));
                }
                Ok(Some(out))
            },
            None => Ok(None),
        }
    } else {
        Ok(None)
    }
}

/// A disabled form item never contributes to the encoded payload: it can be
/// inserted anywhere without changing the output.
pub proof fn lemma_disabled_form_item_ignored(items: Seq<FormDataView>, i: int, it: FormDataView)
    requires
        0 <= i <= items.len(),
        it.disabled == Some(true),
    ensures
        form_pairs(items.insert(i, it)) == form_pairs(items),
    decreases items.len(),
{
    let ext = items.insert(i, it);
    if i == items.len() {
        assert(ext.drop_last() =~= items);
        assert(ext.last() == it);
    } else {
        assert(ext.drop_last() =~= items.drop_last().insert(i, it));
        assert(ext.last() == items.last());
        lemma_disabled_form_item_ignored(items.drop_last(), i, it);
    }
}

} // verus!
