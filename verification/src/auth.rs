//! Injection of the `Authorization` header: Bearer tokens and Basic
//! credentials are applied; every other auth scheme is deliberately left
//! alone. Headers are only appended, never removed or overwritten.

use vstd::prelude::*;
use vstd::string::StringExecFns;
use crate::errors::BuildError;
use crate::models::request::{Auth, AuthView};
use crate::models::variable::VariableView;
use crate::strutil::{push_char, str_eq};

verus! {

/// What base64's standard-alphabet, padded encoding returns for the UTF-8
/// bytes of the given characters; the result depends on them alone.
pub uninterp spec fn base64_std(s: Seq<char>) -> Seq<char>;

/// Relies on base64's `Engine::encode` with the standard alphabet and
/// padding: the base64 text of the string's UTF-8 bytes. For any string that
/// fits in memory the computed output length fits in `usize`, so the call
/// does not panic.
#[verifier::external_body]
fn b64_encode(s: &str) -> (r: String)
    ensures
        r@ == base64_std(s@),
{
    base64::Engine::encode(&base64::engine::general_purpose::STANDARD, s.as_bytes())
}

/// Keys that designate the bearer token variable.
pub open spec fn is_token_key(k: Seq<char>) -> bool {
    k == "token"@ || k == "Token"@
}

/// Keys that designate the basic-auth username variable.
pub open spec fn is_username_key(k: Seq<char>) -> bool {
    k == "username"@ || k == "Username"@ || k == "user"@ || k == "User"@
}

/// Keys that designate the basic-auth password variable.
pub open spec fn is_password_key(k: Seq<char>) -> bool {
    k == "password"@ || k == "Password"@ || k == "pass"@ || k == "Pass"@
}

/// No key designates both the username and the password.
proof fn lemma_key_classes_disjoint(k: Seq<char>)
    ensures
        !(is_username_key(k) && is_password_key(k)),
{
    reveal_strlit("username");
    reveal_strlit("Username");
    reveal_strlit("user");
    reveal_strlit("User");
    reveal_strlit("password");
    reveal_strlit("Password");
    reveal_strlit("pass");
    reveal_strlit("Pass");
    assert("username"@[0] == 'u');
    assert("Username"@[0] == 'U');
    assert("user"@[0] == 'u');
    assert("User"@[0] == 'U');
    assert("password"@[0] == 'p');
    assert("Password"@[0] == 'P');
    assert("pass"@[0] == 'p');
    assert("Pass"@[0] == 'P');
}

/// The headers a bearer variable list yields: one `Authorization: Bearer`
/// header per token-keyed variable, in list order.
pub open spec fn bearer_headers(vars: Seq<VariableView>) -> Seq<(Seq<char>, Seq<char>)>
    decreases vars.len(),
{
    if vars.len() == 0 {
        Seq::empty()
    } else {
        bearer_headers(vars.drop_last()) + (if is_token_key(vars.last().key) {
            seq![("Authorization"@, "Bearer "@ + vars.last().value)]
        } else {
            Seq::<(Seq<char>, Seq<char>)>::empty()
        })
    }
}

/// The username a basic variable list selects: the value of the last
/// username-keyed variable, or empty.
pub open spec fn basic_username(vars: Seq<VariableView>) -> Seq<char>
    decreases vars.len(),
{
    if vars.len() == 0 {
        Seq::empty()
    } else if is_username_key(vars.last().key) {
        vars.last().value
    } else {
        basic_username(vars.drop_last())
    }
}

/// The password a basic variable list selects: the value of the last
/// password-keyed variable, or empty.
pub open spec fn basic_password(vars: Seq<VariableView>) -> Seq<char>
    decreases vars.len(),
{
    if vars.len() == 0 {
        Seq::empty()
    } else if is_password_key(vars.last().key) {
        vars.last().value
    } else {
        basic_password(vars.drop_last())
    }
}

/// The headers a basic variable list yields: one `Authorization: Basic`
/// header over `username:password`, unless both parts are empty.
pub open spec fn basic_headers(vars: Seq<VariableView>) -> Seq<(Seq<char>, Seq<char>)> {
    let u = basic_username(vars);
    let p = basic_password(vars);
    if u.len() > 0 || p.len() > 0 {
        seq![("Authorization"@, "Basic "@ + base64_std(u + seq![':'] + p))]
    } else {
        Seq::empty()
    }
}

/// The headers an auth descriptor appends. An absent type counts as
/// `noauth`; every type other than `bearer` and `basic` appends nothing.
pub open spec fn auth_headers(a: AuthView) -> Seq<(Seq<char>, Seq<char>)> {
    let t = match a.auth_type {
        Some(t) => t,
        None => "noauth"@,
    };
    if t == "bearer"@ {
        match a.bearer {
            Some(vars) => bearer_headers(vars),
            None => Seq::empty(),
        }
    } else if t == "basic"@ {
        match a.basic {
            Some(vars) => basic_headers(vars),
            None => Seq::empty(),
        }
    } else {
        Seq::empty()
    }
}

/// Appends the auth-derived headers to the header list; existing headers are
/// never touched.
pub fn apply_auth(auth: &Auth, headers: &mut Vec<(String, String)>) -> (r: Result<(), BuildError>)
    ensures
        r is Ok,
        final(headers).deep_view() == old(headers).deep_view() + auth_headers(auth@),
{
    let ghost orig = old(headers).deep_view();
    let auth_type: &str = match &auth.auth_type {
        Some(t) => t.as_str(),
        None => "noauth",
    };
    if str_eq(auth_type, "bearer") {
        if let Some(vars) = &auth.bearer {
            let mut i: usize = 0;
            while i < vars.len()
                invariant
                    0 <= i <= vars.len(),
                    headers.deep_view() == orig + bearer_headers(vars.deep_view().take(i as int)),
                decreases vars.len() - i,
            {
                let var = &vars[i];
                proof {
                    let dv = vars.deep_view();
                    assert(dv.take(i + 1).drop_last() =~= dv.take(i as int));
                    assert(dv.take(i + 1).last() == dv[i as int]);
                }
                if str_eq(var.key.as_str(), "token") || str_eq(var.key.as_str(), "Token") {
                    let ghost before = headers.deep_view();
                    let mut value = String::from_str("Bearer ");
                    value.append(var.value.as_str());
                    headers.push((String::from_str("Authorization"), value));
                    proof {
                        let dv = vars.deep_view();
                        assert(is_token_key(dv[i as int].key));
                        assert(headers.deep_view() =~= before + seq![
                            ("Authorization"@, "Bearer "@ + dv[i as int].value),
                        ]);
                        assert(headers.deep_view() =~= orig + bearer_headers(dv.take(i + 1)));
                    }
                } else {
                    proof {
                        let dv = vars.deep_view();
                        assert(!is_token_key(dv[i as int].key));
                        assert(headers.deep_view() =~= orig + bearer_headers(dv.take(i + 1)));
                    }
                }
                i += 1;
            }
            proof {
                assert(vars.deep_view().take(vars.len() as int) =~= vars.deep_view());
            }
        } else {
            proof {
                assert(headers.deep_view() =~~= orig + auth_headers(auth@));
            }
        }
    } else if str_eq(auth_type, "basic") {
        if let Some(vars) = &auth.basic {
            let mut username = String::new();
            let mut password = String::new();
            let mut i: usize = 0;
            while i < vars.len()
                invariant
                    0 <= i <= vars.len(),
                    username@ == basic_username(vars.deep_view().take(i as int)),
                    password@ == basic_password(vars.deep_view().take(i as int)),
                decreases vars.len() - i,
            {
                let var = &vars[i];
                let k = var.key.as_str();
                proof {
                    let dv = vars.deep_view();
                    assert(dv.take(i + 1).drop_last() =~= dv.take(i as int));
                    assert(dv.take(i + 1).last() == dv[i as int]);
                }
                if str_eq(k, "username") || str_eq(k, "Username") || str_eq(k, "user") || str_eq(
                    k,
                    "User",
                ) {
                    username = var.value.clone();
                    proof {
                        let dv = vars.deep_view();
                        assert(is_username_key(dv[i as int].key));
                        lemma_key_classes_disjoint(dv[i as int].key);
                    }
                } else if str_eq(k, "password") || str_eq(k, "Password") || str_eq(k, "pass")
                    || str_eq(k, "Pass") {
                    password = var.value.clone();
                    proof {
                        let dv = vars.deep_view();
                        assert(is_password_key(dv[i as int].key));
                        lemma_key_classes_disjoint(dv[i as int].key);
                    }
                } else {
                    proof {
                        let dv = vars.deep_view();
                        assert(!is_username_key(dv[i as int].key));
                        assert(!is_password_key(dv[i as int].key));
                    }
                }
                i += 1;
            }
            proof {
                assert(vars.deep_view().take(vars.len() as int) =~= vars.deep_view());
            }
            if !username.as_str().is_empty() || !password.as_str().is_empty() {
                let mut credentials = username;
                push_char(&mut credentials, ':');
                credentials.append(password.as_str());
                proof {
                    assert(credentials@ =~= basic_username(vars.deep_view()) + seq![':']
                        + basic_password(vars.deep_view()));
                }
                let mut value = String::from_str("Basic ");
                let encoded = b64_encode(credentials.as_str());
                value.append(encoded.as_str());
                headers.push((String::from_str("Authorization"), value));
            }
            proof {
                assert(headers.deep_view() =~~= orig + auth_headers(auth@));
            }
        } else {
            proof {
                assert(headers.deep_view() =~~= orig + auth_headers(auth@));
            }
        }
    } else {
        proof {
            assert(headers.deep_view() =~~= orig + auth_headers(auth@));
        }
    }
    proof {
        assert(headers.deep_view() =~~= orig + auth_headers(auth@));
    }
    Ok(())
}

/// A bearer descriptor whose list holds one token-keyed variable yields
/// exactly one `Authorization: Bearer` header carrying its value.
pub proof fn lemma_bearer_token(a: AuthView, v: VariableView)
    requires
        a.auth_type == Some("bearer"@),
        a.bearer == Some(seq![v]),
        is_token_key(v.key),
    ensures
        auth_headers(a) == seq![("Authorization"@, "Bearer "@ + v.value)],
{
    let vars = seq![v];
    assert(vars.drop_last() =~= Seq::<VariableView>::empty());
    assert(vars.last() == v);
    assert(bearer_headers(Seq::<VariableView>::empty()) =~~= Seq::<(Seq<char>, Seq<char>)>::empty());
    assert(bearer_headers(vars) =~~= seq![("Authorization"@, "Bearer "@ + v.value)]);
}

/// A bearer descriptor with no token-keyed variable yields no header at all.
pub proof fn lemma_bearer_no_match(a: AuthView)
    requires
        a.auth_type == Some("bearer"@),
        a.bearer is Some,
        forall|i: int| 0 <= i < a.bearer->0.len() ==> !is_token_key(a.bearer->0[i].key),
    ensures
        auth_headers(a) == Seq::<(Seq<char>, Seq<char>)>::empty(),
{
    lemma_bearer_headers_empty(a.bearer->0);
}

/// Helper for [`lemma_bearer_no_match`]: a list without token-keyed
/// variables produces no bearer headers.
proof fn lemma_bearer_headers_empty(vars: Seq<VariableView>)
    requires
        forall|i: int| 0 <= i < vars.len() ==> !is_token_key(vars[i].key),
    ensures
        bearer_headers(vars) == Seq::<(Seq<char>, Seq<char>)>::empty(),
    decreases vars.len(),
{
    if vars.len() > 0 {
        assert(!is_token_key(vars.last().key));
        assert(forall|i: int|
            0 <= i < vars.drop_last().len() ==> !is_token_key(vars.drop_last()[i].key));
        lemma_bearer_headers_empty(vars.drop_last());
        assert(bearer_headers(vars) =~~= Seq::<(Seq<char>, Seq<char>)>::empty());
    }
}

/// A basic descriptor holding a username-keyed and a password-keyed variable
/// with at least one non-empty value yields exactly one `Authorization:
/// Basic` header over base64 of `username:password`.
pub proof fn lemma_basic_credentials(a: AuthView, user: VariableView, pass: VariableView)
    requires
        a.auth_type == Some("basic"@),
        a.basic == Some(seq![user, pass]),
        is_username_key(user.key),
        is_password_key(pass.key),
        user.value.len() > 0 || pass.value.len() > 0,
    ensures
        auth_headers(a) == seq![
            ("Authorization"@, "Basic "@ + base64_std(user.value + seq![':'] + pass.value)),
        ],
{
    reveal_strlit("bearer");
    reveal_strlit("basic");
    assert("bearer"@.len() == 6);
    assert("basic"@.len() == 5);
    let vars = seq![user, pass];
    assert(vars.last() == pass);
    assert(vars.drop_last() =~= seq![user]);
    lemma_key_classes_disjoint(user.key);
    lemma_key_classes_disjoint(pass.key);
    let single = seq![user];
    assert(single.last() == user);
    assert(single.drop_last() =~= Seq::<VariableView>::empty());
    assert(basic_username(vars) == basic_username(single));
    assert(basic_username(single) == user.value);
    assert(basic_password(vars) == pass.value);
    assert(auth_headers(a) =~~= seq![
        ("Authorization"@, "Basic "@ + base64_std(user.value + seq![':'] + pass.value)),
    ]);
}

} // verus!
