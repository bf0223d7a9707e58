//! The request model: method, URL parts, headers, body and auth descriptor.

use vstd::prelude::*;
use crate::models::variable::{Variable, VariableView};

verus! {

/// A target URL, either a raw string or structured parts. A non-empty `raw`
/// always wins over the structured parts.
#[derive(Debug, Clone, PartialEq)]
pub struct Url {
    pub raw: Option<String>,
    pub protocol: Option<String>,
    pub host: Option<Vec<String>>,
    pub path: Option<Vec<String>>,
    pub query: Option<Vec<QueryParam>>,
    pub variable: Option<Vec<Variable>>,
}

/// The mathematical shape of a [`Url`].
pub ghost struct UrlView {
    pub raw: Option<Seq<char>>,
    pub protocol: Option<Seq<char>>,
    pub host: Option<Seq<Seq<char>>>,
    pub path: Option<Seq<Seq<char>>>,
    pub query: Option<Seq<QueryParamView>>,
    pub variable: Option<Seq<VariableView>>,
}

impl View for Url {
    type V = UrlView;

    open spec fn view(&self) -> UrlView {
        UrlView {
            raw: self.raw.deep_view(),
            protocol: self.protocol.deep_view(),
            host: self.host.deep_view(),
            path: self.path.deep_view(),
            query: self.query.deep_view(),
            variable: self.variable.deep_view(),
        }
    }
}

impl DeepView for Url {
    type V = UrlView;

    open spec fn deep_view(&self) -> UrlView {
        self.view()
    }
}

/// One query-string parameter.
#[derive(Debug, Clone, PartialEq)]
pub struct QueryParam {
    pub key: String,
    pub value: Option<String>,
    pub disabled: Option<bool>,
    pub description: Option<String>,
}

/// The mathematical shape of a [`QueryParam`].
pub ghost struct QueryParamView {
    pub key: Seq<char>,
    pub value: Option<Seq<char>>,
    pub disabled: Option<bool>,
    pub description: Option<Seq<char>>,
}

impl View for QueryParam {
    type V = QueryParamView;

    open spec fn view(&self) -> QueryParamView {
        QueryParamView {
            key: self.key@,
            value: self.value.deep_view(),
            disabled: self.disabled,
            description: self.description.deep_view(),
        }
    }
}

impl DeepView for QueryParam {
    type V = QueryParamView;

    open spec fn deep_view(&self) -> QueryParamView {
        self.view()
    }
}

/// One request header; disabled headers are omitted from the outbound call.
#[derive(Debug, Clone, PartialEq)]
pub struct Header {
    pub key: String,
    pub value: String,
    pub disabled: Option<bool>,
    pub description: Option<String>,
}

/// The mathematical shape of a [`Header`].
pub ghost struct HeaderView {
    pub key: Seq<char>,
    pub value: Seq<char>,
    pub disabled: Option<bool>,
    pub description: Option<Seq<char>>,
}

impl View for Header {
    type V = HeaderView;

    open spec fn view(&self) -> HeaderView {
        HeaderView {
            key: self.key@,
            value: self.value@,
            disabled: self.disabled,
            description: self.description.deep_view(),
        }
    }
}

impl DeepView for Header {
    type V = HeaderView;

    open spec fn deep_view(&self) -> HeaderView {
        self.view()
    }
}

/// The request payload; the mode tag selects which sub-payload is read.
#[derive(Debug, Clone, PartialEq)]
pub struct Body {
    pub mode: Option<String>,
    pub raw: Option<String>,
    pub urlencoded: Option<Vec<FormData>>,
    pub formdata: Option<Vec<FormData>>,
    pub file: Option<FileBody>,
    pub graphql: Option<GraphQLBody>,
}

/// The mathematical shape of a [`Body`].
pub ghost struct BodyView {
    pub mode: Option<Seq<char>>,
    pub raw: Option<Seq<char>>,
    pub urlencoded: Option<Seq<FormDataView>>,
    pub formdata: Option<Seq<FormDataView>>,
    pub file: Option<FileBodyView>,
    pub graphql: Option<GraphQLBodyView>,
}

impl View for Body {
    type V = BodyView;

    open spec fn view(&self) -> BodyView {
        BodyView {
            mode: self.mode.deep_view(),
            raw: self.raw.deep_view(),
            urlencoded: self.urlencoded.deep_view(),
            formdata: self.formdata.deep_view(),
            file: self.file.deep_view(),
            graphql: self.graphql.deep_view(),
        }
    }
}

impl DeepView for Body {
    type V = BodyView;

    open spec fn deep_view(&self) -> BodyView {
        self.view()
    }
}

/// One item of an URL-encoded or form-data payload.
#[derive(Debug, Clone, PartialEq)]
pub struct FormData {
    pub key: String,
    pub value: Option<String>,
    pub data_type: Option<String>,
    pub disabled: Option<bool>,
    pub description: Option<String>,
}

/// The mathematical shape of a [`FormData`] item.
pub ghost struct FormDataView {
    pub key: Seq<char>,
    pub value: Option<Seq<char>>,
    pub data_type: Option<Seq<char>>,
    pub disabled: Option<bool>,
    pub description: Option<Seq<char>>,
}

impl View for FormData {
    type V = FormDataView;

    open spec fn view(&self) -> FormDataView {
        FormDataView {
            key: self.key@,
            value: self.value.deep_view(),
            data_type: self.data_type.deep_view(),
            disabled: self.disabled,
            description: self.description.deep_view(),
        }
    }
}

impl DeepView for FormData {
    type V = FormDataView;

    open spec fn deep_view(&self) -> FormDataView {
        self.view()
    }
}

/// A file payload reference; only a placeholder, never encoded.
#[derive(Debug, Clone, PartialEq)]
pub struct FileBody {
    pub src: Option<String>,
}

/// The mathematical shape of a [`FileBody`].
pub ghost struct FileBodyView {
    pub src: Option<Seq<char>>,
}

impl View for FileBody {
    type V = FileBodyView;

    open spec fn view(&self) -> FileBodyView {
        FileBodyView { src: self.src.deep_view() }
    }
}

impl DeepView for FileBody {
    type V = FileBodyView;

    open spec fn deep_view(&self) -> FileBodyView {
        self.view()
    }
}

/// A GraphQL payload: a query and a variables document, both optional.
#[derive(Debug, Clone, PartialEq)]
pub struct GraphQLBody {
    pub query: Option<String>,
    pub variables: Option<String>,
}

/// The mathematical shape of a [`GraphQLBody`].
pub ghost struct GraphQLBodyView {
    pub query: Option<Seq<char>>,
    pub variables: Option<Seq<char>>,
}

impl View for GraphQLBody {
    type V = GraphQLBodyView;

    open spec fn view(&self) -> GraphQLBodyView {
        GraphQLBodyView { query: self.query.deep_view(), variables: self.variables.deep_view() }
    }
}

impl DeepView for GraphQLBody {
    type V = GraphQLBodyView;

    open spec fn deep_view(&self) -> GraphQLBodyView {
        self.view()
    }
}

/// The auth descriptor: a type tag and one variable list per scheme. Only
/// `bearer` and `basic` are applied; the other schemes are inert placeholders.
/// The `noauth` slot carries an arbitrary JSON value at the boundary; it is
/// held here as raw JSON text and never read.
#[derive(Debug, Clone, PartialEq)]
pub struct Auth {
    pub auth_type: Option<String>,
    pub bearer: Option<Vec<Variable>>,
    pub basic: Option<Vec<Variable>>,
    pub digest: Option<Vec<Variable>>,
    pub awsv4: Option<Vec<Variable>>,
    pub hawk: Option<Vec<Variable>>,
    pub noauth: Option<String>,
    pub oauth1: Option<Vec<Variable>>,
    pub oauth2: Option<Vec<Variable>>,
    pub ntlm: Option<Vec<Variable>>,
}

/// The mathematical shape of an [`Auth`] descriptor.
pub ghost struct AuthView {
    pub auth_type: Option<Seq<char>>,
    pub bearer: Option<Seq<VariableView>>,
    pub basic: Option<Seq<VariableView>>,
    pub digest: Option<Seq<VariableView>>,
    pub awsv4: Option<Seq<VariableView>>,
    pub hawk: Option<Seq<VariableView>>,
    pub noauth: Option<Seq<char>>,
    pub oauth1: Option<Seq<VariableView>>,
    pub oauth2: Option<Seq<VariableView>>,
    pub ntlm: Option<Seq<VariableView>>,
}

impl View for Auth {
    type V = AuthView;

    open spec fn view(&self) -> AuthView {
        AuthView {
            auth_type: self.auth_type.deep_view(),
            bearer: self.bearer.deep_view(),
            basic: self.basic.deep_view(),
            digest: self.digest.deep_view(),
            awsv4: self.awsv4.deep_view(),
            hawk: self.hawk.deep_view(),
            noauth: self.noauth.deep_view(),
            oauth1: self.oauth1.deep_view(),
            oauth2: self.oauth2.deep_view(),
            ntlm: self.ntlm.deep_view(),
        }
    }
}

impl DeepView for Auth {
    type V = AuthView;

    open spec fn deep_view(&self) -> AuthView {
        self.view()
    }
}

/// A script hook attached to a request or collection item.
#[derive(Debug, Clone, PartialEq)]
pub struct Event {
    pub listen: Option<String>,
    pub script: Option<Script>,
}

/// The script carried by an [`Event`].
#[derive(Debug, Clone, PartialEq)]
pub struct Script {
    pub script_type: Option<String>,
    pub exec_lines: Option<Vec<String>>,
    pub src: Option<Url>,
}

/// One request: everything the construction pipeline reads.
#[derive(Debug, Clone, PartialEq)]
pub struct Request {
    pub method: Option<String>,
    pub header: Option<Vec<Header>>,
    pub body: Option<Body>,
    pub url: Option<Url>,
    pub description: Option<String>,
    pub auth: Option<Auth>,
}

/// The mathematical shape of a [`Request`].
pub ghost struct RequestView {
    pub method: Option<Seq<char>>,
    pub header: Option<Seq<HeaderView>>,
    pub body: Option<BodyView>,
    pub url: Option<UrlView>,
    pub description: Option<Seq<char>>,
    pub auth: Option<AuthView>,
}

impl View for Request {
    type V = RequestView;

    open spec fn view(&self) -> RequestView {
        RequestView {
            method: self.method.deep_view(),
            header: self.header.deep_view(),
            body: self.body.deep_view(),
            url: self.url.deep_view(),
            description: self.description.deep_view(),
            auth: self.auth.deep_view(),
        }
    }
}

impl DeepView for Request {
    type V = RequestView;

    open spec fn deep_view(&self) -> RequestView {
        self.view()
    }
}

} // verus!
