//! The client of the service: where it is, how it authenticates, which
//! request each stateless operation sends and how an answer's status is
//! read. Sending is left to the caller.

pub mod contents;
pub mod error;
pub mod json;
pub mod kernel;
pub mod params;
pub mod text;
pub mod types;

use vstd::prelude::*;
use vstd::string::*;
use crate::client::error::JupyterApiError;
use crate::client::kernel::channels_url;
use crate::client::kernel::KernelApiClient;
use crate::client::text::decimal;
use crate::client::text::decimal_text;
use crate::client::text::ends_with;
use crate::client::text::same_text;
use crate::client::text::begins_in_either_case;
use crate::client::text::starts_with_either_case;
use crate::client::text::without_first;
use crate::client::text::without_last;
use crate::client::types::ContentType;
use crate::client::types::Kernel;

verus! {

/// The scheme of the absolute URL that `input` is, in lower case, or `None`
/// where `input` is no absolute URL.
pub uninterp spec fn url_scheme(input: Seq<char>) -> Option<Seq<char>>;

/// Parses `input` with `url::Url::parse` and hands out the scheme of the
/// URL, from `Url::scheme`. The contract claims that the outcome is a
/// function of the text alone: the parser's error exactly where the text is
/// no absolute URL, and otherwise the scheme named by [`url_scheme`].
#[verifier::external_body]
pub(crate) fn parse_scheme(input: &str) -> (r: Result<String, url::ParseError>)
    ensures
        r matches Ok(scheme) ==> url_scheme(input@) == Some(scheme@),
        r is Err ==> url_scheme(input@) is None,
{
    match url::Url::parse(input) {
        Ok(url) => Ok(url.scheme().to_string()),
        Err(e) => Err(e),
    }
}

/// How a client authenticates.
#[derive(Debug, Clone, PartialEq)]
pub enum Credential {
    Token(String),
}

/// A client of the service at one base address.
#[derive(Debug)]
pub struct JupyterClient {
    base_url: String,
    credential: Option<Credential>,
}

/// The mathematical value of a [`JupyterClient`].
pub struct JupyterClientView {
    /// The base address, without a slash at its end.
    pub base_url: Seq<char>,
    /// The token to authenticate with, where there is one.
    pub token: Option<Seq<char>>,
}

/// The token of a credential.
pub open spec fn token_of(credential: Option<Credential>) -> Option<Seq<char>> {
    match credential {
        Some(Credential::Token(token)) => Some(token@),
        None => None,
    }
}

impl View for JupyterClient {
    type V = JupyterClientView;

    closed spec fn view(&self) -> JupyterClientView {
        JupyterClientView { base_url: self.base_url@, token: token_of(self.credential) }
    }
}

/// Why a base address is refused.
pub enum BaseUrlFault {
    /// It is no absolute URL.
    NotAUrl,
    /// Its scheme is neither `http` nor `https`.
    Scheme,
}

/// The base address that a client keeps of `base_url`: the text itself,
/// without the slash at its end where it has one.
pub open spec fn kept_base_url(base_url: Seq<char>) -> Result<Seq<char>, BaseUrlFault> {
    match url_scheme(base_url) {
        None => Err(BaseUrlFault::NotAUrl),
        Some(scheme) => if scheme != "http"@ && scheme != "https"@ {
            Err(BaseUrlFault::Scheme)
        } else if "/"@.is_suffix_of(base_url) {
            Ok(base_url.take(base_url.len() - 1))
        } else {
            Ok(base_url)
        },
    }
}

/// The host of a base address and whether it is reached securely: what
/// follows `https://`, or what follows `http://`, either of them in any mix
/// of upper and lower case. `None` where the address begins with neither.
pub open spec fn host_of(base_url: Seq<char>) -> Option<(Seq<char>, bool)> {
    if begins_in_either_case(base_url, "https://"@, "HTTPS://"@) {
        Some((base_url.skip(8), true))
    } else if begins_in_either_case(base_url, "http://"@, "HTTP://"@) {
        Some((base_url.skip(7), false))
    } else {
        None
    }
}

/// The value of the header that presents `token`.
pub open spec fn token_header(token: Seq<char>) -> Seq<char> {
    "token "@ + token
}

/// The method of a request.
#[derive(Debug, Clone, Copy, PartialEq, Eq, Structural)]
pub enum Method {
    Get,
    Post,
    Put,
    Delete,
}

/// A request to send: everything but its body.
#[derive(Debug, Clone, PartialEq)]
pub struct HttpRequest {
    pub method: Method,
    pub url: String,
    /// The value of the authorization header, where one is sent.
    pub authorization: Option<String>,
    /// The one query parameter, where one is sent.
    pub query: Option<(String, String)>,
}

/// The mathematical value of a [`HttpRequest`].
pub struct HttpRequestView {
    pub method: Method,
    pub url: Seq<char>,
    pub authorization: Option<Seq<char>>,
    pub query: Option<(Seq<char>, Seq<char>)>,
}

impl View for HttpRequest {
    type V = HttpRequestView;

    open spec fn view(&self) -> HttpRequestView {
        HttpRequestView {
            method: self.method,
            url: self.url@,
            authorization: match self.authorization {
                Some(value) => Some(value@),
                None => None,
            },
            query: match self.query {
                Some((name, value)) => Some((name@, value@)),
                None => None,
            },
        }
    }
}

/// The request that `client` sends to the address `path` below its base
/// address.
pub open spec fn request_to(
    client: JupyterClientView,
    method: Method,
    path: Seq<char>,
    query: Option<(Seq<char>, Seq<char>)>,
) -> HttpRequestView {
    HttpRequestView {
        method,
        url: client.base_url + path,
        authorization: match client.token {
            Some(token) => Some(token_header(token)),
            None => None,
        },
        query,
    }
}

impl Default for JupyterClient {
    /// The client of the service at `http://localhost:8888`, without a
    /// credential.
    fn default() -> (r: JupyterClient)
        ensures
            r@ == (JupyterClientView { base_url: "http://localhost:8888"@, token: None }),
    {
        JupyterClient { base_url: String::from_str("http://localhost:8888"), credential: None }
    }
}

impl JupyterClient {
    /// The client of the service at `base_url`, which is to be an absolute
    /// URL under `http` or `https`.
    pub fn new(base_url: &str, credential: Option<Credential>) -> (r: Result<Self, JupyterApiError>)
        ensures
            match kept_base_url(base_url@) {
                Ok(kept) => r matches Ok(client) && client@ == (JupyterClientView {
                    base_url: kept,
                    token: token_of(credential),
                }),
                Err(BaseUrlFault::NotAUrl) => r matches Err(JupyterApiError::UrlParseError(_)),
                Err(BaseUrlFault::Scheme) => r matches Err(
                    JupyterApiError::InvalidJupyterBaseUrlError(refused),
                ) && refused@ == base_url@,
            },
    {
        let scheme = match parse_scheme(base_url) {
            Ok(scheme) => scheme,
            Err(e) => {
                return Err(JupyterApiError::UrlParseError(e));
            },
        };
        if !same_text(scheme.as_str(), "http") && !same_text(scheme.as_str(), "https") {
            return Err(JupyterApiError::InvalidJupyterBaseUrlError(base_url.to_owned()));
        }
        let kept = if ends_with(base_url, "/") {
            proof {
                reveal_strlit("/");
            }
            without_last(base_url, 1)
        } else {
            base_url.to_owned()
        };
        Ok(Self { base_url: kept, credential })
    }

    /// The base address, without a slash at its end.
    pub fn base_url(&self) -> (r: &str)
        ensures
            r@ == self@.base_url,
    {
        self.base_url.as_str()
    }

    /// The client for executions on `kernel`. It fails where the base
    /// address begins with neither `https://` nor `http://`, in whatever
    /// case.
    pub fn new_kernel_client(&self, kernel: &Kernel) -> (r: Result<
        KernelApiClient,
        JupyterApiError,
    >)
        ensures
            match host_of(self@.base_url) {
                Some((host, secure)) => r matches Ok(client) && client@ == channels_url(
                    host,
                    kernel.id@,
                    secure,
                ),
                None => r matches Err(JupyterApiError::InvalidJupyterBaseUrlError(refused))
                    && refused@ == self@.base_url,
            },
    {
        proof {
            reveal_strlit("https://");
            reveal_strlit("http://");
        }
        if starts_with_either_case(self.base_url.as_str(), "https://", "HTTPS://") {
            let host = without_first(self.base_url.as_str(), 8);
            Ok(kernel.kernel_client(host.as_str(), true))
        } else if starts_with_either_case(self.base_url.as_str(), "http://", "HTTP://") {
            let host = without_first(self.base_url.as_str(), 7);
            Ok(kernel.kernel_client(host.as_str(), false))
        } else {
            Err(JupyterApiError::InvalidJupyterBaseUrlError(self.base_url.clone()))
        }
    }

    /// The value of the authorization header, where the client has a
    /// credential.
    pub fn authorization(&self) -> (r: Option<String>)
        ensures
            match self@.token {
                Some(token) => r matches Some(value) && value@ == token_header(token),
                None => r is None,
            },
    {
        match &self.credential {
            Some(Credential::Token(token)) => {
                let mut value = String::from_str("token ");
                value.append(token.as_str());
                Some(value)
            },
            None => None,
        }
    }

    /// The request to the address made of the base address, `stem` and
    /// `name`.
    fn request(
        &self,
        method: Method,
        stem: &str,
        name: &str,
        query: Option<(String, String)>,
    ) -> (r: HttpRequest)
        ensures
            r@ == request_to(
                self@,
                method,
                stem@ + name@,
                match query {
                    Some((n, v)) => Some((n@, v@)),
                    None => None,
                },
            ),
    {
        let mut url = self.base_url.clone();
        url.append(stem);
        url.append(name);
        assert(self.base_url@ + stem@ + name@ =~= self.base_url@ + (stem@ + name@));
        HttpRequest { method, url, authorization: self.authorization(), query }
    }

    /// `GET /api/contents`
    pub fn root_contents_request(&self) -> (r: HttpRequest)
        ensures
            r@ == request_to(self@, Method::Get, "/api/contents"@, None),
    {
        proof {
            reveal_strlit("");
        }
        assert("/api/contents"@ + ""@ =~= "/api/contents"@);
        self.request(Method::Get, "/api/contents", "", None)
    }

    /// `GET /api/contents/{path}`, with the type of content to ask for as
    /// the query parameter `type`.
    pub fn contents_request(&self, path: &str, content_type: Option<ContentType>) -> (r:
        HttpRequest)
        ensures
            r@ == request_to(
                self@,
                Method::Get,
                "/api/contents/"@ + path@,
                match content_type {
                    Some(t) => Some(("type"@, t.spec_as_str())),
                    None => None,
                },
            ),
    {
        let query = match content_type {
            Some(t) => Some((String::from_str("type"), String::from_str(t.as_str()))),
            None => None,
        };
        self.request(Method::Get, "/api/contents/", path, query)
    }

    /// `POST /api/contents/{path}`
    pub fn post_contents_request(&self, path: &str) -> (r: HttpRequest)
        ensures
            r@ == request_to(self@, Method::Post, "/api/contents/"@ + path@, None),
    {
        self.request(Method::Post, "/api/contents/", path, None)
    }

    /// `PUT /api/contents/{path}`
    pub fn put_contents_request(&self, path: &str) -> (r: HttpRequest)
        ensures
            r@ == request_to(self@, Method::Put, "/api/contents/"@ + path@, None),
    {
        self.request(Method::Put, "/api/contents/", path, None)
    }

    /// `POST /api/kernels`
    pub fn start_kernel_request(&self) -> (r: HttpRequest)
        ensures
            r@ == request_to(self@, Method::Post, "/api/kernels"@, None),
    {
        proof {
            reveal_strlit("");
        }
        assert("/api/kernels"@ + ""@ =~= "/api/kernels"@);
        self.request(Method::Post, "/api/kernels", "", None)
    }

    /// `POST /api/kernels/{kernel_id}/interrupt`
    pub fn interrupt_kernel_request(&self, kernel_id: &str) -> (r: HttpRequest)
        ensures
            r@ == request_to(
                self@,
                Method::Post,
                "/api/kernels/"@ + kernel_id@ + "/interrupt"@,
                None,
            ),
    {
        let mut name = String::from_str(kernel_id);
        name.append("/interrupt");
        assert("/api/kernels/"@ + (kernel_id@ + "/interrupt"@) =~= "/api/kernels/"@ + kernel_id@
            + "/interrupt"@);
        self.request(Method::Post, "/api/kernels/", name.as_str(), None)
    }

    /// `DELETE /api/kernels/{kernel_id}`
    pub fn delete_kernel_request(&self, kernel_id: &str) -> (r: HttpRequest)
        ensures
            r@ == request_to(self@, Method::Delete, "/api/kernels/"@ + kernel_id@, None),
    {
        self.request(Method::Delete, "/api/kernels/", kernel_id, None)
    }

    /// `GET /api/kernels`
    pub fn running_kernels_request(&self) -> (r: HttpRequest)
        ensures
            r@ == request_to(self@, Method::Get, "/api/kernels"@, None),
    {
        proof {
            reveal_strlit("");
        }
        assert("/api/kernels"@ + ""@ =~= "/api/kernels"@);
        self.request(Method::Get, "/api/kernels", "", None)
    }

    /// `GET /api/kernelspecs`
    pub fn kernel_specs_request(&self) -> (r: HttpRequest)
        ensures
            r@ == request_to(self@, Method::Get, "/api/kernelspecs"@, None),
    {
        proof {
            reveal_strlit("");
        }
        assert("/api/kernelspecs"@ + ""@ =~= "/api/kernelspecs"@);
        self.request(Method::Get, "/api/kernelspecs", "", None)
    }

    /// `GET /api/sessions`
    pub fn sessions_request(&self) -> (r: HttpRequest)
        ensures
            r@ == request_to(self@, Method::Get, "/api/sessions"@, None),
    {
        proof {
            reveal_strlit("");
        }
        assert("/api/sessions"@ + ""@ =~= "/api/sessions"@);
        self.request(Method::Get, "/api/sessions", "", None)
    }

    /// `GET /api/sessions/{session_id}`
    pub fn session_request(&self, session_id: &str) -> (r: HttpRequest)
        ensures
            r@ == request_to(self@, Method::Get, "/api/sessions/"@ + session_id@, None),
    {
        self.request(Method::Get, "/api/sessions/", session_id, None)
    }
}

/// What the status of an answer says.
#[derive(Debug, Clone, Copy, PartialEq, Eq, Structural)]
pub enum StatusClass {
    /// The answer carries what was asked for.
    Success,
    /// There is no such thing; this is no failure.
    NotFound,
    /// The request was refused as malformed.
    BadRequest,
    /// Any other failure.
    Failure,
}

/// What `status` says: success from 200 up to 299, and of the others 404
/// and 400 by themselves.
pub open spec fn class_of(status: u16) -> StatusClass {
    if 200 <= status < 300 {
        StatusClass::Success
    } else if status == 404 {
        StatusClass::NotFound
    } else if status == 400 {
        StatusClass::BadRequest
    } else {
        StatusClass::Failure
    }
}

/// Reads the status of an answer.
pub fn classify_status(status: u16) -> (r: StatusClass)
    ensures
        r == class_of(status),
{
    if 200 <= status && status < 300 {
        StatusClass::Success
    } else if status == 404 {
        StatusClass::NotFound
    } else if status == 400 {
        StatusClass::BadRequest
    } else {
        StatusClass::Failure
    }
}

/// The failure that an answer with `status` and the body `text` stands for:
/// a bad request with the body, or else an internal server error with the
/// status, a colon and the body.
pub fn status_error(status: u16, text: String) -> (e: JupyterApiError)
    ensures
        status == 400 ==> e == JupyterApiError::BadRequest(text),
        status != 400 ==> (e matches JupyterApiError::InternalServerError(detail) && detail@
            == decimal(status as nat) + ":"@ + text@),
{
    if status == 400 {
        JupyterApiError::BadRequest(text)
    } else {
        let mut detail = decimal_text(status);
        detail.append(":");
        detail.append(text.as_str());
        JupyterApiError::InternalServerError(detail)
    }
}

} // verus!
