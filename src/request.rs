//! The request builder: options in, a request descriptor and the transport's
//! configuration out.
use vstd::prelude::*;
use vstd::string::*;
use crate::headers::{Header, build_headers, headers_view, opt_view, request_headers, seq_view};
use crate::options::{Options, RequestMethod};

verus! {

/// The number of redirect hops that are followed when following is on.
pub const MAX_REDIRECTS: usize = 10;

/// The final component of a path, where it has one (none for `/`, `..`, or
/// the empty path).
pub uninterp spec fn file_name_of(path: Seq<char>) -> Option<Seq<char>>;

/// Relies on `std::path::Path::file_name`, read back through
/// `to_string_lossy` (lossless here, as the path came from a `str`): the
/// final component of the path, a function of the path's text.
#[verifier::external_body]
fn file_name(path: &str) -> (r: Option<String>)
    ensures
        opt_view(r) == file_name_of(path@),
{
    match std::path::Path::new(path).file_name() {
        Some(n) => Some(n.to_string_lossy().into_owned()),
        None => None,
    }
}

/// Why a request could not be built.
#[derive(Clone, Copy, Debug, PartialEq, Eq, Structural)]
pub enum RequestError {
    /// The upload path names no file (it ends in `..`, or is a root).
    UploadWithoutFileName,
}

/// Where the request's body comes from.
pub enum BodySource {
    Empty,
    /// The given text, sent as it is.
    Raw(String),
    /// The file at `path`, streamed as the single part `file` of a multipart
    /// form, under `file_name` and a generic binary content type.
    Upload { path: String, file_name: String },
}

/// The model of a body source.
pub enum BodyModel {
    Empty,
    Raw(Seq<char>),
    Upload(Seq<char>, Seq<char>),
}

impl View for BodySource {
    type V = BodyModel;

    open spec fn view(&self) -> BodyModel {
        match self {
            BodySource::Empty => BodyModel::Empty,
            BodySource::Raw(d) => BodyModel::Raw(d@),
            BodySource::Upload { path, file_name } => BodyModel::Upload(path@, file_name@),
        }
    }
}

/// The body that a form file and raw data give: the upload wins where both
/// are given, then the raw data, else no body.
pub open spec fn body_of(form_file: Option<Seq<char>>, data: Option<Seq<char>>) -> Result<
    BodyModel,
    RequestError,
> {
    match form_file {
        Some(p) => match file_name_of(p) {
            Some(n) => Ok(BodyModel::Upload(p, n)),
            None => Err(RequestError::UploadWithoutFileName),
        },
        None => match data {
            Some(d) => Ok(BodyModel::Raw(d)),
            None => Ok(BodyModel::Empty),
        },
    }
}

/// The view of a body selection.
pub open spec fn body_result_view(r: Result<BodySource, RequestError>) -> Result<
    BodyModel,
    RequestError,
> {
    match r {
        Ok(b) => Ok(b@),
        Err(e) => Err(e),
    }
}

/// Picks the one body the request carries.
pub fn select_body(form_file: &Option<String>, data: &Option<String>) -> (r: Result<
    BodySource,
    RequestError,
>)
    ensures
        body_result_view(r) == body_of(opt_view(*form_file), opt_view(*data)),
{
    match form_file {
        Some(p) => match file_name(p.as_str()) {
            Some(n) => Ok(BodySource::Upload { path: p.clone(), file_name: n }),
            None => Err(RequestError::UploadWithoutFileName),
        },
        None => match data {
            Some(d) => Ok(BodySource::Raw(d.clone())),
            None => Ok(BodySource::Empty),
        },
    }
}

/// What the transport does with redirects.
#[derive(Clone, Copy, Debug, PartialEq, Eq, Structural)]
pub enum RedirectPolicy {
    /// A redirect response is handed back as it is.
    Never,
    /// Up to this many hops are followed.
    Limited(usize),
}

/// How the transport is set up.
pub struct TransportConfig {
    pub user_agent: String,
    pub redirect: RedirectPolicy,
    /// Certificates are not checked: an explicit opt-out.
    pub accept_invalid_certs: bool,
}

/// The user agent sent where none is given.
pub open spec fn default_user_agent() -> Seq<char> {
    "RustHttpClient/0.1.0"@
}

/// The transport configuration that the options ask for.
pub fn transport_config(opts: &Options) -> (r: TransportConfig)
    ensures
        r.user_agent@ == match opts.user_agent {
            Some(a) => a@,
            None => default_user_agent(),
        },
        r.redirect == if opts.follow_redirects {
            RedirectPolicy::Limited(MAX_REDIRECTS)
        } else {
            RedirectPolicy::Never
        },
        r.accept_invalid_certs == opts.disable_ssl_verification,
{
    let user_agent = match &opts.user_agent {
        Some(a) => a.clone(),
        None => String::from_str("RustHttpClient/0.1.0"),
    };
    let redirect = if opts.follow_redirects {
        RedirectPolicy::Limited(MAX_REDIRECTS)
    } else {
        RedirectPolicy::Never
    };
    TransportConfig { user_agent, redirect, accept_invalid_certs: opts.disable_ssl_verification }
}

/// One fully specified outgoing request.
pub struct RequestDescriptor {
    pub method: RequestMethod,
    pub url: String,
    /// In order; a name may come more than once.
    pub headers: Vec<Header>,
    pub body: BodySource,
}

/// The request that the options describe.
pub fn build_request(opts: &Options) -> (r: Result<RequestDescriptor, RequestError>)
    ensures
        match body_of(opt_view(opts.form_file), opt_view(opts.data)) {
            Ok(b) => r matches Ok(d) && d.method == opts.method && d.url@ == opts.url@
                && d.body@ == b && headers_view(d.headers@) == request_headers(
                opt_view(opts.cookie),
                seq_view(opts.headers@),
                opt_view(opts.bearer_token),
            ),
            Err(e) => r == Err::<RequestDescriptor, RequestError>(e),
        },
{
    let headers = build_headers(&opts.cookie, &opts.headers, &opts.bearer_token);
    let body = match select_body(&opts.form_file, &opts.data) {
        Ok(b) => b,
        Err(e) => {
            return Err(e);
        },
    };
    Ok(RequestDescriptor { method: opts.method, url: opts.url.clone(), headers, body })
}

} // verus!
