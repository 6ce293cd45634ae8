//! The options of one invocation, as the command-line front end hands them over.
use vstd::prelude::*;

verus! {

/// The HTTP methods the client can send.
#[derive(Clone, Copy, Debug, PartialEq, Eq, Structural)]
pub enum RequestMethod {
    Get,
    Post,
    Put,
    Delete,
}

impl RequestMethod {
    /// The verb that goes on the wire.
    pub open spec fn verb(self) -> Seq<char> {
        match self {
            RequestMethod::Get => "GET"@,
            RequestMethod::Post => "POST"@,
            RequestMethod::Put => "PUT"@,
            RequestMethod::Delete => "DELETE"@,
        }
    }

    /// The verb that goes on the wire, one for each method.
    pub fn as_str(&self) -> (r: &'static str)
        ensures
            r@ == self.verb(),
    {
        match self {
            RequestMethod::Get => "GET",
            RequestMethod::Post => "POST",
            RequestMethod::Put => "PUT",
            RequestMethod::Delete => "DELETE",
        }
    }
}

/// Everything one invocation asks for. Built once, read only afterwards.
pub struct Options {
    pub method: RequestMethod,
    pub url: String,
    /// `None` stands for the default user agent.
    pub user_agent: Option<String>,
    pub follow_redirects: bool,
    pub disable_ssl_verification: bool,
    pub cookie: Option<String>,
    pub bearer_token: Option<String>,
    /// Raw `Name: Value` tokens, in the order given.
    pub headers: Vec<String>,
    /// A file to upload as a multipart form.
    pub form_file: Option<String>,
    /// A raw request body.
    pub data: Option<String>,
    /// A file to write the response to; `None` is standard output.
    pub output: Option<String>,
    pub include_headers: bool,
    pub head: bool,
    pub silent: bool,
    pub verbose: bool,
}

impl Options {
    /// Options for a plain `GET` of `url`, every flag off.
    pub fn new(url: String) -> (r: Options)
        ensures
            r.method == RequestMethod::Get,
            r.url@ == url@,
            r.user_agent is None,
            !r.follow_redirects,
            !r.disable_ssl_verification,
            r.cookie is None,
            r.bearer_token is None,
            r.headers@.len() == 0,
            r.form_file is None,
            r.data is None,
            r.output is None,
            !r.include_headers,
            !r.head,
            !r.silent,
            !r.verbose,
    {
        Options {
            method: RequestMethod::Get,
            url,
            user_agent: None,
            follow_redirects: false,
            disable_ssl_verification: false,
            cookie: None,
            bearer_token: None,
            headers: Vec::new(),
            form_file: None,
            data: None,
            output: None,
            include_headers: false,
            head: false,
            silent: false,
            verbose: false,
        }
    }
}

} // verus!
