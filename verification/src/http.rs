//! Addressing and answer checking for the server's REST API.  The requests
//! themselves are made by the application.

use vstd::prelude::*;
use crate::paths::push_chars;
use crate::protocol::messages::Response;
use crate::text::{chars_to_string, chars_trim_end_char, str_chars, trim_end_char};

verus! {

/// Why a REST answer was not accepted.
#[derive(Debug, Clone, PartialEq, Eq)]
pub enum HttpError {
    /// The server reported a failure.
    Api { code: i32, message: String },
    /// The answer reported success but carried no data.
    MissingData,
}

/// Where and as whom REST requests are made.
pub struct HttpClient {
    base_url: String,
    token: String,
}

impl HttpClient {
    /// The base address, without trailing `/`.
    pub closed spec fn spec_base_url(&self) -> Seq<char> {
        self.base_url@
    }

    /// The authentication token.
    pub closed spec fn spec_token(&self) -> Seq<char> {
        self.token@
    }

    /// A client for the API at `base_url` (trailing `/` removed) using `token`.
    pub fn new(base_url: &str, token: &str) -> (c: Self)
        ensures
            c.spec_base_url() == trim_end_char(base_url@, '/'),
            c.spec_token() == token@,
    {
        let trimmed = chars_trim_end_char(&str_chars(base_url), '/');
        HttpClient { base_url: chars_to_string(&trimmed), token: String::from_str(token) }
    }

    /// The address of the endpoint `path`: the base address followed by `path`.
    pub fn build_url(&self, path: &str) -> (r: String)
        ensures
            r@ == self.spec_base_url() + path@,
    {
        let mut out = str_chars(self.base_url.as_str());
        let p = str_chars(path);
        push_chars(&mut out, &p);
        chars_to_string(&out)
    }

    /// The value of the `Authorization` header: `Bearer ` and the token.
    pub fn auth_header(&self) -> (r: String)
        ensures
            r@ == "Bearer "@ + self.spec_token(),
    {
        proof {
            reveal_strlit("Bearer ");
        }
        let mut out = str_chars("Bearer ");
        let t = str_chars(self.token.as_str());
        push_chars(&mut out, &t);
        chars_to_string(&out)
    }

    /// Checks an answer of the API: a failure when its status is off or its
    /// code is below 1, its data otherwise (missing data is an error too).
    pub fn check_response<T>(response: Response<T>) -> (r: Result<T, HttpError>)
        ensures
            (!response.status || response.code < 1) ==> r == Err::<T, HttpError>(
                HttpError::Api { code: response.code, message: response.message },
            ),
            (response.status && response.code >= 1) ==> r == match response.data {
                Some(d) => Ok::<T, HttpError>(d),
                None => Err(HttpError::MissingData),
            },
    {
        if !response.status || response.code < 1 {
            return Err(HttpError::Api { code: response.code, message: response.message });
        }
        match response.data {
            Some(d) => Ok(d),
            None => Err(HttpError::MissingData),
        }
    }
}

} // verus!
