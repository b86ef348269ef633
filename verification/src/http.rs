use vstd::prelude::*;

verus! {

/// An HTTP protocol version.
#[derive(Clone, Copy, Debug, PartialEq, Eq, Structural)]
pub enum Version {
    Http09,
    Http10,
    Http11,
    Http2,
    Http3,
}

impl Version {
    /// The customary rendering of the version.
    pub fn as_str(&self) -> (r: &'static str)
        ensures
            r@ == self.name_spec(),
    {
        match self {
            Version::Http09 => "HTTP/0.9",
            Version::Http10 => "HTTP/1.0",
            Version::Http11 => "HTTP/1.1",
            Version::Http2 => "HTTP/2.0",
            Version::Http3 => "HTTP/3.0",
        }
    }

    /// What `as_str` returns, per variant.
    pub open spec fn name_spec(&self) -> Seq<char> {
        match self {
            Version::Http09 => "HTTP/0.9"@,
            Version::Http10 => "HTTP/1.0"@,
            Version::Http11 => "HTTP/1.1"@,
            Version::Http2 => "HTTP/2.0"@,
            Version::Http3 => "HTTP/3.0"@,
        }
    }
}

/// An HTTP request method.
#[derive(Clone, Copy, Debug, PartialEq, Eq, Structural)]
pub enum Method {
    Get,
    Head,
    Post,
    Put,
    Delete,
    Options,
    Trace,
    Patch,
}

impl Method {
    /// The method's wire name.
    pub fn as_str(&self) -> (r: &'static str)
        ensures
            r@ == self.name_spec(),
    {
        match self {
            Method::Get => "GET",
            Method::Head => "HEAD",
            Method::Post => "POST",
            Method::Put => "PUT",
            Method::Delete => "DELETE",
            Method::Options => "OPTIONS",
            Method::Trace => "TRACE",
            Method::Patch => "PATCH",
        }
    }

    /// What `as_str` returns, per variant.
    pub open spec fn name_spec(&self) -> Seq<char> {
        match self {
            Method::Get => "GET"@,
            Method::Head => "HEAD"@,
            Method::Post => "POST"@,
            Method::Put => "PUT"@,
            Method::Delete => "DELETE"@,
            Method::Options => "OPTIONS"@,
            Method::Trace => "TRACE"@,
            Method::Patch => "PATCH"@,
        }
    }
}

/// An HTTP status code: an integer between 100 and 999.
#[derive(Clone, Copy, Debug, PartialEq, Eq, Structural)]
pub struct StatusCode {
    code: u16,
}

impl StatusCode {
    /// The numeric code.
    pub closed spec fn spec_code(&self) -> u16 {
        self.code
    }

    /// Status codes are three digits.
    pub open spec fn well_formed(&self) -> bool {
        100 <= self.spec_code() <= 999
    }

    /// Build a status code; values outside the three-digit range are
    /// rejected.
    pub fn from_u16(code: u16) -> (r: Option<StatusCode>)
        ensures
            match r {
                Some(s) => 100 <= code <= 999 && s.spec_code() == code && s.well_formed(),
                None => !(100 <= code <= 999),
            },
    {
        if 100 <= code && code <= 999 {
            Some(StatusCode { code })
        } else {
            None
        }
    }

    /// The status code as an integer.
    pub fn as_int(&self) -> (r: u16)
        ensures
            r == self.spec_code(),
    {
        self.code
    }

    /// Whether the status is within 100-199.
    pub fn is_informational(&self) -> (r: bool)
        ensures
            r == (100 <= self.spec_code() <= 199),
    {
        100 <= self.code && self.code <= 199
    }

    /// Whether the status is within 200-299.
    pub fn is_success(&self) -> (r: bool)
        ensures
            r == (200 <= self.spec_code() <= 299),
    {
        200 <= self.code && self.code <= 299
    }

    /// Whether the status is within 300-399.
    pub fn is_redirection(&self) -> (r: bool)
        ensures
            r == (300 <= self.spec_code() <= 399),
    {
        300 <= self.code && self.code <= 399
    }

    /// Whether the status is within 400-499.
    pub fn is_client_error(&self) -> (r: bool)
        ensures
            r == (400 <= self.spec_code() <= 499),
    {
        400 <= self.code && self.code <= 499
    }

    /// Whether the status is within 500-599.
    pub fn is_server_error(&self) -> (r: bool)
        ensures
            r == (500 <= self.spec_code() <= 599),
    {
        500 <= self.code && self.code <= 599
    }
}

} // verus!
