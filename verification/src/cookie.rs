use vstd::prelude::*;

verus! {

/// The `SameSite` attribute of a cookie.
#[derive(Clone, Copy, Debug, PartialEq, Eq, Structural)]
pub enum SameSite {
    Strict,
    Lax,
    /// `SameSite=None`: the attribute is present and explicitly unset.
    Empty,
}

/// A single HTTP cookie: its name, value and attributes, as plain values.
///
/// Parsing the `Set-Cookie` wire form and expiry arithmetic belong to the
/// HTTP engine; this type carries what interpreter-visible code reads.
#[derive(Clone, Debug)]
pub struct Cookie {
    name: String,
    value: String,
    domain: Option<String>,
    path: Option<String>,
    max_age: Option<i64>,
    http_only: Option<bool>,
    secure: Option<bool>,
    same_site: Option<SameSite>,
}

impl Cookie {
    /// The cookie's name.
    pub closed spec fn spec_name(&self) -> Seq<char> {
        self.name@
    }

    /// The cookie's value.
    pub closed spec fn spec_value(&self) -> Seq<char> {
        self.value@
    }

    /// The domain attribute, if set.
    pub closed spec fn spec_domain(&self) -> Option<Seq<char>> {
        match self.domain {
            Some(d) => Some(d@),
            None => None,
        }
    }

    /// The path attribute, if set.
    pub closed spec fn spec_path(&self) -> Option<Seq<char>> {
        match self.path {
            Some(p) => Some(p@),
            None => None,
        }
    }

    /// The max-age attribute in whole seconds, if set.
    pub closed spec fn spec_max_age(&self) -> Option<i64> {
        self.max_age
    }

    /// The http-only attribute, if set.
    pub closed spec fn spec_http_only(&self) -> Option<bool> {
        self.http_only
    }

    /// The secure attribute, if set.
    pub closed spec fn spec_secure(&self) -> Option<bool> {
        self.secure
    }

    /// The same-site attribute, if set.
    pub closed spec fn spec_same_site(&self) -> Option<SameSite> {
        self.same_site
    }

    /// A cookie with the given name and value and no attributes.
    pub fn new(name: String, value: String) -> (c: Cookie)
        ensures
            c.spec_name() == name@,
            c.spec_value() == value@,
            c.spec_domain() is None,
            c.spec_path() is None,
            c.spec_max_age() is None,
            c.spec_http_only() is None,
            c.spec_secure() is None,
            c.spec_same_site() is None,
    {
        Cookie {
            name,
            value,
            domain: None,
            path: None,
            max_age: None,
            http_only: None,
            secure: None,
            same_site: None,
        }
    }

    /// Set the domain attribute.
    pub fn set_domain(&mut self, domain: String)
        ensures
            final(self).spec_domain() == Some(domain@),
            final(self).spec_name() == old(self).spec_name(),
            final(self).spec_value() == old(self).spec_value(),
            final(self).spec_path() == old(self).spec_path(),
            final(self).spec_max_age() == old(self).spec_max_age(),
            final(self).spec_http_only() == old(self).spec_http_only(),
            final(self).spec_secure() == old(self).spec_secure(),
            final(self).spec_same_site() == old(self).spec_same_site(),
    {
        self.domain = Some(domain);
    }

    /// Set the path attribute.
    pub fn set_path(&mut self, path: String)
        ensures
            final(self).spec_path() == Some(path@),
            final(self).spec_name() == old(self).spec_name(),
            final(self).spec_value() == old(self).spec_value(),
            final(self).spec_domain() == old(self).spec_domain(),
            final(self).spec_max_age() == old(self).spec_max_age(),
            final(self).spec_http_only() == old(self).spec_http_only(),
            final(self).spec_secure() == old(self).spec_secure(),
            final(self).spec_same_site() == old(self).spec_same_site(),
    {
        self.path = Some(path);
    }

    /// Set the max-age attribute, in whole seconds.
    pub fn set_max_age(&mut self, seconds: i64)
        ensures
            final(self).spec_max_age() == Some(seconds),
            final(self).spec_name() == old(self).spec_name(),
            final(self).spec_value() == old(self).spec_value(),
            final(self).spec_domain() == old(self).spec_domain(),
            final(self).spec_path() == old(self).spec_path(),
            final(self).spec_http_only() == old(self).spec_http_only(),
            final(self).spec_secure() == old(self).spec_secure(),
            final(self).spec_same_site() == old(self).spec_same_site(),
    {
        self.max_age = Some(seconds);
    }

    /// Set or clear the http-only attribute.
    pub fn set_http_only(&mut self, http_only: Option<bool>)
        ensures
            final(self).spec_http_only() == http_only,
            final(self).spec_name() == old(self).spec_name(),
            final(self).spec_value() == old(self).spec_value(),
            final(self).spec_domain() == old(self).spec_domain(),
            final(self).spec_path() == old(self).spec_path(),
            final(self).spec_max_age() == old(self).spec_max_age(),
            final(self).spec_secure() == old(self).spec_secure(),
            final(self).spec_same_site() == old(self).spec_same_site(),
    {
        self.http_only = http_only;
    }

    /// Set or clear the secure attribute.
    pub fn set_secure(&mut self, secure: Option<bool>)
        ensures
            final(self).spec_secure() == secure,
            final(self).spec_name() == old(self).spec_name(),
            final(self).spec_value() == old(self).spec_value(),
            final(self).spec_domain() == old(self).spec_domain(),
            final(self).spec_path() == old(self).spec_path(),
            final(self).spec_max_age() == old(self).spec_max_age(),
            final(self).spec_http_only() == old(self).spec_http_only(),
            final(self).spec_same_site() == old(self).spec_same_site(),
    {
        self.secure = secure;
    }

    /// Set the same-site attribute.
    pub fn set_same_site(&mut self, same_site: SameSite)
        ensures
            final(self).spec_same_site() == Some(same_site),
            final(self).spec_name() == old(self).spec_name(),
            final(self).spec_value() == old(self).spec_value(),
            final(self).spec_domain() == old(self).spec_domain(),
            final(self).spec_path() == old(self).spec_path(),
            final(self).spec_max_age() == old(self).spec_max_age(),
            final(self).spec_http_only() == old(self).spec_http_only(),
            final(self).spec_secure() == old(self).spec_secure(),
    {
        self.same_site = Some(same_site);
    }

    /// The name of the cookie.
    pub fn name(&self) -> (r: &str)
        ensures
            r@ == self.spec_name(),
    {
        self.name.as_str()
    }

    /// The value of the cookie.
    pub fn value(&self) -> (r: &str)
        ensures
            r@ == self.spec_value(),
    {
        self.value.as_str()
    }

    /// Whether the `HttpOnly` directive is enabled.
    pub fn http_only(&self) -> (r: bool)
        ensures
            r == (self.spec_http_only() == Some(true)),
    {
        match self.http_only {
            Some(b) => b,
            None => false,
        }
    }

    /// Whether the `Secure` directive is enabled.
    pub fn secure(&self) -> (r: bool)
        ensures
            r == (self.spec_secure() == Some(true)),
    {
        match self.secure {
            Some(b) => b,
            None => false,
        }
    }

    /// Whether the `SameSite` directive is `Lax`.
    pub fn same_site_lax(&self) -> (r: bool)
        ensures
            r == (self.spec_same_site() == Some(SameSite::Lax)),
    {
        match self.same_site {
            Some(SameSite::Lax) => true,
            _ => false,
        }
    }

    /// Whether the `SameSite` directive is `Strict`.
    pub fn same_site_strict(&self) -> (r: bool)
        ensures
            r == (self.spec_same_site() == Some(SameSite::Strict)),
    {
        match self.same_site {
            Some(SameSite::Strict) => true,
            _ => false,
        }
    }

    /// The path directive, if set.
    pub fn path(&self) -> (r: Option<&str>)
        ensures
            match r {
                Some(p) => self.spec_path() == Some(p@),
                None => self.spec_path() is None,
            },
    {
        match &self.path {
            Some(p) => Some(p.as_str()),
            None => None,
        }
    }

    /// The domain directive, if set.
    pub fn domain(&self) -> (r: Option<&str>)
        ensures
            match r {
                Some(d) => self.spec_domain() == Some(d@),
                None => self.spec_domain() is None,
            },
    {
        match &self.domain {
            Some(d) => Some(d.as_str()),
            None => None,
        }
    }

    /// The max-age directive in whole seconds, if set.
    pub fn max_age(&self) -> (r: Option<i64>)
        ensures
            r == self.spec_max_age(),
    {
        self.max_age
    }
}

} // verus!
