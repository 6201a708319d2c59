//! Cookies for the browser that renders a page.

use vstd::prelude::*;

verus! {

/// The `SameSite` cookie attribute.
///
/// `Strict` keeps the cookie out of every cross-site request and `Lax` lets
/// it travel with safe methods only. `NoRestriction`, which the attribute
/// itself writes as `None`, lets it travel with all of them where the
/// cookie is also marked secure.
#[derive(Debug, Clone, Copy, PartialEq, Eq, Structural)]
pub enum SameSite {
    Strict,
    Lax,
    NoRestriction,
}

/// Cookie to send to the end server.
#[derive(Debug, Clone, PartialEq, Eq)]
pub struct Cookie {
    /// Cookie name.
    pub name: String,
    /// Cookie value.
    pub value: String,
    /// Cookie domain.
    pub domain: String,
    /// Cookie path.
    pub path: Option<String>,
    /// Set the cookie to secure if true.
    pub secure: Option<bool>,
    /// Set the cookie as HTTP-only if true.
    pub http_only: Option<bool>,
    /// The [`SameSite`] cookie attribute.
    pub same_site: Option<SameSite>,
}

/// The mathematical content of a [`Cookie`].
pub struct CookieView {
    pub name: Seq<char>,
    pub value: Seq<char>,
    pub domain: Seq<char>,
    pub path: Option<Seq<char>>,
    pub secure: Option<bool>,
    pub http_only: Option<bool>,
    pub same_site: Option<SameSite>,
}

impl View for Cookie {
    type V = CookieView;

    open spec fn view(&self) -> CookieView {
        CookieView {
            name: self.name@,
            value: self.value@,
            domain: self.domain@,
            path: match self.path {
                Some(p) => Some(p@),
                None => None,
            },
            secure: self.secure,
            http_only: self.http_only,
            same_site: self.same_site,
        }
    }
}

impl Default for Cookie {
    /// A cookie with an empty name, an empty value and an empty domain, and
    /// nothing else set.
    fn default() -> (r: Self)
        ensures
            r@ == (CookieView {
                name: Seq::empty(),
                value: Seq::empty(),
                domain: Seq::empty(),
                path: None,
                secure: None,
                http_only: None,
                same_site: None,
            }),
    {
        Cookie {
            name: String::new(),
            value: String::new(),
            domain: String::new(),
            path: None,
            secure: None,
            http_only: None,
            same_site: None,
        }
    }
}

impl Cookie {
    /// A cookie with the given name, value and domain, and nothing else
    /// set.
    pub fn new(name: &str, value: &str, domain: &str) -> (r: Self)
        ensures
            r@ == (CookieView {
                name: name@,
                value: value@,
                domain: domain@,
                path: None,
                secure: None,
                http_only: None,
                same_site: None,
            }),
    {
        Cookie {
            name: name.to_owned(),
            value: value.to_owned(),
            domain: domain.to_owned(),
            path: None,
            secure: None,
            http_only: None,
            same_site: None,
        }
    }
}

} // verus!
