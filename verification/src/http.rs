//! What the service tells the HTTP layer to send: a status code, cookies to
//! set or to remove, and a text body.

use crate::settings::SameSite;
use vstd::prelude::*;

verus! {

pub const STATUS_OK: u16 = 200;

pub const STATUS_BAD_REQUEST: u16 = 400;

pub const STATUS_UNAUTHORIZED: u16 = 401;

pub const STATUS_INTERNAL_SERVER_ERROR: u16 = 500;

/// A cookie instruction for the client.
#[derive(Debug)]
pub enum Cookie {
    /// Store a value under a name, with the given attributes and no expiry
    /// (the cookie lives as long as the browser session).
    Store {
        name: String,
        value: String,
        path: String,
        secure: bool,
        http_only: bool,
        same_site: SameSite,
    },
    /// Forget the cookie of this name: empty value, immediate expiry.
    Removal { name: String },
}

/// A cookie instruction with its texts as character sequences.
pub enum CookieView {
    Store {
        name: Seq<char>,
        value: Seq<char>,
        path: Seq<char>,
        secure: bool,
        http_only: bool,
        same_site: SameSite,
    },
    Removal { name: Seq<char> },
}

impl View for Cookie {
    type V = CookieView;

    open spec fn view(&self) -> CookieView {
        match self {
            Cookie::Store { name, value, path, secure, http_only, same_site } => CookieView::Store {
                name: name@,
                value: value@,
                path: path@,
                secure: *secure,
                http_only: *http_only,
                same_site: *same_site,
            },
            Cookie::Removal { name } => CookieView::Removal { name: name@ },
        }
    }
}

impl Clone for Cookie {
    fn clone(&self) -> (copy: Self)
        ensures
            copy@ == self@,
    {
        match self {
            Cookie::Store { name, value, path, secure, http_only, same_site } => Cookie::Store {
                name: name.clone(),
                value: value.clone(),
                path: path.clone(),
                secure: *secure,
                http_only: *http_only,
                same_site: *same_site,
            },
            Cookie::Removal { name } => Cookie::Removal { name: name.clone() },
        }
    }
}

/// The views of a list of cookies, in order.
pub open spec fn cookie_views(cookies: Seq<Cookie>) -> Seq<CookieView> {
    cookies.map_values(|cookie: Cookie| cookie@)
}

/// A response for the HTTP layer to send.
#[derive(Debug)]
pub struct HttpResponse {
    pub status: u16,
    pub cookies: Vec<Cookie>,
    pub body: String,
}

/// A response with its cookies and body as mathematical values.
pub struct HttpResponseView {
    pub status: u16,
    pub cookies: Seq<CookieView>,
    pub body: Seq<char>,
}

impl View for HttpResponse {
    type V = HttpResponseView;

    open spec fn view(&self) -> HttpResponseView {
        HttpResponseView {
            status: self.status,
            cookies: cookie_views(self.cookies@),
            body: self.body@,
        }
    }
}

impl HttpResponse {
    /// A response with the given status, no cookies and an empty body.
    pub fn with_status(status: u16) -> (response: Self)
        ensures
            response@ == (HttpResponseView {
                status,
                cookies: Seq::<CookieView>::empty(),
                body: Seq::<char>::empty(),
            }),
    {
        let response = HttpResponse { status, cookies: Vec::new(), body: String::new() };
        assert(cookie_views(response.cookies@) =~= Seq::<CookieView>::empty());
        response
    }

    /// A response with the given status and body, and no cookies.
    pub fn with_body(status: u16, body: String) -> (response: Self)
        ensures
            response@ == (HttpResponseView {
                status,
                cookies: Seq::<CookieView>::empty(),
                body: body@,
            }),
    {
        let response = HttpResponse { status, cookies: Vec::new(), body };
        assert(cookie_views(response.cookies@) =~= Seq::<CookieView>::empty());
        response
    }

    /// Adds one cookie instruction after those already there.
    pub fn add_cookie(&mut self, cookie: Cookie)
        ensures
            final(self)@ == (HttpResponseView {
                cookies: old(self)@.cookies.push(cookie@),
                ..old(self)@
            }),
    {
        self.cookies.push(cookie);
        assert(cookie_views(self.cookies@) =~= cookie_views(old(self).cookies@).push(cookie@));
    }
}

} // verus!
