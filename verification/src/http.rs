//! A plain-value model of the HTTP traffic the middleware sees: requests with
//! method, path, query and cookies; responses with a status, an optional
//! `Location` header and a list of `Set-Cookie` directives. The embedding
//! web server converts between these and its own types.

use vstd::prelude::*;
use crate::bytes::{bytes_eq, clone_bytes};

verus! {

/// The request method, as far as the middleware distinguishes it.
#[derive(Clone, Copy, Debug, PartialEq, Eq, Structural)]
pub enum Method {
    Get,
    Head,
    Post,
    Put,
    Delete,
    Patch,
    Other,
}

/// One cookie as the browser sends it: a name and a value.
#[derive(Clone, Debug)]
pub struct Cookie {
    pub name: Vec<u8>,
    pub value: Vec<u8>,
}

/// One `Set-Cookie` directive of a response. Every cookie the middleware sets
/// is scoped to path `/`. `expire_now` marks a clearing directive: the
/// browser drops the cookie instead of storing it.
#[derive(Clone, Debug)]
pub struct SetCookie {
    pub name: Vec<u8>,
    pub value: Vec<u8>,
    pub http_only: bool,
    pub same_site_strict: bool,
    pub secure: bool,
    pub expire_now: bool,
}

/// An inbound request, reduced to what the middleware reads.
#[derive(Debug)]
pub struct Request {
    pub method: Method,
    pub path: Vec<u8>,
    pub query: Vec<u8>,
    pub cookies: Vec<Cookie>,
    pub secure: bool,
}

/// An outbound response, reduced to what the middleware writes.
#[derive(Debug)]
pub struct Response {
    pub status: u16,
    pub location: Option<Vec<u8>>,
    pub cookies: Vec<SetCookie>,
}

/// The value of the first cookie named `name`, if any.
pub open spec fn cookie_in(cookies: Seq<Cookie>, name: Seq<u8>) -> Option<Seq<u8>>
    decreases cookies.len(),
{
    if cookies.len() == 0 {
        None
    } else if cookies[0].name@ == name {
        Some(cookies[0].value@)
    } else {
        cookie_in(cookies.skip(1), name)
    }
}

impl Request {
    /// The value of the request cookie named `name`, if any.
    pub fn cookie(&self, name: &Vec<u8>) -> (r: Option<Vec<u8>>)
        ensures
            match r {
                Some(v) => cookie_in(self.cookies@, name@) == Some(v@),
                None => cookie_in(self.cookies@, name@) is None,
            },
    {
        let mut i: usize = 0;
        assert(self.cookies@.skip(0) =~= self.cookies@);
        while i < self.cookies.len()
            invariant
                i <= self.cookies@.len(),
                cookie_in(self.cookies@, name@) == cookie_in(self.cookies@.skip(i as int), name@),
            decreases self.cookies@.len() - i,
        {
            assert(self.cookies@.skip(i as int)[0] == self.cookies@[i as int]);
            assert(self.cookies@.skip(i as int).skip(1) =~= self.cookies@.skip(i as int + 1));
            if bytes_eq(&self.cookies[i].name, name) {
                return Some(clone_bytes(&self.cookies[i].value));
            }
            i += 1;
        }
        None
    }
}

/// `jar` with every cookie named `name` removed.
pub open spec fn remove_cookie(jar: Seq<Cookie>, name: Seq<u8>) -> Seq<Cookie>
    decreases jar.len(),
{
    if jar.len() == 0 {
        jar
    } else if jar[0].name@ == name {
        remove_cookie(jar.skip(1), name)
    } else {
        seq![jar[0]] + remove_cookie(jar.skip(1), name)
    }
}

/// The browser's cookie jar after honouring one `Set-Cookie` directive:
/// existing cookies of that name are replaced, and a clearing directive
/// stores nothing.
pub open spec fn jar_after_one(jar: Seq<Cookie>, op: SetCookie) -> Seq<Cookie> {
    let cleaned = remove_cookie(jar, op.name@);
    if op.expire_now {
        cleaned
    } else {
        cleaned + seq![Cookie { name: op.name, value: op.value }]
    }
}

/// The browser's cookie jar after honouring a response's directives in order.
pub open spec fn jar_after(jar: Seq<Cookie>, ops: Seq<SetCookie>) -> Seq<Cookie>
    decreases ops.len(),
{
    if ops.len() == 0 {
        jar
    } else {
        jar_after(jar_after_one(jar, ops[0]), ops.skip(1))
    }
}

/// No cookie named `name` survives its own removal.
pub proof fn lemma_remove_cookie_gone(jar: Seq<Cookie>, name: Seq<u8>)
    ensures
        cookie_in(remove_cookie(jar, name), name) is None,
    decreases jar.len(),
{
    if jar.len() != 0 {
        lemma_remove_cookie_gone(jar.skip(1), name);
        if jar[0].name@ != name {
            assert((seq![jar[0]] + remove_cookie(jar.skip(1), name)).skip(1)
                =~= remove_cookie(jar.skip(1), name));
        }
    }
}

} // verus!
