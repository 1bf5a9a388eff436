//! The portal's answer to a request: serve it, or send the client to the
//! portal's own address.

use crate::address::PortalAddress;
use vstd::prelude::*;
use vstd::string::*;

verus! {

/// What becomes of a request once its `Host` header was looked at.
#[derive(Debug, PartialEq, Eq)]
pub enum HostCheck {
    /// The request is addressed to the portal and goes on to the routes.
    Forward,
    /// The request is answered at once with a temporary redirect to this
    /// location.
    TemporaryRedirect(String),
}

/// A portal that is ready to be served.
#[derive(Debug, PartialEq, Eq)]
pub struct Portal {
    /// The socket address to listen on.
    pub address: PortalAddress,
    /// The `Host` header of a request that is addressed to the portal.
    pub host: String,
}

/// The URL of the portal's landing page.
pub open spec fn portal_url(portal_addr: Seq<char>) -> Seq<char> {
    "http://"@ + portal_addr + "/"@
}

/// The path of the landing page.
pub fn landing_route() -> (route: &'static str)
    ensures
        route@ == "/"@,
{
    "/"
}

/// The body of the landing page.
pub fn landing_page() -> (page: &'static str)
    ensures
        page@ == "Hello, World!"@,
{
    "Hello, World!"
}

/// Checks the `Host` header of a request against the portal's `address:port`.
/// `host` is `None` where the request has no such header, or one that is no
/// text. Only a header that equals `portal_addr` letter for letter lets the
/// request through; every other request is redirected to the portal.
pub fn check_ip(host: Option<&str>, portal_addr: &str) -> (check: HostCheck)
    ensures
        match check {
            HostCheck::Forward => host is Some && host->0@ == portal_addr@,
            HostCheck::TemporaryRedirect(location) => {
                &&& !(host is Some && host->0@ == portal_addr@)
                &&& location@ == portal_url(portal_addr@)
            },
        },
{
    let matches = match host {
        Some(host) => host.to_owned() == portal_addr.to_owned(),
        None => false,
    };
    if matches {
        HostCheck::Forward
    } else {
        let mut location = "http://".to_owned();
        location.append(portal_addr);
        location.append("/");
        HostCheck::TemporaryRedirect(location)
    }
}

/// Prepares the portal for the given address: where it listens, and which
/// `Host` header it takes as its own.
pub fn start_portal(addr: &PortalAddress) -> (portal: Portal)
    ensures
        portal.address == *addr,
        portal.host@ == addr.text(),
{
    Portal { address: *addr, host: addr.to_text() }
}

impl Portal {
    /// Checks the `Host` header of a request against this portal.
    pub fn check(&self, host: Option<&str>) -> (check: HostCheck)
        ensures
            match check {
                HostCheck::Forward => host is Some && host->0@ == self.host@,
                HostCheck::TemporaryRedirect(location) => {
                    &&& !(host is Some && host->0@ == self.host@)
                    &&& location@ == portal_url(self.host@)
                },
            },
    {
        check_ip(host, self.host.as_str())
    }
}

} // verus!
