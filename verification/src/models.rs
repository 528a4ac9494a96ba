//! Configuration data model: redirect rules, ports and TLS settings.
//!
//! A configuration snapshot is immutable once loaded; the store replaces it
//! wholesale on reload. Views map every type onto mathematical values so
//! that contracts can speak of whole snapshots at once.

use vstd::prelude::*;

verus! {

/// The views of a list of strings.
pub open spec fn vec_views(xs: Seq<String>) -> Seq<Seq<char>> {
    xs.map_values(|x: String| x@)
}

/// Whether a redirect answer is meant to be cached by the client.
#[derive(Debug, Clone, Copy, PartialEq, Eq, Structural)]
pub enum RedirectType {
    Temporary,
    Permanent,
}

/// What happens to the request path when the redirect target is built:
/// `Keep` appends the original request path to the target, `Remove` uses
/// the bare target.
#[derive(Debug, Clone, Copy, PartialEq, Eq, Structural)]
pub enum PathPolicy {
    Keep,
    Remove,
}

/// One redirect rule: any of `hosts` is sent to `target`.
#[derive(Debug)]
pub struct RedirectConfiguration {
    pub hosts: Vec<String>,
    pub target: String,
    pub redirect_type: Option<RedirectType>,
    pub path: Option<PathPolicy>,
}

/// Mathematical image of a redirect rule.
pub struct SpecRedirect {
    pub hosts: Seq<Seq<char>>,
    pub target: Seq<char>,
    pub redirect_type: Option<RedirectType>,
    pub path: Option<PathPolicy>,
}

impl View for RedirectConfiguration {
    type V = SpecRedirect;

    open spec fn view(&self) -> SpecRedirect {
        SpecRedirect {
            hosts: self.hosts.deep_view(),
            target: self.target@,
            redirect_type: self.redirect_type,
            path: self.path,
        }
    }
}

/// The two listening ports.
#[derive(Debug, Clone, Copy, PartialEq, Eq, Structural)]
pub struct PortConfiguration {
    pub http: u16,
    pub https: u16,
}

impl Default for PortConfiguration {
    /// The conventional defaults: plain HTTP on 80, HTTPS on 443.
    fn default() -> (r: Self)
        ensures
            r.http == 80,
            r.https == 443,
    {
        PortConfiguration { http: 80, https: 443 }
    }
}

/// TLS settings: the ACME contact address and the directory that holds the
/// account key and the issued certificates.
#[derive(Debug)]
pub struct TLSConfiguration {
    pub email: String,
    pub certs_path: String,
}

/// Mathematical image of the TLS settings.
pub struct SpecTls {
    pub email: Seq<char>,
    pub certs_path: Seq<char>,
}

impl View for TLSConfiguration {
    type V = SpecTls;

    open spec fn view(&self) -> SpecTls {
        SpecTls { email: self.email@, certs_path: self.certs_path@ }
    }
}

/// One whole configuration snapshot.
#[derive(Debug)]
pub struct Config {
    pub redirect: Vec<RedirectConfiguration>,
    pub ports: Option<PortConfiguration>,
    pub tls: Option<TLSConfiguration>,
}

/// Mathematical image of a configuration snapshot.
pub struct SpecConfig {
    pub redirect: Seq<SpecRedirect>,
    pub ports: Option<PortConfiguration>,
    pub tls: Option<SpecTls>,
}

impl View for Config {
    type V = SpecConfig;

    open spec fn view(&self) -> SpecConfig {
        SpecConfig {
            redirect: Seq::new(self.redirect@.len(), |i: int| self.redirect@[i]@),
            ports: self.ports,
            tls: match self.tls {
                Some(t) => Some(t@),
                None => None,
            },
        }
    }
}

impl Clone for RedirectConfiguration {
    /// A clone carries the same hosts, target and policies.
    fn clone(&self) -> (r: Self)
        ensures
            r@ == self@,
    {
        let hosts = self.hosts.clone();
        proof {
            assert(hosts.deep_view() =~= self.hosts.deep_view());
        }
        RedirectConfiguration {
            hosts,
            target: self.target.clone(),
            redirect_type: self.redirect_type,
            path: self.path,
        }
    }
}

impl Clone for TLSConfiguration {
    /// A clone carries the same contact address and certificate directory.
    fn clone(&self) -> (r: Self)
        ensures
            r@ == self@,
    {
        TLSConfiguration { email: self.email.clone(), certs_path: self.certs_path.clone() }
    }
}

impl Clone for Config {
    /// A clone is the same snapshot: every rule, port and TLS field carries
    /// over unchanged.
    fn clone(&self) -> (r: Self)
        ensures
            r@ == self@,
    {
        let redirect = self.redirect.clone();
        let tls = match &self.tls {
            Some(t) => Some(t.clone()),
            None => None,
        };
        let r = Config { redirect, ports: self.ports, tls };
        proof {
            assert(r@.redirect =~= self@.redirect);
        }
        r
    }
}

impl Config {
    /// The HTTP port of a snapshot, with the conventional default when the
    /// ports section is absent.
    pub open spec fn spec_http_port(self) -> u16 {
        match self.ports {
            Some(p) => p.http,
            None => 80,
        }
    }

    /// The HTTPS port of a snapshot, with the conventional default.
    pub open spec fn spec_https_port(self) -> u16 {
        match self.ports {
            Some(p) => p.https,
            None => 443,
        }
    }

    /// The HTTP port to listen on.
    pub fn http_port(&self) -> (r: u16)
        ensures
            r == self.spec_http_port(),
    {
        match self.ports {
            Some(p) => p.http,
            None => 80,
        }
    }

    /// The HTTPS port to listen on.
    pub fn https_port(&self) -> (r: u16)
        ensures
            r == self.spec_https_port(),
    {
        match self.ports {
            Some(p) => p.https,
            None => 443,
        }
    }
}

} // verus!
