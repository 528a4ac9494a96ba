//! The redirect decision for one HTTP request.
//!
//! Given the request's `Host` header and path, the dispatcher resolves the
//! host against the configuration store and answers either with a redirect
//! — status from the rule's redirect type, target built from the rule's
//! path policy — or with a client error: a missing header and an unknown
//! host both yield a 400-class answer with a descriptive body, never a
//! crash.

use vstd::prelude::*;
use vstd::string::StringExecFns;

use crate::config::{
    fresh_view, get_host_config, spec_host_lookup, spec_step, ConfigStore, HostLookupError,
    SpecLookupError,
};
use crate::models::{Config, PathPolicy, RedirectType, SpecRedirect};

verus! {

/// What the server answers: a redirect, or a client error with a plain
/// text body.
#[derive(Debug)]
pub enum HttpAnswer {
    Redirect { status: u16, location: String },
    BadRequest { body: String },
}

/// Mathematical image of an answer.
pub enum SpecAnswer {
    Redirect { status: u16, location: Seq<char> },
    BadRequest { body: Seq<char> },
}

impl View for HttpAnswer {
    type V = SpecAnswer;

    open spec fn view(&self) -> SpecAnswer {
        match self {
            HttpAnswer::Redirect { status, location } => SpecAnswer::Redirect {
                status: *status,
                location: location@,
            },
            HttpAnswer::BadRequest { body } => SpecAnswer::BadRequest { body: body@ },
        }
    }
}

/// The status a rule's redirect type answers with; a rule that names none
/// redirects temporarily.
pub open spec fn spec_redirect_status(t: Option<RedirectType>) -> u16 {
    match t {
        Some(RedirectType::Permanent) => 308,
        _ => 307,
    }
}

/// The redirect target a rule builds for a request path: `Keep` appends
/// the original path to the target, otherwise the bare target is used.
pub open spec fn spec_location(rule: SpecRedirect, request_path: Seq<char>) -> Seq<char> {
    match rule.path {
        Some(PathPolicy::Keep) => rule.target + request_path,
        _ => rule.target,
    }
}

/// The answer for a request that carried a host: the rule's redirect on a
/// hit, a 400 with a descriptive body when no rule claims the host or no
/// configuration could be produced.
pub open spec fn spec_dispatch(
    lookup: Result<SpecRedirect, SpecLookupError>,
    request_path: Seq<char>,
) -> SpecAnswer {
    match lookup {
        Ok(rule) => SpecAnswer::Redirect {
            status: spec_redirect_status(rule.redirect_type),
            location: spec_location(rule, request_path),
        },
        Err(_) => SpecAnswer::BadRequest { body: "No configuration found"@ },
    }
}

/// Decide the answer for one request. `host` is the request's `Host`
/// header if it carried one, `request_path` its path; the store is read
/// (and possibly refreshed, see [`ConfigStore::get_config`]) only when a
/// host is present.
pub fn handle_request(
    store: &mut ConfigStore,
    host: Option<String>,
    request_path: &String,
    now_ms: u64,
    fresh: Option<Result<Config, String>>,
) -> (a: HttpAnswer)
    ensures
        host is None ==> *final(store) == *old(store) && a@ == (SpecAnswer::BadRequest {
            body: "Missing host header"@,
        }),
        host matches Some(h) ==> ({
            let step = spec_step(old(store)@, now_ms, fresh_view(fresh));
            final(store)@ == step.0 && a@ == spec_dispatch(
                spec_host_lookup(step.1, h@),
                request_path@,
            )
        }),
{
    let h = match host {
        None => {
            return HttpAnswer::BadRequest { body: String::from_str("Missing host header") };
        },
        Some(h) => h,
    };
    match get_host_config(store, &h, now_ms, fresh) {
        Err(_) => HttpAnswer::BadRequest { body: String::from_str("No configuration found") },
        Ok(rule) => {
            let status: u16 = match rule.redirect_type {
                Some(RedirectType::Permanent) => 308,
                _ => 307,
            };
            let location = match rule.path {
                Some(PathPolicy::Keep) => rule.target.concat(request_path.as_str()),
                _ => rule.target,
            };
            HttpAnswer::Redirect { status, location }
        },
    }
}

} // verus!
