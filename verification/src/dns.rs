//! The DNS-variant configuration source.
//!
//! Instead of a configuration file, a domain's redirect target can come
//! from its TXT records: records carrying the vendor marker prefix are
//! selected, and the first `goeie-redirect-to=<target>` record among
//! them names the target. The TXT query itself is plain I/O and stays
//! with the caller; the record filtering and parsing is decided here.

use vstd::prelude::*;
use vstd::string::StringExecFns;

use crate::models::{vec_views, RedirectConfiguration};

verus! {

/// The vendor marker every record of ours starts with.
pub open spec fn goeie_prefix() -> Seq<char> {
    "goeie-"@
}

/// The marker of the record that names the redirect target.
pub open spec fn target_prefix() -> Seq<char> {
    "goeie-redirect-to="@
}

/// Whether `s` starts with `p`.
pub open spec fn has_prefix(s: Seq<char>, p: Seq<char>) -> bool {
    p.len() <= s.len() && s.subrange(0, p.len() as int) == p
}

/// Whether the string starts with the given marker.
fn str_has_prefix(s: &String, p: &str) -> (b: bool)
    ensures
        b == has_prefix(s@, p@),
{
    let sl = s.as_str().unicode_len();
    let pl = p.unicode_len();
    if pl > sl {
        proof {
            assert(!has_prefix(s@, p@));
        }
        return false;
    }
    for i in 0..pl
        invariant
            pl == p@.len(),
            pl <= sl == s@.len(),
            forall|k: int| 0 <= k < i ==> s@[k] == p@[k],
    {
        if s.as_str().get_char(i) != p.get_char(i) {
            proof {
                assert(s@.subrange(0, pl as int)[i as int] == s@[i as int]);
                assert(!has_prefix(s@, p@));
            }
            return false;
        }
    }
    proof {
        assert(s@.subrange(0, pl as int) =~= p@);
    }
    true
}

/// The records carrying the vendor marker, in their original order.
pub open spec fn spec_goeie_records(records: Seq<Seq<char>>) -> Seq<Seq<char>>
    decreases records.len(),
{
    if records.len() == 0 {
        Seq::empty()
    } else {
        let rest = spec_goeie_records(records.drop_last());
        if has_prefix(records.last(), goeie_prefix()) {
            rest.push(records.last())
        } else {
            rest
        }
    }
}

/// Keep the TXT records that carry the vendor marker, in order.
pub fn get_goeie_records(records: Vec<String>) -> (r: Vec<String>)
    ensures
        vec_views(r@) == spec_goeie_records(vec_views(records@)),
{
    let mut r: Vec<String> = Vec::new();
    let n = records.len();
    for i in 0..n
        invariant
            n == records.len(),
            vec_views(r@) == spec_goeie_records(vec_views(records@).take(i as int)),
    {
        let ghost rv = vec_views(records@);
        let ghost prev = vec_views(r@);
        proof {
            assert(rv.take(i + 1).drop_last() =~= rv.take(i as int));
            assert(rv.take(i + 1).last() == rv[i as int]);
            assert(rv[i as int] == records@[i as int]@);
        }
        if str_has_prefix(&records[i], "goeie-") {
            r.push(records[i].clone());
            proof {
                assert(vec_views(r@) =~= prev.push(records@[i as int]@));
            }
        }
    }
    proof {
        assert(vec_views(records@).take(n as int) =~= vec_views(records@));
    }
    r
}

/// A redirect target could not be read from the records.
#[derive(Debug)]
pub enum DnsError {
    /// No record names a redirect target.
    NoRedirectTarget,
}

/// The target named by the first `goeie-redirect-to=` record, if any:
/// everything after the marker.
pub open spec fn spec_first_target(records: Seq<Seq<char>>) -> Option<Seq<char>>
    decreases records.len(),
{
    if records.len() == 0 {
        None
    } else if has_prefix(records[0], target_prefix()) {
        Some(records[0].subrange(target_prefix().len() as int, records[0].len() as int))
    } else {
        spec_first_target(records.drop_first())
    }
}

/// Parse the redirect rule out of a domain's TXT records: the first
/// record naming a target yields a rule that redirects to it (this
/// variant carries no host list and no policies); without one the
/// lookup fails.
pub fn get_redirect_config(records: Vec<String>) -> (r: Result<RedirectConfiguration, DnsError>)
    ensures
        match spec_first_target(vec_views(records@)) {
            Some(t) => r matches Ok(rc) && rc@.target == t && rc@.hosts.len() == 0
                && rc@.redirect_type is None && rc@.path is None,
            None => r matches Err(e) && e matches DnsError::NoRedirectTarget,
        },
{
    let ghost rv = vec_views(records@);
    proof {
        assert(rv.skip(0) =~= rv);
    }
    let n = records.len();
    for i in 0..n
        invariant
            n == records.len(),
            rv == vec_views(records@),
            spec_first_target(rv) == spec_first_target(rv.skip(i as int)),
    {
        proof {
            assert(rv.skip(i as int)[0] == rv[i as int]);
            assert(rv[i as int] == records@[i as int]@);
        }
        let rec = &records[i];
        let marker = "goeie-redirect-to=";
        if str_has_prefix(rec, marker) {
            let from = marker.unicode_len();
            let to = rec.as_str().unicode_len();
            let target_str = rec.as_str().substring_char(from, to);
            let target = String::from_str(target_str);
            return Ok(RedirectConfiguration {
                hosts: Vec::new(),
                target,
                redirect_type: None,
                path: None,
            });
        }
        proof {
            assert(!has_prefix(rv[i as int], target_prefix()));
            assert(rv.skip(i as int).drop_first() =~= rv.skip(i as int + 1));
        }
    }
    proof {
        assert(rv.skip(n as int).len() == 0);
    }
    Err(DnsError::NoRedirectTarget)
}

} // verus!
