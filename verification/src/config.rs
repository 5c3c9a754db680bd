//! The process-lifetime configuration: the downstream target every request
//! is forwarded to, and the optional via-proxy all outbound traffic is
//! relayed through. Built once at startup, read-only afterwards.

use vstd::prelude::*;
use crate::uri::{TargetUri, is_valid_target, parse_target, scheme_sep};

verus! {

/// The immutable configuration shared by every request handler.
pub struct Config {
    /// The scheme-and-authority every inbound request is redirected to.
    pub downstream: TargetUri,
    /// The upstream proxy to relay through, when one was configured and its
    /// address parsed; `None` means every request is sent directly.
    pub via_proxy: Option<TargetUri>,
}

impl Config {
    /// Every target held by the configuration is well-formed.
    pub open spec fn wf(&self) -> bool {
        &&& self.downstream.wf()
        &&& match self.via_proxy {
            Some(v) => v.wf(),
            None => true,
        }
    }
}

/// The one startup-fatal condition: a downstream target that does not parse.
#[derive(Debug)]
pub enum ConfigError {
    MalformedDownstreamTarget,
}

/// Whether a via-proxy argument yields a via-proxy entry: only a present,
/// well-formed address does; a malformed one is dropped and forwarding
/// falls back to direct sends.
pub open spec fn via_accepted(via: Option<&str>) -> bool {
    match via {
        Some(v) => is_valid_target(v@),
        None => false,
    }
}

/// Build the configuration from the externally supplied addresses.
///
/// Fails exactly when the downstream target is malformed: serving must not
/// start then. A malformed via-proxy address is not fatal; the configuration
/// is built without a via-proxy and every request goes out directly.
pub fn build_config(to: &str, via: Option<&str>) -> (r: Result<Config, ConfigError>)
    ensures
        r is Ok <==> is_valid_target(to@),
        match r {
            Ok(c) => {
                &&& c.wf()
                &&& to@ == c.downstream.scheme@ + scheme_sep() + c.downstream.authority@
                &&& c.via_proxy is Some <==> via_accepted(via)
                &&& match (via, c.via_proxy) {
                    (Some(v), Some(p)) => v@ == p.scheme@ + scheme_sep() + p.authority@,
                    _ => true,
                }
            },
            Err(_) => !is_valid_target(to@),
        },
{
    let downstream = match parse_target(to) {
        Ok(t) => t,
        Err(_) => {
            return Err(ConfigError::MalformedDownstreamTarget);
        },
    };
    let via_proxy = match via {
        Some(v) => match parse_target(v) {
            Ok(p) => Some(p),
            Err(_) => None,
        },
        None => None,
    };
    Ok(Config { downstream, via_proxy })
}

} // verus!
