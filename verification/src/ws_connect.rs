//! Which endpoints a connection attempt tries.

use vstd::prelude::*;
use vstd::string::*;
use crate::error::CatcherError;
use crate::ws_config::WsClientConfig;

verus! {

/// The endpoints of a connection attempt.
#[derive(Debug)]
pub enum EndpointPlan {
    /// Race the configured endpoints, `width` of them at once.
    Race { width: u32 },
    /// Connect to this single endpoint.
    Single(String),
}

/// Several endpoints, or a race wider than one, make a race.
pub open spec fn races(c: WsClientConfig) -> bool {
    c.urls@.len() > 1 || c.race_count > 1
}

/// `r` is the error of a configuration without endpoints.
pub open spec fn is_no_urls_error(e: CatcherError) -> bool {
    e matches CatcherError::InvalidConfig(m) && m@ == "no WS URLs configured"@
}

/// The first connection: a configuration without endpoints is refused;
/// otherwise several endpoints or a race count above one race `race_count`
/// endpoints, and a single endpoint is used directly.
pub fn initial_endpoints(config: &WsClientConfig) -> (r: Result<EndpointPlan, CatcherError>)
    ensures
        config.urls@.len() == 0 ==> (r matches Err(e) && is_no_urls_error(e)),
        config.urls@.len() > 0 && races(*config) ==> (r matches Ok(EndpointPlan::Race { width }) && width == config.race_count),
        config.urls@.len() > 0 && !races(*config) ==> (r matches Ok(EndpointPlan::Single(u)) && u@ == config.urls@[0]@),
{
    if config.urls.len() == 0 {
        return Err(CatcherError::InvalidConfig(String::from_str("no WS URLs configured")));
    }
    if config.urls.len() > 1 || config.race_count > 1 {
        Ok(EndpointPlan::Race { width: config.race_count })
    } else {
        Ok(EndpointPlan::Single(config.urls[0].clone()))
    }
}

/// The number of endpoints, as the racer counts them.
pub open spec fn url_count(c: WsClientConfig) -> u32 {
    c.urls@.len() as u32
}

/// A reconnection after a network change: every endpoint gets a chance, so
/// the race is at least as wide as the endpoint list (the best endpoint of
/// the old network may be gone); a single endpoint is used directly.
pub fn reconnect_endpoints(config: &WsClientConfig) -> (r: Result<EndpointPlan, CatcherError>)
    ensures
        races(*config) ==> (r matches Ok(EndpointPlan::Race { width })
            && width == (if url_count(*config) > config.race_count { url_count(*config) } else { config.race_count })),
        !races(*config) && config.urls@.len() == 0 ==> (r matches Err(e) && is_no_urls_error(e)),
        !races(*config) && config.urls@.len() > 0 ==> (r matches Ok(EndpointPlan::Single(u)) && u@ == config.urls@[0]@),
{
    if config.urls.len() > 1 || config.race_count > 1 {
        #[verifier::truncate]
        let count: u32 = config.urls.len() as u32;
        let width = if count > config.race_count { count } else { config.race_count };
        Ok(EndpointPlan::Race { width })
    } else if config.urls.len() == 0 {
        Err(CatcherError::InvalidConfig(String::from_str("no WS URLs configured")))
    } else {
        Ok(EndpointPlan::Single(config.urls[0].clone()))
    }
}

} // verus!
