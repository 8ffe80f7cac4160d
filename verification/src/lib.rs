//! Translation of a game's positional, comma-separated player statistics into
//! a structured player record, together with the failure taxonomy and the
//! service description of the proxy that republishes them.

use vstd::prelude::*;

pub mod catalog;
pub mod cors;
pub mod error;
pub mod hiscore;
pub mod parse;
pub mod position;

verus! {

/// The request methods that the service answers.
#[derive(Clone, Copy, Debug, PartialEq, Eq)]
pub enum Method {
    Get,
}

/// The one route of the service.
#[derive(Clone, Copy, Debug, PartialEq, Eq)]
pub struct Route {
    /// The method the route answers.
    pub method: Method,
    /// Where the route is mounted.
    pub base: &'static str,
    /// The path below `base`; the segment in angle brackets is the player's
    /// name, taken as it comes.
    pub path: &'static str,
}

/// What the server is made of.
#[derive(Clone, Copy, Debug, PartialEq, Eq)]
pub struct Launch {
    pub cors: cors::Cors,
    pub route: Route,
}

/// Describes the server: the cross-origin component attached to every
/// response, and the hiscore route mounted at the root.
pub fn rocket() -> (launch: Launch)
    ensures
        launch == (Launch {
            cors: cors::Cors,
            route: Route { method: Method::Get, base: "/", path: "/hiscore/<player_name>" },
        }),
{
    Launch { cors: cors::Cors, route: Route { method: Method::Get, base: "/", path: "/hiscore/<player_name>" } }
}

} // verus!
