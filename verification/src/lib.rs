//! Session authentication, role authorization and the decision logic of the
//! transactional writers of a multi-tenant sports-club backend.
//!
//! Every function here works on plain values. Whatever talks to the store or
//! to the network lives with the caller, which performs the actions that the
//! functions of this crate decide on and hands the outcomes back.

pub mod api;
pub mod auth_routes;
pub mod club;
pub mod game;
pub mod game_invite;
pub mod ids;
pub mod initial_setup;
pub mod middlewares;
pub mod org;
pub mod roles;
pub mod service_invite;
pub mod session;
pub mod team;
pub mod user;
