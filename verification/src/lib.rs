//! Client side of the Deezer authorization flow: the link on which a user
//! grants access, the code that comes back with the redirect, and the exchange
//! of that code for an access token, with the state of the flow held in one
//! session value.

pub mod text;
pub mod auth;
