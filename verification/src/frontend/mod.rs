//! The web front end: the API client's decisions and the project page's
//! state machine.
pub mod api_client;
pub mod model;
