//! A small user service: the identifier format, the user records, and the
//! decisions each HTTP handler makes around its single storage call.
pub mod ident;
pub mod models;
pub mod handlers;
pub mod telemetry;

