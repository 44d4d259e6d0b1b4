//! A client for a remote authentication service: the requests it sends and the
//! lifecycle of the one session that a client holds.
pub mod api;
pub mod client;
pub mod model;
pub mod wire;

pub use api::{Api, Method, Request};
pub use client::{acknowledged, Client};
pub use model::{EmailOrPhone, Error, Session, TransportError, User, UserAttributes};
pub use wire::{is_valid_header_name, is_valid_header_value, json_object, json_opt_bool, json_string};
