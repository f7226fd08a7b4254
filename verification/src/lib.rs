//! Client-side logic for the Heatzy heater cloud API.
//!
//! The crate describes every request the API understands and interprets every
//! answer, without performing any network traffic itself: a caller sends the
//! [`Request`] it is handed and reports back what the server said.

pub mod client;
pub mod error;
pub mod json;
pub mod models;
pub mod request;
pub mod status;
pub mod text;

pub use client::Client;
pub use error::HeatzyError;
pub use models::{AuthResponse, Device, DeviceMode, LoginCredentials, ModeValue};
pub use request::{Request, Verdict};
pub use status::HttpStatus;
