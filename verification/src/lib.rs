//! Edge-gateway routing core: a device registry, command and event routing,
//! a driver capability contract, and cross-protocol command translation.

pub mod bridge;
pub mod command;
pub mod device;
pub mod driver;
pub mod error;
pub mod http;
pub mod router;
mod text;
