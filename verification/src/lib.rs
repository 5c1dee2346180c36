//! A bandwidth-saving image relay: request parameters, header policy,
//! credential checks, image recompression and response assembly.

pub mod authentication;
pub mod compress;
pub mod decimal;
pub mod error;
pub mod headers;
pub mod params;
pub mod proxy;
pub mod response;
pub mod views;
