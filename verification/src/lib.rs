//! Dispatch layer between a media host's flat callback table and typed plugin
//! capabilities.

pub mod capsule;
pub mod context;
pub mod fault;
pub mod ffi;
pub mod media;
pub mod traits;
