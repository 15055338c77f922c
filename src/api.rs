//! Operations on the settings store and the extension request/response
//! exchange.
pub mod extensions;
pub mod settings;
