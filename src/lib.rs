//! Conversion generator for error enums, together with the layered
//! document-processing services that use such conversions.
pub mod api;
pub mod declaration;
pub mod diagnostic;
pub mod domain;
pub mod emitter;
pub mod handlers;
pub mod models;
pub mod services;
pub mod text;
pub mod tokens;
pub mod usecases;
pub mod validator;
