//! Code generators that read a struct or enum declaration, resolve the
//! per-item policy given by its attributes and emit the source text of the
//! generated implementations.

pub mod attribute;
pub mod constructor;
pub mod declaration;
pub mod diagnostic;
pub mod display;
pub mod error;
pub mod from;
pub mod generator;
pub mod inner;
pub mod method;
pub mod policy;
pub mod projection;
pub mod record;
pub mod syntax;
pub mod text;
pub mod token;
