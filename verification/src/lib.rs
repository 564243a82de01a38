//! Verified core of the home projects web service: configuration, the shapes of
//! the API's requests and responses, the flattening of validation failures into
//! error items, and the decisions the request handlers make.

pub mod text;
pub mod settings;
pub mod error;
pub mod validation;
pub mod entity;
pub mod router;
pub mod extract;
