//! Sample records and the framing of their JSON form.

pub mod json;
pub mod model;
