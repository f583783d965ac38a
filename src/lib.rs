//! Background removal service core: envelope parsing, image codec, error
//! taxonomy, one-time model loading and the request pipeline's decisions.

pub mod codec;
pub mod envelope;
pub mod error;
pub mod model;
pub mod pipeline;
