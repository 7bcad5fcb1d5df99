//! Client library for a remote image-optimization service: the typed payload
//! model, its JSON wire form, and the decisions taken on each response.

mod outside;
pub mod url_value;
pub mod json;
pub mod data;
pub mod api;

pub use api::{
    ApiError, Image, ShrinkOutcome, ShrinkSource, Shrinked, Stored, TinifyError, classify_input,
    shrink_response, source_request_body,
};
pub use data::{Data, ImageAttributes};
pub use json::{DecodeError, Json};
pub use url_value::Url;
