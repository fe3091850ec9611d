//! Verified core of an OpenAI API client: request configuration, query,
//! path and header construction, JSON schema normalization, JSON merging,
//! webhook signature checking, and the request and response types.

pub mod azure;
pub mod cloudflare;
pub mod config;
mod encoding;
pub mod error;
pub mod headers;
pub mod json;
pub mod openrouter;
pub mod request_options;
pub mod resources;
pub mod schema;
mod text;
pub mod types;

pub use azure::AzureConfig;
pub use config::{ClientConfig, OpenAI};
pub use error::OpenAIError;
pub use request_options::RequestOptions;
pub use text::{digit_char, i64_to_decimal_string, int_to_decimal, nat_to_decimal, parse_i64};
