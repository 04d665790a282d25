//! Request framing and response encoding for a minimal Kafka broker that
//! answers API-version negotiation.
pub mod config;
pub mod exchange;
pub mod parser;
pub mod response;
pub mod wire;

pub use crate::config::Config;
pub use crate::exchange::handle_request;
pub use crate::response::{
    append_response_body, append_response_header, create_response, is_api_ver_valid,
    update_msg_size,
};
