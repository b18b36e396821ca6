//! Verified core of a desktop mail client: the flat record that a user
//! interface shows for one message, how it is derived from a decoded MIME
//! message, and the small configuration types around it.

pub mod body;
pub mod mime;
pub mod parsed_email;
pub mod parser;
pub mod sample;
pub mod user_config;
pub mod app_config;

pub use app_config::AppConfig;
pub use parsed_email::{MessageFields, ParsedEmail};
pub use parser::{parse_email, ParseError, ParseService};
pub use sample::sample_email;
pub use user_config::{ColorScheme, UserConfig};
