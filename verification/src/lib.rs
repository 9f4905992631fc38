//! Job taxonomy, role classification and display tokens for party-finder listings.

pub mod code;
pub mod duty;
pub mod job;
pub mod listing;
pub mod purity;
pub mod slot;
mod text;

pub use crate::code::{parse_job_code, ParseError};
pub use crate::duty::{get_color_from_duty, DEFAULT_DUTY_COLOR};
pub use crate::job::{Job, Role};
pub use crate::listing::PFListing;
pub use crate::slot::Slot;
