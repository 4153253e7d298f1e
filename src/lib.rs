//! A WHOIS client library: a directory of WHOIS servers keyed by domain
//! suffix, the selection of the server for a target, the formatting of the
//! query that is sent to it, and the rules for following referrals from one
//! server to the next.
//!
//! The network exchange itself is performed by the caller: this crate decides
//! what to send and where, and what to do with what came back.

pub mod config;
pub mod entries;
pub mod error;
pub mod host;
pub mod lookup;
pub mod referral;
pub mod server_value;
pub mod text;
pub mod who_is;

pub use config::ConfigValue;
pub use error::WhoIsError;
pub use host::{Host, WhoIsHost};
pub use lookup::{Lookup, Target, WhoIsLookupOptions};
pub use server_value::WhoIsServerValue;
pub use who_is::WhoIs;
