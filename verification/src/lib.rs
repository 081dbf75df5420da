//! A typed client core for a hosted business-intelligence platform's REST API.
//!
//! The crate models each API resource (accounts, datasets, groups, pages,
//! streams, users, workflow projects, buzz messaging, webhooks, activity logs)
//! as a record of optional fields, maps every endpoint operation to a plain
//! request description, and maps responses back to typed values or to a
//! structured API error. All of that logic is verified; the network transport
//! itself lives outside the crate and exchanges plain values with it.

pub mod csvtext;
pub mod json;
pub mod jsontext;
pub mod paging;
pub mod public;
pub mod strutil;
pub mod webhook;
