//! An interactive client for a project-management GraphQL API, as a
//! verified core: query templating, response extraction, the credential
//! retry loop and the menu-driven navigation machine. The surrounding
//! program supplies prompts, the HTTP transport and persistence, and
//! drives the machines here with plain values.

pub mod api_key;
pub mod args;
pub mod data;
pub mod decode;
pub mod extract;
pub mod json;
pub mod nav;
pub mod numeral;
pub mod query;
pub mod user;
