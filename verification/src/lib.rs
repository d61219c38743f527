//! Verified core of the environment tracker node: configuration, Google
//! Home fulfillment and account linking, device command planning, SQL
//! statement construction, polling, dashboard layout, and the rewriting of
//! the frontend's HTML.

pub mod error;
pub mod json;
pub mod strings;
pub mod uri;
pub mod config;
pub mod fulfillment;
pub mod report_state;
pub mod devices;
pub mod auth;
pub mod db;
pub mod kasa;
pub mod poller;
pub mod frontend;
pub mod site;
pub mod console;
pub mod editor;
pub mod endpoint;
