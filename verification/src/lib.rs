//! Cloud management core: the verified logic behind the Oracle Cloud and
//! Cloudflare tooling (configuration rules, request signing, instance
//! planning, DNS upserts, terminal line editing and web helpers).

pub mod text;
pub mod oci_models;
pub mod oci_auth;
pub mod tags;
pub mod cloudflare;
pub mod config;
pub mod oracle;
pub mod oci_signer;
pub mod utils;
pub mod operations;
pub mod wizard;
pub mod editor;
pub mod oci_compute;
pub mod web;
pub mod dns;
