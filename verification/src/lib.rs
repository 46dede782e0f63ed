//! The decisions of the `dodev` tunnel client.
//!
//! `dodev` exposes a port of the local machine at `https://<subdomain>.local.dev`. What it reads
//! and writes (files, sockets, the terminal) is left to its caller; what it does about it is
//! decided here, and proved.
//!
//! - [`protocol`] and [`wire`] are the formats: binary frames, and envelopes in JSON.
//! - [`tunnel`], [`reconnect`], [`proxy`] and [`sockets`] carry requests and WebSockets from the
//!   relay to the local server and back.
//! - [`config`], [`auth`], [`active`], [`start`], [`account`] and [`login`] decide who the user is
//!   and which subdomain a tunnel gets.
//! - [`report`], [`display`] and [`pages`] are what the user sees.
//! - [`text`], [`table`], [`json`] and [`json_laws`] are what the others are built from.
//! - [`laws`] says what all this is for: what arrives, what comes back, what is refused.
//! - [`outside`] holds every call into another crate, with what is taken for granted of it.

use vstd::prelude::*;

pub mod account;
pub mod active;
pub mod auth;
pub mod config;
pub mod display;
pub mod json;
pub mod json_laws;
pub mod laws;
pub mod login;
pub mod outside;
pub mod pages;
pub mod protocol;
pub mod proxy;
pub mod reconnect;
pub mod report;
pub mod sockets;
pub mod start;
pub mod table;
pub mod text;
pub mod tunnel;
pub mod wire;

verus! {

} // verus!
