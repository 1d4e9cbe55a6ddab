//! Core of a self-reloading daemon: a registry of restorable resources,
//! the re-exec handshake protocol, supervisor notification messages, and
//! the surrounding REST-server helpers.

pub mod access;

pub mod acme;

pub mod apt;

pub mod daemon;

pub mod dns;

pub mod error;

pub mod notify;

pub mod decimal;

pub mod listener;

pub mod protocol;

pub mod reloader;

pub mod resource;

pub mod server;

pub mod xattr;
