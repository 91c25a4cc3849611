//! A content-addressed hub for archived directory trees.
//!
//! Clients announce an archive by the hash of its bytes, send the bytes
//! under a short-lived token, have the archive unpacked into a named
//! directory, replace text in the unpacked files, and fetch archives back.
//!
//! This crate holds what the hub decides: which names are valid paths
//! ([`file`]), which bytes have which hash ([`digest`]), which tokens open
//! which transfer and for how long ([`server`], [`token`]), what an upload
//! or a download does next ([`bulk`]), what every request of the
//! control plane is answered ([`rpc`]) and under which code a failure
//! travels ([`error`]), and what a replacement writes ([`text_replace`],
//! [`strings`]). The disk, the clock and the network stay with the caller:
//! the hub is told what is on disk and what time it is, and answers with
//! what to do. [`laws`] states what holds of the hub whatever it is asked.

pub mod abi;
pub mod bulk;
pub mod digest;
pub mod error;
pub mod file;
pub mod laws;
pub mod maps;
pub mod rpc;
pub mod server;
pub mod strings;
pub mod text_replace;
pub mod token;
