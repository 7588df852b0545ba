//! The protocol and file-metadata logic of a TRAMP-RPC server: MessagePack
//! values, requests, responses and errors, the attribute maps that describe
//! files, and the decisions the file handlers make around their system calls.
use vstd::prelude::*;

pub mod value;
pub mod protocol;
pub mod file;

verus! {
}
