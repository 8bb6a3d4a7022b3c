//! Client-side logic of the Odos smart order routing API: which requests are
//! posted, how each reply is judged, and how an assembled swap becomes a base
//! transaction. The transport itself lives with the caller, who hands every
//! reply to this library as plain values.

pub mod text;
pub mod error;
pub mod status;
pub mod address;
pub mod hex;
pub mod value;
pub mod json;
pub mod config;
pub mod api;
pub mod sor;
