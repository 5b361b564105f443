//! Ranking items by pairwise comparison: the decisions of the service, each
//! with a proved contract.
//!
//! Items are rated from the outcomes of comparisons between two of them. The
//! rating arithmetic runs on doubles and stays with the caller; what this
//! crate holds is everything around it that is decided over integers,
//! sequences and text:
//!
//! - [`pairing`]: which two candidates are compared next;
//! - [`ranking`]: which ratings each side of a match is computed from, and
//!   the control of the volatility search: how far it may walk, when it stops,
//!   which end of its bracket moves;
//! - [`handlers`]: what each request asks of the store, and which vote is
//!   taken;
//! - [`auth`]: who is let in, and what the token says;
//! - [`upload`]: how a stored image is named, and which stored file a public
//!   address names;
//! - [`config`]: which file a database address stands for;
//! - [`models`]: the plain records that these read and give;
//! - [`clock`], [`ids`], [`text`]: the time, fresh identifiers, and scans of
//!   text.

pub mod auth;
pub mod clock;
pub mod config;
pub mod handlers;
pub mod ids;
pub mod models;
pub mod pairing;
pub mod ranking;
pub mod text;
pub mod upload;
