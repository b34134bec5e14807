//! The core of a currency-exchange service, free of I/O.
//!
//! A request to create an exchange runs through decoding, a rate lookup, the
//! conversion and the store. This crate holds every decision of that run and
//! leaves the network and the database to its caller: the caller performs the
//! [`actions::Action`] it is handed and reports the outcome as an
//! [`actions::Event`].

pub mod actions;
pub mod api;
pub mod decimal;
pub mod http_error;
pub mod json;
pub mod model;
pub mod timestamp;
pub mod util;
pub mod view;
