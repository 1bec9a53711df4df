//! The core of a newsletter service: signups that are confirmed through
//! an emailed token, and issues that go out to the confirmed subscribers
//! of an authenticated editor.
//!
//! The workflows do no I/O.  Each is a state machine that names the next
//! request to the store or the email gateway and takes its next step on
//! the answer; the host makes the requests.  The store is modelled in
//! [`store::model`], and [`store::memory`] holds a store that answers as
//! the model says.

pub mod authentication;
pub mod configuration;
pub mod domain;
pub mod email_client;
pub mod error;
pub mod routes;
pub mod startup;
pub mod store;
pub mod text;
pub mod workflow;
