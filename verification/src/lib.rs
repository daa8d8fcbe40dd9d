//! The workflow of a single-target installer: where the payload may go, in
//! which order the steps of an installation run, and what the front end is
//! told while they do.

pub mod controller;
pub mod extraction;
pub mod gui;
pub mod registrar;
pub mod request;
pub mod store;
pub mod text;
pub mod validator;
