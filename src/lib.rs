//! A blob uploader. A client uploads a payload and receives a public id,
//! under which anyone can fetch it, and a secret, with which it can be
//! deleted. A metadata record and the stored blob are kept consistent
//! across two backends that fail independently.
//!
//! - `upload`, `delete` and `retrieve`: the coordinators, as state machines
//!   that ask for one backend action at a time (`action`).
//! - `world` and `laws`: a model of the backends and what the coordinators
//!   guarantee against it.
//! - `drive`: the file format of the local drive backend.
//! - `ids` and `clock`: random identifiers and the time of an upload.
//! - `entity`, `error`, `config` and `response`: records, errors, settings
//!   and what the request layer sends back.
pub mod action;
pub mod clock;
pub mod config;
pub mod delete;
pub mod drive;
pub mod entity;
pub mod error;
pub mod ids;
pub mod laws;
pub mod response;
pub mod retrieve;
pub mod text;
pub mod upload;
pub mod world;
