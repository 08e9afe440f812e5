//! The operation side of a mapper between a local device bus and the
//! Cumulocity cloud.
//!
//! - [`dispatch`] handles one operation from the command that triggers it to
//!   the publication of its status, and [`dispatch_proofs`] states what holds
//!   of every such run, alone or among others.
//! - [`status`] translates the outcome of a transfer into the status that
//!   the cloud is told.
//! - [`capability`] announces what a device can do, each operation once.
//! - [`error`] holds the layered errors of the mapper.
//! - [`entity`], [`message`] and [`operation`] hold the data that these work
//!   on; [`text`], [`name_list`] and [`text_map`] the texts and collections
//!   underneath.
//! - [`proxy`] prepares the remote-access tunnel to the cloud.

pub mod capability;
pub mod dispatch;
pub mod dispatch_proofs;
pub mod entity;
pub mod error;
pub mod message;
pub mod name_list;
pub mod operation;
pub mod proxy;
pub mod status;
pub mod text;
pub mod text_map;
