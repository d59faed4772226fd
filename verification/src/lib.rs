//! Core-to-front-end layer of a text editor: the capability interface a
//! front-end must implement, the line-oriented update encoding that describes
//! how a view's visible lines have changed, and the dispatching client that
//! delivers notifications and requests over either a remote transport or a
//! direct in-process implementation.

pub mod client;
pub mod input;
pub mod replay;
pub mod types;
pub mod update;
pub mod wire;
