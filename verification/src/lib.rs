//! Client-side mirror of a `bspc`-style window manager's state protocol.
//!
//! The library models the window manager's state tree (monitors, desktops,
//! window trees and clients), decodes the manager's JSON output into those
//! types, and builds the argument lists for the manager's query command.
//! Spawning the manager's process is left to the caller; every decoding and
//! argument-assembly step here is verified.

pub mod json;
pub mod model;
pub mod parse;
pub mod query;
pub mod ser;

pub use model::Client;
pub use model::ClientV;
pub use model::Constraints;
pub use model::Desktop;
pub use model::DesktopV;
pub use model::Focus;
pub use model::Layer;
pub use model::Layout;
pub use model::Monitor;
pub use model::MonitorV;
pub use model::Padding;
pub use model::Rectangle;
pub use model::SplitType;
pub use model::State;
pub use model::StateV;
pub use model::Tree;
pub use model::TreeV;
pub use query::Query;

use vstd::prelude::*;

verus! {

/// The two failure kinds a query can end in: the manager's output did not
/// decode into the requested shape, or the process could not be run at all.
#[derive(Debug)]
pub enum Error {
    Deserialize,
    Io(std::io::Error),
}

#[verifier::external_type_specification]
#[verifier::external_body]
pub struct ExIoError(std::io::Error);

} // verus!
