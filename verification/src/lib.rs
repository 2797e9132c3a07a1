//! Verified core of a batman-adv mesh management library.
//!
//! The library holds the decisions and data transformations of the client:
//! mesh selector validation, kernel uevent decoding, the requests sent to the
//! batman-adv generic netlink family and to rtnetlink, the interpretation of
//! the kernel's replies, and the text rendered by the command line tool.
//! Socket handling and printing live outside this crate's verified part.

pub mod error;
pub mod text;
pub mod mac;
pub mod gateway_event;
pub mod uevent;
pub mod mesh;
pub mod netlink;
pub mod model;
pub mod commands;
pub mod client;
pub mod cli;
pub mod laws;

pub use client::Client;
pub use error::Error;
pub use gateway_event::{GatewayEvent, GatewayEventAction};
pub use mac::MacAddress;
pub use mesh::{MeshSelector, MeshSelectorBuilder};
pub use model::{Gateway, GatewayInfo, GwMode, Interface, Originator};
pub use uevent::UeventListener;
