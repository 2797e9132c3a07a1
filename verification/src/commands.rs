//! The batman-adv and rtnetlink operations of the library: the request each
//! one sends and what it makes of the kernel's replies.

pub mod ap_isolation;
pub mod dump;
pub mod gw_mode;
pub mod interface;
pub mod mesh;
pub mod originators;
