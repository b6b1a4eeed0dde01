//! Plans and framing for the actions carried out against the homelab host.

pub mod network;
pub mod ssh;
pub mod wol;
