//! Reliable messaging between the two halves of a split keyboard: checksums,
//! the command/acknowledgement codec, delivery policies, the routing decisions
//! of the distributor loops, and the double-reset bootloader flag.

pub mod checksum;
pub mod cmd;
pub mod transmission;
pub mod distributor;
pub mod bootloader;
pub mod messages;
