//! Messages that one half of the keyboard sends to the other.

use vstd::prelude::*;
use crate::checksum::{StableHash, StableHasher, xor_fold_spec};

verus! {

#[derive(Debug, Clone, Copy, PartialEq, Eq, Structural)]
pub enum DeviceToDevice {
    /// Link-level liveness check.
    Ping,
    /// A switch at `row`, `col` of the sending half went down.
    KeyPressed(u8, u8),
    /// A switch at `row`, `col` of the sending half went up.
    KeyReleased(u8, u8),
}

impl StableHash for DeviceToDevice {
    /// The variant's index, fed as an `isize`, then the fields in order.
    open spec fn stable_bytes(&self) -> Seq<u8> {
        match *self {
            DeviceToDevice::Ping => seq![xor_fold_spec(0)],
            DeviceToDevice::KeyPressed(row, col) => seq![xor_fold_spec(1), row, col],
            DeviceToDevice::KeyReleased(row, col) => seq![xor_fold_spec(2), row, col],
        }
    }

    fn stable_hash(&self, state: &mut StableHasher) {
        match *self {
            DeviceToDevice::Ping => {
                state.write_isize(0);
            },
            DeviceToDevice::KeyPressed(row, col) => {
                state.write_isize(1);
                state.write_u8(row);
                state.write_u8(col);
            },
            DeviceToDevice::KeyReleased(row, col) => {
                state.write_isize(2);
                state.write_u8(row);
                state.write_u8(col);
            },
        }
    }
}

} // verus!
