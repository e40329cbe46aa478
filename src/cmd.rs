//! The command/acknowledgement codec: a payload wrapped with its delivery
//! contract, and acknowledgements keyed by message id.

use vstd::prelude::*;
use crate::checksum::{
    StableHash, StableHasher, calc_csum, checksum_of, fnv1a, lemma_digest_detects_one_byte_change,
    xor_fold,
};

verus! {

/// The delivery contract of a command on the wire.
#[derive(Debug, Clone, Copy, PartialEq, Eq, Structural)]
pub enum Reliabilty {
    /// The sender expects an `Ack` for `id`; `csum` covers the payload and `id`.
    Reliable { id: u8, csum: u8 },
    /// No acknowledgement is expected or sent.
    Unreliable,
}

#[derive(Debug)]
pub struct Command<T> {
    pub reliability: Reliabilty,
    pub cmd: T,
}

#[derive(Debug, Clone, Copy, PartialEq, Eq, Structural)]
pub struct Ack {
    pub id: u8,
    pub csum: u8,
}

#[derive(Debug)]
pub enum CmdOrAck<T> {
    Cmd(Command<T>),
    Ack(Ack),
}

/// A rejected acknowledgement: `expected_csum` is the checksum computed from
/// its id, `given_csum` the one it carried.
#[derive(Debug, Clone, Copy, PartialEq, Eq, Structural)]
pub struct AckValidationError {
    pub id: u8,
    pub expected_csum: u8,
    pub given_csum: u8,
}

/// Checksum of a command: over the payload's bytes followed by the id.
pub open spec fn command_checksum(payload: Seq<u8>, id: u8) -> u8 {
    checksum_of(payload.push(id))
}

/// Checksum carried by an acknowledgement: over the id alone.
pub open spec fn ack_checksum(id: u8) -> u8 {
    checksum_of(seq![id])
}

/// The command that `new_reliable(cmd, id)` builds.
pub open spec fn reliable_command<T: StableHash>(cmd: T, id: u8) -> Command<T> {
    Command {
        reliability: Reliabilty::Reliable { id, csum: command_checksum(cmd.stable_bytes(), id) },
        cmd,
    }
}

/// The command that `new_unreliable(cmd)` builds.
pub open spec fn unreliable_command<T>(cmd: T) -> Command<T> {
    Command { reliability: Reliabilty::Unreliable, cmd }
}

/// The outcome of `Ack::validate`.
pub open spec fn ack_result(a: Ack) -> Result<Ack, AckValidationError> {
    if a.csum == ack_checksum(a.id) {
        Ok(a)
    } else {
        Err(AckValidationError { id: a.id, expected_csum: ack_checksum(a.id), given_csum: a.csum })
    }
}

/// Checksum over a payload followed by an id.
fn payload_csum<T: StableHash>(cmd: &T, id: u8) -> (r: u8)
    ensures
        r == command_checksum(cmd.stable_bytes(), id),
{
    let mut hasher = StableHasher::new();
    cmd.stable_hash(&mut hasher);
    hasher.write_u8(id);
    xor_fold(hasher.finish())
}

impl<T: StableHash> Command<T> {
    /// Whether the command passes validation: unreliable commands always do,
    /// reliable ones when their checksum matches payload and id.
    pub open spec fn is_valid(&self) -> bool {
        match self.reliability {
            Reliabilty::Reliable { id, csum } => csum == command_checksum(
                self.cmd.stable_bytes(),
                id,
            ),
            Reliabilty::Unreliable => true,
        }
    }

    /// The acknowledgement owed for this command, if any.
    pub open spec fn ack_spec(&self) -> Option<Ack> {
        match self.reliability {
            Reliabilty::Reliable { id, .. } => Some(Ack { id, csum: ack_checksum(id) }),
            Reliabilty::Unreliable => None,
        }
    }

    pub fn new_reliable(cmd: T, id: u8) -> (r: Self)
        ensures
            r == reliable_command(cmd, id),
    {
        let csum = payload_csum(&cmd, id);
        Command { reliability: Reliabilty::Reliable { id, csum }, cmd }
    }

    pub fn new_unreliable(cmd: T) -> (r: Self)
        ensures
            r == unreliable_command(cmd),
    {
        Command { reliability: Reliabilty::Unreliable, cmd }
    }

    /// Checks the command's integrity. A `false` result means the command is
    /// corrupt and must be discarded.
    pub fn validate(&self) -> (r: bool)
        ensures
            r == self.is_valid(),
    {
        match self.reliability {
            Reliabilty::Reliable { id, csum } => {
                let expected_csum = payload_csum(&self.cmd, id);
                csum == expected_csum
            },
            Reliabilty::Unreliable => true,
        }
    }

    pub fn ack(&self) -> (r: Option<Ack>)
        ensures
            r == self.ack_spec(),
    {
        match self.reliability {
            Reliabilty::Reliable { id, .. } => {
                let csum = calc_csum(&id);
                Some(Ack { id, csum })
            },
            Reliabilty::Unreliable => None,
        }
    }
}

impl Ack {
    pub fn validate(self) -> (r: Result<Self, AckValidationError>)
        ensures
            r == ack_result(self),
    {
        let csum = calc_csum(&self.id);
        if csum == self.csum {
            Ok(self)
        } else {
            Err(AckValidationError { id: self.id, expected_csum: csum, given_csum: self.csum })
        }
    }
}

/// A freshly built reliable command passes validation, for every payload and id.
pub proof fn lemma_reliable_command_is_valid<T: StableHash>(cmd: T, id: u8)
    ensures
        reliable_command(cmd, id).is_valid(),
{
}

/// An unreliable command passes validation, whatever its payload.
pub proof fn lemma_unreliable_command_is_valid<T: StableHash>(cmd: T)
    ensures
        unreliable_command(cmd).is_valid(),
{
}

/// An unreliable command owes no acknowledgement; a reliable one owes an
/// acknowledgement for its id, and that acknowledgement validates at once.
pub proof fn lemma_ack_presence<T: StableHash>(cmd: T, id: u8)
    ensures
        unreliable_command(cmd).ack_spec() is None,
        reliable_command(cmd, id).ack_spec() == Some(Ack { id, csum: ack_checksum(id) }),
        ack_result(Ack { id, csum: ack_checksum(id) }) == Ok::<Ack, AckValidationError>(
            Ack { id, csum: ack_checksum(id) },
        ),
{
}

/// An acknowledgement whose checksum does not match its id is rejected with
/// an error that names the id, the computed checksum and the carried one.
pub proof fn lemma_corrupt_ack_rejected(a: Ack)
    requires
        a.csum != ack_checksum(a.id),
    ensures
        ack_result(a) == Err::<Ack, AckValidationError>(
            AckValidationError { id: a.id, expected_csum: ack_checksum(a.id), given_csum: a.csum },
        ),
{
}

/// Validating an acknowledgement again gives the same result: what a
/// successful validation hands back validates to itself.
pub proof fn lemma_ack_revalidation(a: Ack)
    ensures
        ack_result(a) is Ok ==> ack_result(ack_result(a)->Ok_0) == ack_result(a),
{
}

/// A reliable command whose payload or id was altered so that its checksum
/// over the new payload and id differs from the carried one fails validation.
pub proof fn lemma_altered_command_rejected<T: StableHash>(original: T, id: u8, payload: T, new_id: u8)
    requires
        command_checksum(payload.stable_bytes(), new_id) != command_checksum(
            original.stable_bytes(),
            id,
        ),
    ensures
        !(Command {
            reliability: Reliabilty::Reliable {
                id: new_id,
                csum: reliable_command(original, id).reliability->csum,
            },
            cmd: payload,
        }).is_valid(),
{
}

/// The 64-bit digest that a command's checksum is folded from changes when
/// the id changes, and when any one byte of the payload's encoding changes.
/// (The one-byte checksum folded from it may still collide.)
pub proof fn lemma_command_digest_sensitive(payload: Seq<u8>, id: u8, new_id: u8, k: int, v: u8)
    ensures
        new_id != id ==> fnv1a(payload.push(new_id)) != fnv1a(payload.push(id)),
        0 <= k < payload.len() && v != payload[k] ==> fnv1a(payload.update(k, v).push(id))
            != fnv1a(payload.push(id)),
{
    if new_id != id {
        assert(payload.push(id).update(payload.len() as int, new_id) == payload.push(new_id));
        lemma_digest_detects_one_byte_change(payload.push(id), payload.len() as int, new_id);
    }
    if 0 <= k < payload.len() && v != payload[k] {
        assert(payload.push(id).update(k, v) == payload.update(k, v).push(id));
        lemma_digest_detects_one_byte_change(payload.push(id), k, v);
    }
}

} // verus!
