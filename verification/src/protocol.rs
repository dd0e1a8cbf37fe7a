//! The channel-protocol edge: the version string negotiated on channel
//! handshakes, the token-minter instantiation salt, and the decision that
//! turns a finished execution into the acknowledgement written back to the
//! host.

use vstd::prelude::*;

verus! {

use crate::codec::{ack_bytes, encode_ack};
use crate::execute::bytes_eq;
use crate::types::{
    ack_err_only_maker,
    only_maker_bytes,
    Ack,
    AckV,
    ZkgmError,
    TAG_ACK_FAILURE,
    TAG_ACK_SUCCESS,
};
use crate::u256::U256;

/// The protocol version that both ends of a channel must speak.
pub fn protocol_version() -> (r: String)
    ensures
        r@ == "ucs03-zkgm-0"@,
{
    "ucs03-zkgm-0".to_owned()
}

/// The salt under which the token-minter contract is instantiated:
/// the protocol version and the minter's label.
pub fn minter_salt() -> (r: String)
    ensures
        r@ == "ucs03-zkgm-0/zkgm-token-minter"@,
{
    "ucs03-zkgm-0/zkgm-token-minter".to_owned()
}

/// Accept a channel handshake only for the protocol's own version, on both
/// ends.
pub fn enforce_version(version: &str, counterparty_version: Option<&str>) -> (r: Result<
    (),
    ZkgmError,
>)
    ensures
        r is Ok <==> version@ == "ucs03-zkgm-0"@ && match counterparty_version {
            Some(cv) => cv@ == "ucs03-zkgm-0"@,
            None => true,
        },
        r is Err ==> r == Err::<(), ZkgmError>(ZkgmError::InvalidIbcVersion),
{
    let own = protocol_version();
    if !(version.to_owned() == own) {
        return Err(ZkgmError::InvalidIbcVersion);
    }
    match counterparty_version {
        Some(cv) => {
            if !(cv.to_owned() == own) {
                return Err(ZkgmError::InvalidIbcVersion);
            }
            Ok(())
        },
        None => Ok(()),
    }
}

/// How a finished execution is resolved towards the host.
#[derive(Clone, Debug, PartialEq)]
pub enum ExecutionOutcome {
    /// Write this acknowledgement envelope back for the counterparty.
    WriteAck(Vec<u8>),
    /// An asynchronous acknowledgement: write nothing yet.
    Pending,
}

pub enum ExecutionOutcomeV {
    WriteAck(Seq<u8>),
    Pending,
}

impl View for ExecutionOutcome {
    type V = ExecutionOutcomeV;

    open spec fn view(&self) -> ExecutionOutcomeV {
        match self {
            ExecutionOutcome::WriteAck(b) => ExecutionOutcomeV::WriteAck(b@),
            ExecutionOutcome::Pending => ExecutionOutcomeV::Pending,
        }
    }
}

/// What resolving an execution means.
///
/// A failed execution is answered with a failure envelope, so the sender
/// chain refunds.  A successful one that produced the maker-only sentinel
/// aborts instead — no state was committed, and breaking the transaction
/// lets a market maker replay the packet.  Any other acknowledgement is
/// wrapped in a success envelope; an empty one means the acknowledgement
/// will arrive asynchronously and nothing is written yet.
pub open spec fn finalize_spec(success: bool, ack: Option<Seq<u8>>) -> Result<
    ExecutionOutcomeV,
    ZkgmError,
> {
    if !success {
        Ok(
            ExecutionOutcomeV::WriteAck(
                ack_bytes(
                    AckV {
                        tag: U256 { w0: TAG_ACK_FAILURE, w1: 0, w2: 0, w3: 0 },
                        inner_ack: Seq::empty(),
                    },
                ),
            ),
        )
    } else {
        let inner = ack->Some_0;
        if inner == only_maker_bytes() {
            Err(ZkgmError::OnlyMaker)
        } else if inner.len() > 0 {
            Ok(
                ExecutionOutcomeV::WriteAck(
                    ack_bytes(
                        AckV {
                            tag: U256 { w0: TAG_ACK_SUCCESS, w1: 0, w2: 0, w3: 0 },
                            inner_ack: inner,
                        },
                    ),
                ),
            )
        } else {
            Ok(ExecutionOutcomeV::Pending)
        }
    }
}

/// Resolve a finished execution: decide what, if anything, to write back.
///
/// The stored acknowledgement is present whenever the inner execution
/// succeeded; the host guarantees it.
pub fn finalize_execution(success: bool, ack: Option<Vec<u8>>) -> (r: Result<
    ExecutionOutcome,
    ZkgmError,
>)
    requires
        success ==> ack is Some,
    ensures
        ({
            let s = finalize_spec(
                success,
                match ack {
                    Some(a) => Some(a@),
                    None => None,
                },
            );
            match r {
                Ok(out) => s matches Ok(sv) && out@ == sv,
                Err(e) => s == Err::<ExecutionOutcomeV, ZkgmError>(e),
            }
        }),
{
    if !success {
        let inner: Vec<u8> = Vec::new();
        let envelope = Ack { tag: U256::from_u64(TAG_ACK_FAILURE), inner_ack: inner };
        proof {
            assert(envelope@.inner_ack =~= Seq::<u8>::empty());
        }
        return Ok(ExecutionOutcome::WriteAck(encode_ack(&envelope)));
    }
    let inner = match ack {
        Some(a) => a,
        None => {
            proof {
                assert(false);
            }
            Vec::new()
        },
    };
    let sentinel = ack_err_only_maker();
    if bytes_eq(inner.as_slice(), sentinel.as_slice()) {
        Err(ZkgmError::OnlyMaker)
    } else if inner.len() > 0 {
        let envelope = Ack { tag: U256::from_u64(TAG_ACK_SUCCESS), inner_ack: inner };
        Ok(ExecutionOutcome::WriteAck(encode_ack(&envelope)))
    } else {
        Ok(ExecutionOutcome::Pending)
    }
}

} // verus!
