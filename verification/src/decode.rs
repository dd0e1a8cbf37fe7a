//! Decoding a wire instruction into the closed instruction tree.  Each node
//! is checked against the closed opcode set and the opcode's maximum
//! version before its operand is read; any violation aborts the whole
//! decode, exactly as it aborts a traversal.

use vstd::prelude::*;

verus! {

use crate::codec::{
    ack_decoded,
    batch_decoded,
    decode_ack,
    decode_batch,
    decode_multiplex,
    decode_order,
    decode_zkgm_packet,
    multiplex_decoded,
    order_decoded,
    zkgm_decoded,
};
use crate::types::{
    Ack,
    Instruction,
    InstructionV,
    Tree,
    ZkgmError,
    ZkgmPacket,
    INSTR_VERSION_0,
    INSTR_VERSION_1,
    OP_BATCH,
    OP_FUNGIBLE_ASSET_ORDER,
    OP_MULTIPLEX,
    OP_TAG,
};

/// The closed instruction set.
pub open spec fn known_opcode(opcode: u8) -> bool {
    opcode == OP_TAG || opcode == OP_MULTIPLEX || opcode == OP_BATCH || opcode
        == OP_FUNGIBLE_ASSET_ORDER
}

/// The highest version known for an opcode; forward compatibility is
/// opt-in per opcode.
pub open spec fn max_version(opcode: u8) -> u8 {
    if opcode == OP_FUNGIBLE_ASSET_ORDER {
        INSTR_VERSION_1
    } else {
        INSTR_VERSION_0
    }
}

/// The tree `t` is what the wire instruction `instr` denotes: opcodes in
/// the closed set, versions within each opcode's maximum, and every
/// operand decoding to the corresponding node.
pub open spec fn tree_matches(t: Tree, instr: InstructionV) -> bool
    decreases t,
{
    match t {
        Tree::Order(o) => instr.opcode == OP_FUNGIBLE_ASSET_ORDER && instr.version <= max_version(
            OP_FUNGIBLE_ASSET_ORDER,
        ) && order_decoded(instr.operand) == Some(o@),
        Tree::Batch(subs) => instr.opcode == OP_BATCH && instr.version <= max_version(OP_BATCH)
            && match batch_decoded(instr.operand) {
            Some(instrs) => subs@.len() == instrs.len() && forall|i: int|
                0 <= i < subs@.len() ==> tree_matches(#[trigger] subs@[i], instrs[i]),
            None => false,
        },
        Tree::Multiplex(m) => instr.opcode == OP_MULTIPLEX && instr.version <= max_version(
            OP_MULTIPLEX,
        ) && multiplex_decoded(instr.operand) == Some(m@),
        Tree::Tag => instr.opcode == OP_TAG && instr.version <= max_version(OP_TAG),
    }
}

/// Decode one wire instruction into its tree.
///
/// Succeeds exactly on the instructions that denote a tree; an unknown
/// opcode or an excessive version at the top is reported as such.
#[verifier::loop_isolation(false)]
pub fn decode_instruction(instr: &Instruction) -> (r: Result<Tree, ZkgmError>)
    ensures
        r matches Ok(t) ==> tree_matches(t, instr@),
        r is Ok <==> exists|t: Tree| tree_matches(t, instr@),
        !known_opcode(instr.opcode) ==> r == Err::<Tree, ZkgmError>(
            ZkgmError::UnknownOpcode { opcode: instr.opcode },
        ),
        known_opcode(instr.opcode) && instr.version > max_version(instr.opcode) ==> r
            == Err::<Tree, ZkgmError>(ZkgmError::UnsupportedVersion { version: instr.version }),
    decreases instr.operand@.len(),
{
    if instr.opcode == OP_FUNGIBLE_ASSET_ORDER {
        if instr.version > INSTR_VERSION_1 {
            return Err(ZkgmError::UnsupportedVersion { version: instr.version });
        }
        match decode_order(instr.operand.as_slice()) {
            Some(o) => {
                let t = Tree::Order(o);
                proof {
                    assert(tree_matches(t, instr@));
                }
                Ok(t)
            },
            None => {
                proof {
                    assert forall|t: Tree| !tree_matches(t, instr@) by {
                        if t is Order {
                            assert(order_decoded(instr@.operand) is None);
                        }
                    }
                }
                Err(ZkgmError::OperandDecode)
            },
        }
    } else if instr.opcode == OP_BATCH {
        if instr.version > INSTR_VERSION_0 {
            return Err(ZkgmError::UnsupportedVersion { version: instr.version });
        }
        match decode_batch(instr.operand.as_slice()) {
            Some(wire) => {
                let ghost instrs = wire@.map_values(|i: Instruction| i@);
                let mut subs: Vec<Tree> = Vec::new();
                let mut i: usize = 0;
                while i < wire.len()
                    invariant
                        i <= wire@.len(),
                        subs@.len() == i,
                        instrs == wire@.map_values(|i: Instruction| i@),
                        batch_decoded(instr@.operand) == Some(instrs),
                        instrs.len() == wire@.len(),
                        forall|k: int|
                            0 <= k < wire@.len() ==> #[trigger] wire@[k].operand@.len()
                                < instr.operand@.len(),
                        forall|j: int|
                            0 <= j < i ==> tree_matches(#[trigger] subs@[j], instrs[j]),
                    decreases wire@.len() - i,
                {
                    proof {
                        assert(instrs[i as int] == wire@[i as int]@);
                    }
                    match decode_instruction(&wire[i]) {
                        Ok(t) => {
                            subs.push(t);
                        },
                        Err(e) => {
                            proof {
                                assert(forall|tc: Tree| !tree_matches(tc, instrs[i as int]));
                                assert forall|t: Tree| !tree_matches(t, instr@) by {
                                    match t {
                                        Tree::Batch(bs) => {
                                            if tree_matches(t, instr@) {
                                                assert(tree_matches(
                                                    bs@[i as int],
                                                    instrs[i as int],
                                                ));
                                            }
                                        },
                                        _ => {},
                                    }
                                }
                            }
                            return Err(e);
                        },
                    }
                    i += 1;
                }
                let t = Tree::Batch(subs);
                proof {
                    assert(tree_matches(t, instr@));
                }
                Ok(t)
            },
            None => {
                proof {
                    assert forall|t: Tree| !tree_matches(t, instr@) by {
                        if t is Batch {
                            assert(batch_decoded(instr@.operand) is None);
                        }
                    }
                }
                Err(ZkgmError::OperandDecode)
            },
        }
    } else if instr.opcode == OP_MULTIPLEX {
        if instr.version > INSTR_VERSION_0 {
            return Err(ZkgmError::UnsupportedVersion { version: instr.version });
        }
        match decode_multiplex(instr.operand.as_slice()) {
            Some(m) => {
                let t = Tree::Multiplex(m);
                proof {
                    assert(tree_matches(t, instr@));
                }
                Ok(t)
            },
            None => {
                proof {
                    assert forall|t: Tree| !tree_matches(t, instr@) by {
                        if t is Multiplex {
                            assert(multiplex_decoded(instr@.operand) is None);
                        }
                    }
                }
                Err(ZkgmError::OperandDecode)
            },
        }
    } else if instr.opcode == OP_TAG {
        if instr.version > INSTR_VERSION_0 {
            return Err(ZkgmError::UnsupportedVersion { version: instr.version });
        }
        proof {
            assert(tree_matches(Tree::Tag, instr@));
        }
        Ok(Tree::Tag)
    } else {
        Err(ZkgmError::UnknownOpcode { opcode: instr.opcode })
    }
}

/// Decode the bytes of a packet into its zkgm payload.
pub fn decode_packet(data: &[u8]) -> (r: Result<ZkgmPacket, ZkgmError>)
    ensures
        r matches Ok(p) ==> zkgm_decoded(data@) == Some(p@) && p.salt@.len() == 32,
        r is Err ==> zkgm_decoded(data@) is None && r == Err::<ZkgmPacket, ZkgmError>(
            ZkgmError::OperandDecode,
        ),
{
    match decode_zkgm_packet(data) {
        Some(p) => Ok(p),
        None => Err(ZkgmError::OperandDecode),
    }
}

/// Decode the bytes of an acknowledgement envelope.
pub fn decode_ack_envelope(data: &[u8]) -> (r: Result<Ack, ZkgmError>)
    ensures
        r matches Ok(a) ==> ack_decoded(data@) == Some(a@),
        r is Err ==> ack_decoded(data@) is None && r == Err::<Ack, ZkgmError>(
            ZkgmError::AckDecode,
        ),
{
    match decode_ack(data) {
        Some(a) => Ok(a),
        None => Err(ZkgmError::AckDecode),
    }
}

} // verus!
