//! Communication-object kinds and the identifiers that address them.
//!
//! An identifier has eleven bits: the function code of the kind in bits 7 to
//! 10 and a node id in bits 0 to 6, that is `function_code * 128 + node_id`.

use vstd::prelude::*;

verus! {

/// The category of a bus message.
#[derive(Clone, Copy, Debug, PartialEq, Eq, Structural)]
pub enum Cob {
    Nmt,
    Sync,
    Time,
    Emcy,
    Pdo1Tx,
    Pdo1Rx,
    Pdo2Tx,
    Pdo2Rx,
    Pdo3Tx,
    Pdo3Rx,
    Pdo4Tx,
    Pdo4Rx,
    SdoTx,
    SdoRx,
    NmtErrorControl,
    Unknown,
}

impl Cob {
    /// The four-bit function code of a kind. `Sync` and `Emcy` share a code;
    /// `Unknown` has the code of `Nmt`.
    pub open spec fn function_code(self) -> int {
        match self {
            Cob::Nmt => 0x0,
            Cob::Sync => 0x1,
            Cob::Time => 0x2,
            Cob::Emcy => 0x1,
            Cob::Pdo1Tx => 0x3,
            Cob::Pdo1Rx => 0x4,
            Cob::Pdo2Tx => 0x5,
            Cob::Pdo2Rx => 0x6,
            Cob::Pdo3Tx => 0x7,
            Cob::Pdo3Rx => 0x8,
            Cob::Pdo4Tx => 0x9,
            Cob::Pdo4Rx => 0xA,
            Cob::SdoTx => 0xB,
            Cob::SdoRx => 0xC,
            Cob::NmtErrorControl => 0xE,
            Cob::Unknown => 0x0,
        }
    }

    /// Kinds that are sent to every node, with node id 0.
    pub open spec fn is_broadcast(self) -> bool {
        self == Cob::Nmt || self == Cob::Sync || self == Cob::Time
    }

    /// Kinds that carry the id of one node.
    pub open spec fn is_p2p(self) -> bool {
        !self.is_broadcast() && self != Cob::Unknown
    }

    /// The identifier of a kind with the node id bits clear.
    pub open spec fn base_id(self) -> int {
        self.function_code() * 128
    }
}

/// The function code of a kind.
pub fn get_function_code(cob: Cob) -> (code: u8)
    ensures
        code == cob.function_code(),
{
    match cob {
        Cob::Nmt => 0x0,
        Cob::Sync => 0x1,
        Cob::Time => 0x2,
        Cob::Emcy => 0x1,
        Cob::Pdo1Tx => 0x3,
        Cob::Pdo1Rx => 0x4,
        Cob::Pdo2Tx => 0x5,
        Cob::Pdo2Rx => 0x6,
        Cob::Pdo3Tx => 0x7,
        Cob::Pdo3Rx => 0x8,
        Cob::Pdo4Tx => 0x9,
        Cob::Pdo4Rx => 0xA,
        Cob::SdoTx => 0xB,
        Cob::SdoRx => 0xC,
        Cob::NmtErrorControl => 0xE,
        _ => 0x0,
    }
}

/// Whether a kind is sent to every node.
pub fn is_broadcast_cob(cob: Cob) -> (b: bool)
    ensures
        b == cob.is_broadcast(),
{
    match cob {
        Cob::Nmt => true,
        Cob::Sync => true,
        Cob::Time => true,
        _ => false,
    }
}

/// Whether a kind carries the id of one node.
pub fn is_p2p_cob(cob: Cob) -> (b: bool)
    ensures
        b == cob.is_p2p(),
{
    match cob {
        Cob::Emcy => true,
        Cob::Pdo1Tx => true,
        Cob::Pdo1Rx => true,
        Cob::Pdo2Tx => true,
        Cob::Pdo2Rx => true,
        Cob::Pdo3Tx => true,
        Cob::Pdo3Rx => true,
        Cob::Pdo4Tx => true,
        Cob::Pdo4Rx => true,
        Cob::SdoTx => true,
        Cob::SdoRx => true,
        Cob::NmtErrorControl => true,
        _ => false,
    }
}

/// The base identifier of a kind: its function code moved up by seven bits.
pub fn get_base_cob_id(cob: Cob) -> (id: u16)
    ensures
        id == cob.base_id(),
        id == (cob.function_code() as u16) << 7,
{
    let function_code = get_function_code(cob);
    let wide: u16 = function_code as u16;
    assert(wide << 7 == wide * 128) by (bit_vector)
        requires
            wide < 16,
    ;
    wide << 7
}

/// The identifier of a broadcast kind: its base identifier, with node id 0.
pub fn get_broadcast_cob_id(cob: Cob) -> (id: u16)
    requires
        cob.is_broadcast(),
    ensures
        id == cob.base_id(),
{
    get_base_cob_id(cob)
}

/// The identifier of a peer-to-peer kind for one node. The node id is meant
/// to lie in 1..=127; the sum is formed whatever it is.
pub fn get_p2p_cob_id(node_id: u8, cob: Cob) -> (id: u16)
    requires
        cob.is_p2p(),
    ensures
        id == cob.base_id() + node_id,
{
    get_base_cob_id(cob) + (node_id as u16)
}

} // verus!
