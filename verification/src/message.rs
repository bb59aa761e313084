//! Bus messages: an identifier and a payload.

use crate::cob::{get_broadcast_cob_id, get_p2p_cob_id, Cob};
use vstd::prelude::*;

verus! {

/// The node id that an identifier carries in its low seven bits.
pub open spec fn node_id_of(can_id: u16) -> int {
    (can_id as int) % 128
}

/// The function code that an identifier carries in bits 7 to 10.
pub open spec fn function_code_of(can_id: u16) -> int {
    ((can_id as int) / 128) % 16
}

/// The kind that an identifier addresses. Node id 0 selects the broadcast
/// kinds, any other node id the peer-to-peer kinds; a function code that the
/// selected table lacks gives `Unknown`.
pub open spec fn cob_of(can_id: u16) -> Cob {
    let fc = function_code_of(can_id);
    if node_id_of(can_id) == 0 {
        if fc == 0x0 {
            Cob::Nmt
        } else if fc == 0x1 {
            Cob::Sync
        } else if fc == 0x2 {
            Cob::Time
        } else {
            Cob::Unknown
        }
    } else {
        if fc == 0x1 {
            Cob::Emcy
        } else if fc == 0x3 {
            Cob::Pdo1Tx
        } else if fc == 0x4 {
            Cob::Pdo1Rx
        } else if fc == 0x5 {
            Cob::Pdo2Tx
        } else if fc == 0x6 {
            Cob::Pdo2Rx
        } else if fc == 0x7 {
            Cob::Pdo3Tx
        } else if fc == 0x8 {
            Cob::Pdo3Rx
        } else if fc == 0x9 {
            Cob::Pdo4Tx
        } else if fc == 0xA {
            Cob::Pdo4Rx
        } else if fc == 0xB {
            Cob::SdoTx
        } else if fc == 0xC {
            Cob::SdoRx
        } else if fc == 0xE {
            Cob::NmtErrorControl
        } else {
            Cob::Unknown
        }
    }
}

/// What a message is: its identifier and the bytes of its payload.
pub struct MessageView {
    pub can_id: u16,
    pub data: Seq<u8>,
}

impl MessageView {
    /// The node id that the identifier carries.
    pub open spec fn node_id(self) -> int {
        node_id_of(self.can_id)
    }

    /// The kind that the identifier addresses.
    pub open spec fn cob(self) -> Cob {
        cob_of(self.can_id)
    }
}

/// A message on the bus. Once made it does not change.
pub struct CanMessage {
    can_id: u16,
    data: Vec<u8>,
}

/// What a run of messages is, one after the other.
pub open spec fn message_views(messages: Seq<CanMessage>) -> Seq<MessageView> {
    messages.map_values(|msg: CanMessage| msg@)
}

impl View for CanMessage {
    type V = MessageView;

    closed spec fn view(&self) -> MessageView {
        MessageView { can_id: self.can_id, data: self.data@ }
    }
}

impl CanMessage {
    /// A message with the given identifier and payload, both kept as they are.
    pub fn new(can_id: u16, data: Vec<u8>) -> (msg: CanMessage)
        ensures
            msg@ == (MessageView { can_id, data: data@ }),
    {
        CanMessage { can_id, data }
    }

    /// A message with the given identifier and payload, both kept as they are.
    pub fn from_can_id(can_id: u16, data: Vec<u8>) -> (msg: CanMessage)
        ensures
            msg@ == (MessageView { can_id, data: data@ }),
    {
        CanMessage { can_id, data }
    }

    /// A message of a broadcast kind.
    pub fn from_cob(cob: Cob, data: Vec<u8>) -> (msg: CanMessage)
        requires
            cob.is_broadcast(),
        ensures
            msg@.can_id == cob.base_id(),
            msg@.data == data@,
            msg@.node_id() == 0,
            msg@.cob() == cob,
    {
        let can_id = get_broadcast_cob_id(cob);
        CanMessage { can_id, data }
    }

    /// A message of a peer-to-peer kind for one node. With a node id in
    /// 1..=127 the message decodes to that node id and that kind.
    pub fn from_node_id(node_id: u8, cob: Cob, data: Vec<u8>) -> (msg: CanMessage)
        requires
            cob.is_p2p(),
        ensures
            msg@.can_id == cob.base_id() + node_id,
            msg@.data == data@,
            1 <= node_id <= 127 ==> msg@.node_id() == node_id && msg@.cob() == cob,
    {
        let can_id = get_p2p_cob_id(node_id, cob);
        CanMessage { can_id, data }
    }

    /// The identifier of the message.
    pub fn can_id(&self) -> (id: u16)
        ensures
            id == self@.can_id,
    {
        self.can_id
    }

    /// The node id in the low seven bits of the identifier.
    pub fn node_id(&self) -> (id: u8)
        ensures
            id == self@.node_id(),
    {
        let can_id = self.can_id;
        assert(((can_id as u8) & 0x7Fu8) == can_id % 128) by (bit_vector);
        (can_id as u8) & 0x7Fu8
    }

    /// The kind that the identifier addresses, or `Unknown`.
    pub fn cob(&self) -> (kind: Cob)
        ensures
            kind == self@.cob(),
    {
        let can_id = self.can_id;
        let fc = (can_id >> 7) & 0x000Fu16;
        assert(fc == (can_id / 128) % 16) by (bit_vector)
            requires
                fc == (can_id >> 7) & 0x000Fu16,
        ;
        if self.node_id() == 0x0 {
            match fc {
                0x0 => Cob::Nmt,
                0x1 => Cob::Sync,
                0x2 => Cob::Time,
                _ => Cob::Unknown,
            }
        } else {
            match fc {
                0x1 => Cob::Emcy,
                0x3 => Cob::Pdo1Tx,
                0x4 => Cob::Pdo1Rx,
                0x5 => Cob::Pdo2Tx,
                0x6 => Cob::Pdo2Rx,
                0x7 => Cob::Pdo3Tx,
                0x8 => Cob::Pdo3Rx,
                0x9 => Cob::Pdo4Tx,
                0xA => Cob::Pdo4Rx,
                0xB => Cob::SdoTx,
                0xC => Cob::SdoRx,
                0xE => Cob::NmtErrorControl,
                _ => Cob::Unknown,
            }
        }
    }

    /// The payload.
    pub fn data(&self) -> (data: &Vec<u8>)
        ensures
            data@ == self@.data,
    {
        &self.data
    }

    /// The number of bytes in the payload.
    pub fn data_length(&self) -> (len: usize)
        ensures
            len == self@.data.len(),
    {
        self.data.len()
    }
}

/// Decoding undoes encoding for a broadcast kind: its identifier carries node
/// id 0 and decodes to the kind itself.
pub proof fn lemma_broadcast_round_trip(cob: Cob)
    requires
        cob.is_broadcast(),
    ensures
        node_id_of(cob.base_id() as u16) == 0,
        cob_of(cob.base_id() as u16) == cob,
{
}

/// Decoding undoes encoding for a peer-to-peer kind and a node id in 1..=127:
/// the identifier decodes to that node id and to the kind itself.
pub proof fn lemma_p2p_round_trip(node_id: u8, cob: Cob)
    requires
        cob.is_p2p(),
        1 <= node_id <= 127,
    ensures
        node_id_of((cob.base_id() + node_id) as u16) == node_id,
        cob_of((cob.base_id() + node_id) as u16) == cob,
{
}

/// Encoding undoes decoding: an identifier of eleven bits that decodes to a
/// kind other than `Unknown` is the identifier of that kind, a broadcast kind
/// where the node id is 0 and a peer-to-peer kind for that node where it is
/// not.
pub proof fn lemma_decoded_kind_encodes_back(can_id: u16)
    requires
        can_id < 0x800,
        cob_of(can_id) != Cob::Unknown,
    ensures
        node_id_of(can_id) == 0 ==> cob_of(can_id).is_broadcast() && cob_of(can_id).base_id()
            == can_id,
        node_id_of(can_id) != 0 ==> cob_of(can_id).is_p2p() && cob_of(can_id).base_id()
            + node_id_of(can_id) == can_id,
{
}

} // verus!
