//! Node control: reading network-management command frames.
//!
//! A command frame is a message of kind `Nmt` with two bytes of payload: the
//! command specifier and the id of the node it is meant for.

use crate::cob::Cob;
use crate::message::{CanMessage, MessageView};
use vstd::prelude::*;

verus! {

/// What a command frame asks a node to do. `NoCommand` stands for every frame
/// that is no command to this node.
#[derive(Clone, Copy, Debug, PartialEq, Eq, Structural)]
pub enum NodeCommand {
    StartNode,
    StopNode,
    EnterPreOperational,
    ResetNode,
    ResetCommunication,
    NoCommand,
}

/// Whether a message is a command frame for the node `node_id`.
pub open spec fn is_command_for(node_id: u8, msg: MessageView) -> bool {
    &&& msg.cob() == Cob::Nmt
    &&& msg.data.len() == 2
    &&& msg.data[1] == node_id
}

/// The command that a command specifier stands for.
pub open spec fn command_of_specifier(specifier: u8) -> NodeCommand {
    if specifier == 0x1 {
        NodeCommand::StartNode
    } else if specifier == 0x2 {
        NodeCommand::StopNode
    } else if specifier == 0x80 {
        NodeCommand::EnterPreOperational
    } else if specifier == 0x81 {
        NodeCommand::ResetNode
    } else if specifier == 0x82 {
        NodeCommand::ResetCommunication
    } else {
        NodeCommand::NoCommand
    }
}

/// The command that a message gives to the node `node_id`.
pub open spec fn command_for(node_id: u8, msg: MessageView) -> NodeCommand {
    if is_command_for(node_id, msg) {
        command_of_specifier(msg.data[0])
    } else {
        NodeCommand::NoCommand
    }
}

/// Reads a message as a command to the node `node_id`.
pub fn handle_nmt_message(node_id: u8, can_message: CanMessage) -> (command: NodeCommand)
    ensures
        command == command_for(node_id, can_message@),
{
    if is_message_valid(node_id, &can_message) {
        match can_message.data()[0] {
            0x1 => NodeCommand::StartNode,
            0x2 => NodeCommand::StopNode,
            0x80 => NodeCommand::EnterPreOperational,
            0x81 => NodeCommand::ResetNode,
            0x82 => NodeCommand::ResetCommunication,
            _ => NodeCommand::NoCommand,
        }
    } else {
        NodeCommand::NoCommand
    }
}

fn is_message_valid(node_id: u8, can_message: &CanMessage) -> (valid: bool)
    ensures
        valid == is_command_for(node_id, can_message@),
{
    (can_message.cob() == Cob::Nmt) && (can_message.data_length() == 2) && (can_message.data()[1]
        == node_id)
}

} // verus!
