use std::time::Duration;

use canopen_rs::cob::Cob;
use canopen_rs::controller::{CanOpenController, NmtState};
use canopen_rs::message::CanMessage;
use canopen_rs::service::error_control::ErrorControl;
use canopen_rs::service::node_control::{handle_nmt_message, NodeCommand};

fn started(node_id: u8) -> CanOpenController {
    let mut controller = CanOpenController::new(node_id);
    controller.init();
    controller
}

fn command(specifier: u8, node_id: u8) -> CanMessage {
    CanMessage::from_cob(Cob::Nmt, vec![specifier, node_id])
}

#[test]
fn new_controller_is_initialising_with_nothing_to_send() {
    let mut controller = CanOpenController::new(0x1A);
    assert_eq!(controller.nmt_state(), NmtState::Initialising);
    assert!(controller.fetch().is_empty());
    assert_eq!(controller.nmt_state(), NmtState::Initialising);
}

#[test]
fn init_queues_exactly_one_boot_up_message() {
    for node_id in [1u8, 0x1A, 127] {
        let mut controller = started(node_id);
        assert_eq!(controller.nmt_state(), NmtState::PreOperational);
        let msgs = controller.fetch();
        assert_eq!(msgs.len(), 1);
        assert_eq!(msgs[0].can_id(), 0x700 + node_id as u16);
        assert_eq!(msgs[0].node_id(), node_id);
        assert_eq!(msgs[0].cob(), Cob::NmtErrorControl);
        assert_eq!(*msgs[0].data(), vec![0x0]);
    }
}

#[test]
fn fetch_drains_the_waiting_messages() {
    let mut controller = started(0x1A);
    let first = controller.fetch();
    assert!(!first.is_empty());
    let second = controller.fetch();
    assert!(second.is_empty());
    assert_eq!(controller.nmt_state(), NmtState::PreOperational);
}

#[test]
fn fetch_hands_out_messages_oldest_first() {
    let mut controller = started(0x05);
    controller.process(command(0x81, 0x05));
    controller.process(command(0x82, 0x05));
    let msgs = controller.fetch();
    assert_eq!(msgs.len(), 3);
    for msg in &msgs {
        assert_eq!(msg.can_id(), 0x705);
        assert_eq!(*msg.data(), vec![0x0]);
    }
    assert!(controller.fetch().is_empty());
}

#[test]
fn commands_for_this_node_move_the_state() {
    let mut controller = started(0x1A);
    controller.process(command(0x1, 0x1A));
    assert_eq!(controller.nmt_state(), NmtState::Operational);
    controller.process(command(0x2, 0x1A));
    assert_eq!(controller.nmt_state(), NmtState::Stopped);
    controller.process(command(0x80, 0x1A));
    assert_eq!(controller.nmt_state(), NmtState::PreOperational);
    controller.process(command(0x2, 0x1A));
    assert_eq!(controller.nmt_state(), NmtState::Stopped);
    controller.process(command(0x1, 0x1A));
    assert_eq!(controller.nmt_state(), NmtState::Operational);
    controller.process(command(0x80, 0x1A));
    assert_eq!(controller.nmt_state(), NmtState::PreOperational);
    // Only the start queued a message.
    assert_eq!(controller.fetch().len(), 1);
}

#[test]
fn reset_node_queues_boot_up_from_every_state() {
    for before in [0x1u8, 0x2, 0x80] {
        let mut controller = started(0x1A);
        controller.fetch();
        controller.process(command(before, 0x1A));
        controller.process(command(0x81, 0x1A));
        assert_eq!(controller.nmt_state(), NmtState::PreOperational);
        let msgs = controller.fetch();
        assert_eq!(msgs.len(), 1);
        assert_eq!(msgs[0].node_id(), 0x1A);
        assert_eq!(msgs[0].cob(), Cob::NmtErrorControl);
        assert_eq!(*msgs[0].data(), vec![0x0]);
    }
}

#[test]
fn reset_communication_queues_boot_up_from_every_state() {
    for before in [0x1u8, 0x2, 0x80] {
        let mut controller = started(0x1A);
        controller.fetch();
        controller.process(command(before, 0x1A));
        controller.process(command(0x82, 0x1A));
        assert_eq!(controller.nmt_state(), NmtState::PreOperational);
        let msgs = controller.fetch();
        assert_eq!(msgs.len(), 1);
        assert_eq!(msgs[0].can_id(), 0x71A);
        assert_eq!(*msgs[0].data(), vec![0x0]);
    }
}

#[test]
fn controller_that_was_not_started_only_takes_resets() {
    for specifier in [0x1u8, 0x2, 0x80] {
        let mut controller = CanOpenController::new(0x1A);
        controller.process(command(specifier, 0x1A));
        assert_eq!(controller.nmt_state(), NmtState::Initialising);
        assert!(controller.fetch().is_empty());
    }
    for specifier in [0x81u8, 0x82] {
        let mut controller = CanOpenController::new(0x1A);
        controller.process(command(specifier, 0x1A));
        assert_eq!(controller.nmt_state(), NmtState::PreOperational);
        let msgs = controller.fetch();
        assert_eq!(msgs.len(), 1);
        assert_eq!(msgs[0].can_id(), 0x71A);
        assert_eq!(*msgs[0].data(), vec![0x0]);
    }
}

#[test]
fn commands_out_of_place_change_nothing() {
    // Start to an operational node, stop to a stopped one,
    // enter-pre-operational to a pre-operational one.
    let mut controller = started(0x1A);
    controller.fetch();
    controller.process(command(0x80, 0x1A));
    assert_eq!(controller.nmt_state(), NmtState::PreOperational);
    controller.process(command(0x1, 0x1A));
    controller.process(command(0x1, 0x1A));
    assert_eq!(controller.nmt_state(), NmtState::Operational);
    controller.process(command(0x2, 0x1A));
    controller.process(command(0x2, 0x1A));
    assert_eq!(controller.nmt_state(), NmtState::Stopped);
    assert!(controller.fetch().is_empty());
}

#[test]
fn command_for_another_node_changes_nothing() {
    let mut controller = started(0x1A);
    controller.fetch();
    for specifier in [0x1u8, 0x2, 0x80, 0x81, 0x82] {
        controller.process(command(specifier, 0x1B));
        assert_eq!(controller.nmt_state(), NmtState::PreOperational);
        // Node id 0 is no address for all nodes.
        controller.process(command(specifier, 0x00));
        assert_eq!(controller.nmt_state(), NmtState::PreOperational);
    }
    assert!(controller.fetch().is_empty());
}

#[test]
fn malformed_command_frames_change_nothing() {
    let mut controller = started(0x1A);
    controller.fetch();
    controller.process(CanMessage::from_cob(Cob::Nmt, vec![]));
    controller.process(CanMessage::from_cob(Cob::Nmt, vec![0x1]));
    controller.process(CanMessage::from_cob(Cob::Nmt, vec![0x1, 0x1A, 0x0]));
    controller.process(command(0x63, 0x1A));
    controller.process(command(0x0, 0x1A));
    assert_eq!(controller.nmt_state(), NmtState::PreOperational);
    assert!(controller.fetch().is_empty());
}

#[test]
fn messages_of_other_kinds_change_nothing() {
    let mut controller = started(0x1A);
    controller.fetch();
    controller.process(CanMessage::from_cob(Cob::Sync, vec![0x1, 0x1A]));
    controller.process(CanMessage::from_cob(Cob::Time, vec![0x81, 0x1A]));
    controller.process(CanMessage::from_node_id(0x1A, Cob::Emcy, vec![0x1, 0x1A]));
    controller.process(CanMessage::from_node_id(0x1A, Cob::NmtErrorControl, vec![0x81, 0x1A]));
    controller.process(CanMessage::from_can_id(0x780, vec![0x1, 0x1A]));
    // The function code of network management with a node id is no command frame.
    controller.process(CanMessage::from_can_id(0x01A, vec![0x1, 0x1A]));
    assert_eq!(controller.nmt_state(), NmtState::PreOperational);
    assert!(controller.fetch().is_empty());
}

#[test]
fn update_changes_nothing() {
    let mut controller = started(0x1A);
    controller.update(Duration::from_millis(10));
    assert_eq!(controller.nmt_state(), NmtState::PreOperational);
    assert_eq!(controller.fetch().len(), 1);
    controller.process(command(0x1, 0x1A));
    controller.update(Duration::from_secs(3600));
    assert_eq!(controller.nmt_state(), NmtState::Operational);
    assert!(controller.fetch().is_empty());
}

#[test]
fn every_command_specifier_has_its_command() {
    for specifier in 0..=255u8 {
        let expected = match specifier {
            0x1 => NodeCommand::StartNode,
            0x2 => NodeCommand::StopNode,
            0x80 => NodeCommand::EnterPreOperational,
            0x81 => NodeCommand::ResetNode,
            0x82 => NodeCommand::ResetCommunication,
            _ => NodeCommand::NoCommand,
        };
        assert_eq!(handle_nmt_message(0x7F, command(specifier, 0x7F)), expected);
    }
}

#[test]
fn command_frames_need_two_bytes_and_the_node_id() {
    assert_eq!(
        handle_nmt_message(0x4, CanMessage::from_cob(Cob::Nmt, vec![0x1])),
        NodeCommand::NoCommand
    );
    assert_eq!(
        handle_nmt_message(0x4, CanMessage::from_cob(Cob::Nmt, vec![0x1, 0x4, 0x4])),
        NodeCommand::NoCommand
    );
    assert_eq!(handle_nmt_message(0x4, command(0x1, 0x0)), NodeCommand::NoCommand);
    assert_eq!(handle_nmt_message(0x0, command(0x1, 0x0)), NodeCommand::StartNode);
    assert_eq!(
        handle_nmt_message(0x4, CanMessage::from_node_id(0x4, Cob::SdoRx, vec![0x1, 0x4])),
        NodeCommand::NoCommand
    );
}

#[test]
fn error_control_can_be_made_for_any_node() {
    let _first = ErrorControl::new(1);
    let _last = ErrorControl::new(127);
}
