//! The controller of one node: its network-management state and the messages
//! it has yet to send.

use crate::cob::Cob;
use crate::message::{message_views, CanMessage, MessageView};
use crate::service::node_control::{command_for, handle_nmt_message, NodeCommand};
use std::time::Duration;
use vstd::prelude::*;

verus! {

/// The network-management state of a node.
#[derive(Copy, Clone, Debug, PartialEq, Eq, Structural)]
pub enum NmtState {
    Initialising,
    PreOperational,
    Operational,
    Stopped,
}

/// The message by which the node `node_id` announces that it has started:
/// kind `NmtErrorControl`, addressed to the node itself, one zero byte.
pub open spec fn boot_up_message(node_id: u8) -> MessageView {
    MessageView { can_id: (Cob::NmtErrorControl.base_id() + node_id) as u16, data: seq![0u8] }
}

/// What a controller is: the node it speaks for, the state of that node, and
/// the messages waiting to be sent, oldest first.
pub struct ControllerView {
    pub node_id: u8,
    pub nmt_state: NmtState,
    pub outgoing: Seq<MessageView>,
}

impl ControllerView {
    /// A controller as it is made: initialising, with nothing to send.
    pub open spec fn initial(node_id: u8) -> ControllerView {
        ControllerView { node_id, nmt_state: NmtState::Initialising, outgoing: Seq::empty() }
    }

    /// After a reset, of the node or of its communication: the boot-up
    /// message is queued and the node is pre-operational.
    pub open spec fn reset(self) -> ControllerView {
        ControllerView {
            node_id: self.node_id,
            nmt_state: NmtState::PreOperational,
            outgoing: self.outgoing.push(boot_up_message(self.node_id)),
        }
    }

    /// With another state and all else as it was.
    pub open spec fn with_state(self, nmt_state: NmtState) -> ControllerView {
        ControllerView { node_id: self.node_id, nmt_state, outgoing: self.outgoing }
    }

    /// After a command has been given. A reset is carried out in every
    /// state. Start is carried out by a pre-operational or stopped node, stop
    /// by an operational or pre-operational one, enter-pre-operational by an
    /// operational or stopped one; given in another state they change
    /// nothing.
    pub open spec fn apply(self, command: NodeCommand) -> ControllerView {
        match command {
            NodeCommand::StartNode => if self.nmt_state == NmtState::PreOperational
                || self.nmt_state == NmtState::Stopped {
                self.with_state(NmtState::Operational)
            } else {
                self
            },
            NodeCommand::StopNode => if self.nmt_state == NmtState::Operational || self.nmt_state
                == NmtState::PreOperational {
                self.with_state(NmtState::Stopped)
            } else {
                self
            },
            NodeCommand::EnterPreOperational => if self.nmt_state == NmtState::Operational
                || self.nmt_state == NmtState::Stopped {
                self.with_state(NmtState::PreOperational)
            } else {
                self
            },
            NodeCommand::ResetNode => self.reset(),
            NodeCommand::ResetCommunication => self.reset(),
            NodeCommand::NoCommand => self,
        }
    }

    /// After a message has been taken in. Only a command frame for this node
    /// changes anything.
    pub open spec fn process(self, msg: MessageView) -> ControllerView {
        self.apply(command_for(self.node_id, msg))
    }

    /// After the waiting messages have been handed out.
    pub open spec fn drained(self) -> ControllerView {
        ControllerView { node_id: self.node_id, nmt_state: self.nmt_state, outgoing: Seq::empty() }
    }
}

/// The controller of the node `node_id`.
pub struct CanOpenController {
    node_id: u8,
    nmt_state: NmtState,
    outgoing_messages: Vec<CanMessage>,
}

impl View for CanOpenController {
    type V = ControllerView;

    closed spec fn view(&self) -> ControllerView {
        ControllerView {
            node_id: self.node_id,
            nmt_state: self.nmt_state,
            outgoing: message_views(self.outgoing_messages@),
        }
    }
}

impl CanOpenController {
    /// A controller for the node `node_id`, which is meant to lie in 1..=127.
    pub fn new(node_id: u8) -> (controller: CanOpenController)
        ensures
            controller@ == ControllerView::initial(node_id),
    {
        let controller = CanOpenController {
            node_id,
            nmt_state: NmtState::Initialising,
            outgoing_messages: Vec::new(),
        };
        assert(controller@.outgoing =~= Seq::empty());
        controller
    }

    /// Starts the node: it resets, queues its boot-up message and becomes
    /// pre-operational.
    pub fn init(&mut self)
        ensures
            final(self)@ == old(self)@.reset(),
    {
        self.reset_node();
    }

    /// Takes in one message from the bus.
    pub fn process(&mut self, can_message: CanMessage)
        ensures
            final(self)@ == old(self)@.process(can_message@),
    {
        if let Cob::Nmt = can_message.cob() {
            match handle_nmt_message(self.node_id, can_message) {
                NodeCommand::StartNode => {
                    if self.nmt_state == NmtState::PreOperational || self.nmt_state
                        == NmtState::Stopped {
                        self.set_nmt_state(NmtState::Operational)
                    }
                },
                NodeCommand::StopNode => {
                    if self.nmt_state == NmtState::Operational || self.nmt_state
                        == NmtState::PreOperational {
                        self.set_nmt_state(NmtState::Stopped)
                    }
                },
                NodeCommand::EnterPreOperational => {
                    if self.nmt_state == NmtState::Operational || self.nmt_state
                        == NmtState::Stopped {
                        self.set_nmt_state(NmtState::PreOperational)
                    }
                },
                NodeCommand::ResetNode => self.reset_node(),
                NodeCommand::ResetCommunication => self.reset_communication(),
                _ => {},
            }
        }
    }

    /// The passing of time. Nothing in the controller depends on it yet.
    pub fn update(&mut self, _dt: Duration)
        ensures
            final(self)@ == old(self)@,
    {
    }

    /// Hands out the waiting messages, oldest first, and leaves none behind.
    pub fn fetch(&mut self) -> (messages: Vec<CanMessage>)
        ensures
            message_views(messages@) == old(self)@.outgoing,
            messages@.len() == old(self)@.outgoing.len(),
            forall|i: int|
                0 <= i < messages@.len() ==> (#[trigger] messages@[i])@ == old(self)@.outgoing[i],
            final(self)@ == old(self)@.drained(),
    {
        let mut messages = Vec::new();
        std::mem::swap(&mut messages, &mut self.outgoing_messages);
        assert(message_views(self.outgoing_messages@) =~= Seq::empty());
        messages
    }

    /// The state that the node is in.
    pub fn nmt_state(&self) -> (nmt_state: NmtState)
        ensures
            nmt_state == self@.nmt_state,
    {
        self.nmt_state
    }

    fn set_nmt_state(&mut self, nmt_state: NmtState)
        ensures
            final(self)@ == old(self)@.with_state(nmt_state),
    {
        self.nmt_state = nmt_state;
    }

    fn reset_node(&mut self)
        ensures
            final(self)@ == old(self)@.reset(),
    {
        self.set_nmt_state(NmtState::Initialising);
        self.reset_communication();
    }

    fn reset_communication(&mut self)
        ensures
            final(self)@ == old(self)@.reset(),
    {
        self.set_nmt_state(NmtState::Initialising);
        self.send_boot_up();
        self.set_nmt_state(NmtState::PreOperational);
    }

    fn send_boot_up(&mut self)
        ensures
            final(self)@.node_id == old(self)@.node_id,
            final(self)@.nmt_state == old(self)@.nmt_state,
            final(self)@.outgoing == old(self)@.outgoing.push(boot_up_message(old(self)@.node_id)),
    {
        let msg = CanMessage::from_node_id(self.node_id, Cob::NmtErrorControl, vec![0x0]);
        assert(msg@ == boot_up_message(self.node_id)) by {
            assert(msg@.data =~= seq![0u8]);
        }
        self.outgoing_messages.push(msg);
        assert(message_views(self.outgoing_messages@) =~= message_views(
            old(self).outgoing_messages@,
        ).push(msg@));
    }
}

/// A command frame as a master sends it: kind `Nmt`, then the command
/// specifier and the id of the node it is meant for.
pub open spec fn command_frame(specifier: u8, node_id: u8) -> MessageView {
    MessageView { can_id: Cob::Nmt.base_id() as u16, data: seq![specifier, node_id] }
}

/// A controller starts out initialising with nothing to send. Once started it
/// is pre-operational and has exactly one message waiting, its boot-up
/// message: one zero byte which, for a node id in 1..=127, decodes to the
/// kind `NmtErrorControl` and to the controller's own node id.
pub proof fn lemma_start_queues_boot_up(node_id: u8)
    ensures
        ControllerView::initial(node_id).nmt_state == NmtState::Initialising,
        ControllerView::initial(node_id).outgoing.len() == 0,
        ControllerView::initial(node_id).reset().nmt_state == NmtState::PreOperational,
        ControllerView::initial(node_id).reset().outgoing == seq![boot_up_message(node_id)],
        boot_up_message(node_id).data == seq![0u8],
        1 <= node_id <= 127 ==> boot_up_message(node_id).node_id() == node_id && boot_up_message(
            node_id,
        ).cob() == Cob::NmtErrorControl,
{
    assert(ControllerView::initial(node_id).reset().outgoing =~= seq![boot_up_message(node_id)]);
}

/// Handing out the waiting messages leaves none: a second fetch right after
/// the first gets nothing and changes nothing. After a reset the first fetch
/// gets at least the boot-up message.
pub proof fn lemma_fetch_drains(controller: ControllerView)
    ensures
        controller.drained().outgoing.len() == 0,
        controller.drained().drained() == controller.drained(),
        controller.drained().nmt_state == controller.nmt_state,
        controller.drained().node_id == controller.node_id,
        controller.reset().outgoing.len() > 0,
{
}

/// What each command for this node does to a controller. Start makes a
/// pre-operational or stopped node operational, stop makes an operational or
/// pre-operational node stopped, enter-pre-operational makes an operational
/// or stopped node pre-operational; in any other state each of the three
/// changes nothing, and none of them touches the waiting messages. Either
/// reset, in every state, queues the boot-up message and leaves the node
/// pre-operational.
pub proof fn lemma_commands_for_this_node(controller: ControllerView)
    ensures
        controller.process(command_frame(0x1, controller.node_id)) == (if controller.nmt_state
            == NmtState::PreOperational || controller.nmt_state == NmtState::Stopped {
            controller.with_state(NmtState::Operational)
        } else {
            controller
        }),
        controller.process(command_frame(0x2, controller.node_id)) == (if controller.nmt_state
            == NmtState::Operational || controller.nmt_state == NmtState::PreOperational {
            controller.with_state(NmtState::Stopped)
        } else {
            controller
        }),
        controller.process(command_frame(0x80, controller.node_id)) == (if controller.nmt_state
            == NmtState::Operational || controller.nmt_state == NmtState::Stopped {
            controller.with_state(NmtState::PreOperational)
        } else {
            controller
        }),
        controller.process(command_frame(0x81, controller.node_id)) == controller.reset(),
        controller.process(command_frame(0x82, controller.node_id)) == controller.reset(),
{
}

/// A controller that has not been started stays initialising, with nothing
/// to send, until it is reset: start, stop and enter-pre-operational change
/// nothing in it.
pub proof fn lemma_commands_before_start(node_id: u8)
    ensures
        ControllerView::initial(node_id).process(command_frame(0x1, node_id))
            == ControllerView::initial(node_id),
        ControllerView::initial(node_id).process(command_frame(0x2, node_id))
            == ControllerView::initial(node_id),
        ControllerView::initial(node_id).process(command_frame(0x80, node_id))
            == ControllerView::initial(node_id),
{
}

/// Commands to a controller that has just been started or reset: start makes
/// it operational, stop makes it stopped, and a reset of the node queues the
/// boot-up message once more and leaves it pre-operational.
pub proof fn lemma_commands_after_start(controller: ControllerView)
    ensures
        controller.reset().process(command_frame(0x1, controller.node_id))
            == controller.reset().with_state(NmtState::Operational),
        controller.reset().process(command_frame(0x2, controller.node_id))
            == controller.reset().with_state(NmtState::Stopped),
        controller.reset().process(command_frame(0x81, controller.node_id))
            == controller.reset().reset(),
        controller.reset().reset().nmt_state == NmtState::PreOperational,
        controller.reset().reset().outgoing == controller.reset().outgoing.push(
            boot_up_message(controller.node_id),
        ),
{
}

/// The state only moves along these steps: a message taken in either leaves
/// the state as it was, or makes a pre-operational or stopped node
/// operational, an operational or pre-operational node stopped, or any node
/// pre-operational, the last from initialising only by a reset.
pub proof fn lemma_state_moves_along_the_steps(controller: ControllerView, msg: MessageView)
    ensures
        ({
            let before = controller.nmt_state;
            let after = controller.process(msg).nmt_state;
            ||| after == before
            ||| after == NmtState::Operational && (before == NmtState::PreOperational || before
                == NmtState::Stopped)
            ||| after == NmtState::Stopped && (before == NmtState::Operational || before
                == NmtState::PreOperational)
            ||| after == NmtState::PreOperational
        }),
        controller.process(msg).nmt_state != NmtState::Initialising || controller.nmt_state
            == NmtState::Initialising,
        controller.nmt_state == NmtState::Initialising && controller.process(msg).nmt_state
            != NmtState::Initialising ==> controller.process(msg) == controller.reset(),
{
}

/// A message that is no command for this node changes nothing: one of another
/// kind than `Nmt`, one whose payload is not two bytes long, one whose second
/// byte is not this node's id, and one with a command specifier that stands
/// for no command.
pub proof fn lemma_other_messages_change_nothing(controller: ControllerView, msg: MessageView)
    requires
        msg.cob() != Cob::Nmt || msg.data.len() != 2 || msg.data[1] != controller.node_id || (
        msg.data[0] != 0x1 && msg.data[0] != 0x2 && msg.data[0] != 0x80 && msg.data[0] != 0x81
            && msg.data[0] != 0x82),
    ensures
        controller.process(msg) == controller,
{
}

/// The node id never changes, and the waiting messages only ever grow by
/// boot-up messages of this node: a message taken in adds at most one.
pub proof fn lemma_process_keeps_node_id(controller: ControllerView, msg: MessageView)
    ensures
        controller.process(msg).node_id == controller.node_id,
        controller.process(msg).outgoing == controller.outgoing || controller.process(
            msg,
        ).outgoing == controller.outgoing.push(boot_up_message(controller.node_id)),
{
}

} // verus!
