//! A node: its channels, and what it owes to its peers and to its user.
use vstd::prelude::*;
use crate::chain_source::ChainSource;
use crate::channel::{Channel, Outcome};
use crate::model::{ChannelView, Step};
use crate::monitor::ChannelMonitor;
use crate::msgs::{
    messages, ChannelReestablish, CommitmentSigned, Event, MessageSendEvent, MessageView,
    RecipientOnionFields, RevokeAndAck, Stfu, TeleportAbort, TeleportAck, TeleportComplete,
    TeleportCompleteAck, TeleportInit, UpdateAddHtlc, UpdateFulfillHtlc,
};
use crate::node_model::{
    channel_details, claimable_event, hash_position, lemma_at, step_msgs, taken_over, ChannelDetails,
    NodeView, PaymentSendFailure, Route,
};
use crate::outside::{hash_preimage, sha256_digest};
use crate::types::{
    bytes_equal, ChannelError, ChannelId, NodeId, OutPoint, PaymentHash, PaymentId, PaymentPreimage,
    ScriptBuf,
};

verus! {

/// A node.
pub struct Node {
    node_id: NodeId,
    channels: Vec<Channel>,
    pending_msg_events: Vec<MessageSendEvent>,
    pending_events: Vec<Event>,
    added_monitors: Vec<ChannelId>,
    payments: Vec<PaymentId>,
    pending_htlcs: Vec<UpdateAddHtlc>,
    claimable_htlcs: Vec<UpdateAddHtlc>,
    pub chain_source: ChainSource,
}

/// The contents of a sequence of channels.
pub open spec fn channel_views(channels: Seq<Channel>) -> Seq<ChannelView> {
    channels.map_values(|channel: Channel| channel@)
}

impl View for Node {
    type V = NodeView;

    closed spec fn view(&self) -> NodeView {
        NodeView {
            node_id: self.node_id,
            channels: channel_views(self.channels@),
            pending_msg_events: messages(self.pending_msg_events@),
            pending_events: self.pending_events@,
            added_monitors: self.added_monitors@,
            payments: self.payments@,
            pending_htlcs: self.pending_htlcs@,
            claimable_htlcs: self.claimable_htlcs@,
            chain_source: self.chain_source@,
        }
    }
}

impl Node {
    /// Whether the node is well-formed.
    pub open spec fn wf(self) -> bool {
        self@.wf()
    }

    /// A node without channels.
    pub fn new(node_id: NodeId) -> (node: Self)
        ensures
            node.wf(),
            node@ == NodeView::fresh(node_id),
    {
        let node = Node {
            node_id,
            channels: Vec::new(),
            pending_msg_events: Vec::new(),
            pending_events: Vec::new(),
            added_monitors: Vec::new(),
            payments: Vec::new(),
            pending_htlcs: Vec::new(),
            claimable_htlcs: Vec::new(),
            chain_source: ChainSource::new(),
        };
        assert(node@ =~= NodeView::fresh(node_id));
        node
    }

    /// The node's identifier.
    pub fn get_our_node_id(&self) -> (node_id: NodeId)
        ensures
            node_id == self@.node_id,
    {
        self.node_id
    }

    /// Looks a channel up.
    fn find(&self, channel_id: ChannelId) -> (i: Option<usize>)
        requires
            self.wf(),
        ensures
            match i {
                Some(i) => i < self.channels.len() && self@.has(channel_id) && self@.at(channel_id)
                    == i && self.channels@[i as int]@ == self@.channel(channel_id),
                None => !self@.has(channel_id),
            },
    {
        let mut i: usize = 0;
        while i < self.channels.len()
            invariant
                i <= self.channels.len(),
                self.wf(),
                forall|k: int| 0 <= k < i ==> !(#[trigger] self@.is_at(k, channel_id)),
            decreases self.channels.len() - i,
        {
            if self.channels[i].channel_id() == channel_id {
                proof {
                    assert(self@.is_at(i as int, channel_id));
                    lemma_at(self@, i as int, channel_id);
                }
                return Some(i);
            }
            i = i + 1;
        }
        None
    }

    /// Looks a channel with the given peer up.
    fn find_with(&self, channel_id: ChannelId, peer: NodeId) -> (i: Result<usize, ChannelError>)
        requires
            self.wf(),
        ensures
            match i {
                Ok(i) => i < self.channels.len() && self@.has(channel_id) && self@.at(channel_id)
                    == i && self.channels@[i as int]@ == self@.channel(channel_id) && self@.channel(
                    channel_id,
                ).counterparty_node_id == peer,
                Err(error) => error == ChannelError::ChannelUnavailable && (self@.has(channel_id)
                    ==> self@.channel(channel_id).counterparty_node_id != peer),
            },
    {
        match self.find(channel_id) {
            Some(i) => if self.channels[i].counterparty_node_id() == peer {
                Ok(i)
            } else {
                Err(ChannelError::ChannelUnavailable)
            },
            None => Err(ChannelError::ChannelUnavailable),
        }
    }

    /// Takes over what a step of the channel at position `i` has asked for.
    fn take_over(&mut self, i: usize, outcome: Outcome)
        requires
            i < old(self).channels.len(),
        ensures
            final(self)@ == taken_over(old(self)@, i as int, outcome@),
    {
        let mut outcome = outcome;
        let ghost given = outcome@;
        let ghost channel = self@.channels[i as int];
        let channel_id = self.channels[i].channel_id();
        if let Some(txo) = outcome.registered {
            self.chain_source.register(txo, self.channels[i].monitor().funding_script());
        }
        self.pending_msg_events.append(&mut outcome.msgs);
        self.pending_events.append(&mut outcome.events);
        self.pending_htlcs.append(&mut outcome.received);
        let mut k: usize = 0;
        let ghost counted = self.added_monitors@;
        let ghost rest = *self;
        while k < outcome.monitor_updates
            invariant
                k <= outcome.monitor_updates,
                channel_id == channel.channel_id,
                self.added_monitors@ == counted + Seq::new(k as nat, |j: int| channel.channel_id),
                *self == (Node { added_monitors: self.added_monitors, ..rest }),
            decreases outcome.monitor_updates - k,
        {
            self.added_monitors.push(channel_id);
            k = k + 1;
            assert(self.added_monitors@ =~= counted + Seq::new(
                k as nat,
                |j: int| channel.channel_id,
            ));
        }
        assert(self@.pending_msg_events =~= old(self)@.pending_msg_events + given.msgs);
    }

    /// Takes over what a step of the channel at position `i` has asked for, or hands its
    /// refusal on.
    fn conclude(&mut self, i: usize, outcome: Result<Outcome, ChannelError>) -> (result: Result<
        (),
        ChannelError,
    >)
        requires
            i < old(self).channels.len(),
        ensures
            match outcome {
                Ok(outcome) => result == Ok::<(), ChannelError>(()) && final(self)@ == taken_over(
                    old(self)@,
                    i as int,
                    outcome@,
                ),
                Err(error) => result == Err::<(), ChannelError>(error) && final(self)@ == old(
                    self,
                )@,
            },
    {
        match outcome {
            Ok(outcome) => {
                self.take_over(i, outcome);
                Ok(())
            },
            Err(error) => Err(error),
        }
    }

    /// Proposes to the peer to move a channel to another funding output.
    pub fn teleport_channel(
        &mut self,
        channel_id: &ChannelId,
        counterparty_node_id: &NodeId,
        new_funding_txo: OutPoint,
    ) -> (result: Result<(), ChannelError>)
        requires
            old(self).wf(),
        ensures
            final(self).wf(),
            (final(self)@, result) == old(self)@.run(
                *channel_id,
                *counterparty_node_id,
                |c: ChannelView| c.propose_teleport(new_funding_txo),
            ),
    {
        let i: usize = match self.find_with(*channel_id, *counterparty_node_id) {
            Ok(i) => i,
            Err(error) => return Err(error),
        };
        let outcome = self.channels[i].propose_teleport(new_funding_txo);
        assert(self@.channels =~= old(self)@.channels.update(i as int, self.channels@[i as int]@));
        self.conclude(i, outcome)
    }

    /// Accepts the peer's proposal to teleport a channel.
    pub fn ack_teleport(
        &mut self,
        channel_id: &ChannelId,
        counterparty_node_id: &NodeId,
    ) -> (result: Result<(), ChannelError>)
        requires
            old(self).wf(),
        ensures
            final(self).wf(),
            (final(self)@, result) == old(self)@.run(
                *channel_id,
                *counterparty_node_id,
                |c: ChannelView| c.accept_teleport(),
            ),
    {
        let i: usize = match self.find_with(*channel_id, *counterparty_node_id) {
            Ok(i) => i,
            Err(error) => return Err(error),
        };
        let outcome = self.channels[i].accept_teleport();
        assert(self@.channels =~= old(self)@.channels.update(i as int, self.channels@[i as int]@));
        self.conclude(i, outcome)
    }

    /// Declines the peer's proposal to teleport a channel.
    pub fn cancel_teleport(
        &mut self,
        channel_id: &ChannelId,
        counterparty_node_id: &NodeId,
    ) -> (result: Result<(), ChannelError>)
        requires
            old(self).wf(),
        ensures
            final(self).wf(),
            (final(self)@, result) == old(self)@.run(
                *channel_id,
                *counterparty_node_id,
                |c: ChannelView| c.cancel_teleport(),
            ),
    {
        let i: usize = match self.find_with(*channel_id, *counterparty_node_id) {
            Ok(i) => i,
            Err(error) => return Err(error),
        };
        let outcome = self.channels[i].cancel_teleport();
        assert(self@.channels =~= old(self)@.channels.update(i as int, self.channels@[i as int]@));
        self.conclude(i, outcome)
    }

    /// Lets a channel switch to the agreed funding output.
    pub fn complete_teleport(
        &mut self,
        channel_id: &ChannelId,
        counterparty_node_id: &NodeId,
    ) -> (result: Result<(), ChannelError>)
        requires
            old(self).wf(),
        ensures
            final(self).wf(),
            (final(self)@, result) == old(self)@.run(
                *channel_id,
                *counterparty_node_id,
                |c: ChannelView| c.complete_teleport(),
            ),
    {
        let i: usize = match self.find_with(*channel_id, *counterparty_node_id) {
            Ok(i) => i,
            Err(error) => return Err(error),
        };
        let outcome = self.channels[i].complete_teleport();
        assert(self@.channels =~= old(self)@.channels.update(i as int, self.channels@[i as int]@));
        self.conclude(i, outcome)
    }

    /// Handles an `stfu` from a peer.
    pub fn handle_stfu(
        &mut self,
        counterparty_node_id: NodeId,
        msg: &Stfu,
    ) -> (result: Result<(), ChannelError>)
        requires
            old(self).wf(),
        ensures
            final(self).wf(),
            (final(self)@, result) == old(self)@.run(
                msg.channel_id,
                counterparty_node_id,
                |c: ChannelView| c.on_stfu(*msg),
            ),
    {
        let i: usize = match self.find_with(msg.channel_id, counterparty_node_id) {
            Ok(i) => i,
            Err(error) => return Err(error),
        };
        let outcome = self.channels[i].on_stfu(msg);
        assert(self@.channels =~= old(self)@.channels.update(i as int, self.channels@[i as int]@));
        self.conclude(i, outcome)
    }

    /// Handles a `teleport_init` from a peer.
    pub fn handle_teleport_init(
        &mut self,
        counterparty_node_id: NodeId,
        msg: &TeleportInit,
    ) -> (result: Result<(), ChannelError>)
        requires
            old(self).wf(),
        ensures
            final(self).wf(),
            (final(self)@, result) == old(self)@.run(
                msg.channel_id,
                counterparty_node_id,
                |c: ChannelView| c.on_teleport_init(*msg),
            ),
    {
        let i: usize = match self.find_with(msg.channel_id, counterparty_node_id) {
            Ok(i) => i,
            Err(error) => return Err(error),
        };
        let outcome = self.channels[i].on_teleport_init(msg);
        assert(self@.channels =~= old(self)@.channels.update(i as int, self.channels@[i as int]@));
        self.conclude(i, outcome)
    }

    /// Handles a `teleport_ack` from a peer.
    pub fn handle_teleport_ack(
        &mut self,
        counterparty_node_id: NodeId,
        msg: &TeleportAck,
    ) -> (result: Result<(), ChannelError>)
        requires
            old(self).wf(),
        ensures
            final(self).wf(),
            (final(self)@, result) == old(self)@.run(
                msg.channel_id,
                counterparty_node_id,
                |c: ChannelView| c.on_teleport_ack(),
            ),
    {
        let i: usize = match self.find_with(msg.channel_id, counterparty_node_id) {
            Ok(i) => i,
            Err(error) => return Err(error),
        };
        let outcome = self.channels[i].on_teleport_ack();
        assert(self@.channels =~= old(self)@.channels.update(i as int, self.channels@[i as int]@));
        self.conclude(i, outcome)
    }

    /// Handles a `teleport_abort` from a peer.
    pub fn handle_teleport_abort(
        &mut self,
        counterparty_node_id: NodeId,
        msg: &TeleportAbort,
    ) -> (result: Result<(), ChannelError>)
        requires
            old(self).wf(),
        ensures
            final(self).wf(),
            (final(self)@, result) == old(self)@.run(
                msg.channel_id,
                counterparty_node_id,
                |c: ChannelView| c.on_teleport_abort(),
            ),
    {
        let i: usize = match self.find_with(msg.channel_id, counterparty_node_id) {
            Ok(i) => i,
            Err(error) => return Err(error),
        };
        let outcome = self.channels[i].on_teleport_abort();
        assert(self@.channels =~= old(self)@.channels.update(i as int, self.channels@[i as int]@));
        self.conclude(i, outcome)
    }

    /// Handles a `teleport_complete` from a peer.
    pub fn handle_teleport_complete(
        &mut self,
        counterparty_node_id: NodeId,
        msg: &TeleportComplete,
    ) -> (result: Result<(), ChannelError>)
        requires
            old(self).wf(),
        ensures
            final(self).wf(),
            (final(self)@, result) == old(self)@.run(
                msg.channel_id,
                counterparty_node_id,
                |c: ChannelView| c.on_teleport_complete(),
            ),
    {
        let i: usize = match self.find_with(msg.channel_id, counterparty_node_id) {
            Ok(i) => i,
            Err(error) => return Err(error),
        };
        let outcome = self.channels[i].on_teleport_complete();
        assert(self@.channels =~= old(self)@.channels.update(i as int, self.channels@[i as int]@));
        self.conclude(i, outcome)
    }

    /// Handles a `teleport_complete_ack` from a peer.
    pub fn handle_teleport_complete_ack(
        &mut self,
        counterparty_node_id: NodeId,
        msg: &TeleportCompleteAck,
    ) -> (result: Result<(), ChannelError>)
        requires
            old(self).wf(),
        ensures
            final(self).wf(),
            (final(self)@, result) == old(self)@.run(
                msg.channel_id,
                counterparty_node_id,
                |c: ChannelView| c.on_teleport_complete_ack(),
            ),
    {
        let i: usize = match self.find_with(msg.channel_id, counterparty_node_id) {
            Ok(i) => i,
            Err(error) => return Err(error),
        };
        let outcome = self.channels[i].on_teleport_complete_ack();
        assert(self@.channels =~= old(self)@.channels.update(i as int, self.channels@[i as int]@));
        self.conclude(i, outcome)
    }

    /// Handles a `commitment_signed` from a peer.
    pub fn handle_commitment_signed(
        &mut self,
        counterparty_node_id: NodeId,
        msg: &CommitmentSigned,
    ) -> (result: Result<(), ChannelError>)
        requires
            old(self).wf(),
        ensures
            final(self).wf(),
            (final(self)@, result) == old(self)@.run(
                msg.channel_id,
                counterparty_node_id,
                |c: ChannelView| c.on_commitment_signed(*msg),
            ),
    {
        let i: usize = match self.find_with(msg.channel_id, counterparty_node_id) {
            Ok(i) => i,
            Err(error) => return Err(error),
        };
        let outcome = self.channels[i].on_commitment_signed(msg);
        assert(self@.channels =~= old(self)@.channels.update(i as int, self.channels@[i as int]@));
        self.conclude(i, outcome)
    }

    /// Handles a `revoke_and_ack` from a peer.
    pub fn handle_revoke_and_ack(
        &mut self,
        counterparty_node_id: NodeId,
        msg: &RevokeAndAck,
    ) -> (result: Result<(), ChannelError>)
        requires
            old(self).wf(),
        ensures
            final(self).wf(),
            (final(self)@, result) == old(self)@.run(
                msg.channel_id,
                counterparty_node_id,
                |c: ChannelView| c.on_revoke_and_ack(),
            ),
    {
        let i: usize = match self.find_with(msg.channel_id, counterparty_node_id) {
            Ok(i) => i,
            Err(error) => return Err(error),
        };
        let outcome = self.channels[i].on_revoke_and_ack();
        assert(self@.channels =~= old(self)@.channels.update(i as int, self.channels@[i as int]@));
        self.conclude(i, outcome)
    }

    /// Handles a `channel_reestablish` from a peer.
    pub fn handle_channel_reestablish(
        &mut self,
        counterparty_node_id: NodeId,
        msg: &ChannelReestablish,
    ) -> (result: Result<(), ChannelError>)
        requires
            old(self).wf(),
        ensures
            final(self).wf(),
            (final(self)@, result) == old(self)@.run(
                msg.channel_id,
                counterparty_node_id,
                |c: ChannelView| c.on_channel_reestablish(*msg),
            ),
    {
        let i: usize = match self.find_with(msg.channel_id, counterparty_node_id) {
            Ok(i) => i,
            Err(error) => return Err(error),
        };
        let outcome = self.channels[i].on_channel_reestablish(msg);
        assert(self@.channels =~= old(self)@.channels.update(i as int, self.channels@[i as int]@));
        self.conclude(i, outcome)
    }

    /// Handles an `update_add_htlc` from a peer.
    pub fn handle_update_add_htlc(
        &mut self,
        counterparty_node_id: NodeId,
        msg: &UpdateAddHtlc,
    ) -> (result: Result<(), ChannelError>)
        requires
            old(self).wf(),
        ensures
            final(self).wf(),
            (final(self)@, result) == old(self)@.run(
                msg.channel_id,
                counterparty_node_id,
                |c: ChannelView| c.on_update_add_htlc(*msg),
            ),
    {
        let i: usize = match self.find_with(msg.channel_id, counterparty_node_id) {
            Ok(i) => i,
            Err(error) => return Err(error),
        };
        let outcome = self.channels[i].on_update_add_htlc(msg);
        assert(self@.channels =~= old(self)@.channels.update(i as int, self.channels@[i as int]@));
        self.conclude(i, outcome)
    }

    /// Opens a channel. Its identifier has to be new to the node.
    pub fn open_channel(
        &mut self,
        channel_id: ChannelId,
        user_channel_id: u128,
        counterparty_node_id: NodeId,
        announced: bool,
        funding_txo: OutPoint,
        funding_script: ScriptBuf,
    ) -> (result: Result<(), ChannelError>)
        requires
            old(self).wf(),
        ensures
            final(self).wf(),
            old(self)@.has(channel_id) ==> result == Err::<(), ChannelError>(
                ChannelError::UnexpectedState,
            ) && final(self)@ == old(self)@,
            !old(self)@.has(channel_id) ==> result == Ok::<(), ChannelError>(()) && final(self)@
                == old(self)@.with_opened(
                channel_id,
                user_channel_id,
                counterparty_node_id,
                announced,
                funding_txo,
                funding_script@,
            ),
    {
        if self.find(channel_id).is_some() {
            return Err(ChannelError::UnexpectedState);
        }
        self.chain_source.register(funding_txo, &funding_script);
        let channel = Channel::new(
            channel_id,
            user_channel_id,
            counterparty_node_id,
            announced,
            funding_txo,
            funding_script,
        );
        self.channels.push(channel);
        proof {
            assert(self@.channels =~= old(self)@.channels.push(channel@));
            assert forall|i: int| 0 <= i < old(self)@.channels.len() implies (
            #[trigger] self@.channels[i]).channel_id != channel_id by {
                assert(!old(self)@.is_at(i, channel_id));
            }
        }
        Ok(())
    }

    /// What the node has asked to be told about the chain.
    pub fn chain_source(&self) -> (source: &ChainSource)
        ensures
            source@ == self@.chain_source,
    {
        &self.chain_source
    }

    /// Stops to watch an output on the chain, and its transaction.
    pub fn forget_output(&mut self, outpoint: OutPoint, script_pubkey: ScriptBuf)
        requires
            old(self).wf(),
        ensures
            final(self).wf(),
            final(self)@ == (NodeView {
                chain_source: old(self)@.chain_source.unregister(outpoint, script_pubkey@),
                ..old(self)@
            }),
    {
        self.chain_source.remove_watched_txn_and_outputs(outpoint, script_pubkey);
    }

    /// What the node says of its channels, in the order in which they were opened.
    pub fn list_channels(&self) -> (list: Vec<ChannelDetails>)
        ensures
            list@ == self@.channels.map_values(|channel: ChannelView| channel_details(channel)),
    {
        let mut list: Vec<ChannelDetails> = Vec::new();
        let mut i: usize = 0;
        while i < self.channels.len()
            invariant
                i <= self.channels.len(),
                list.len() == i,
                forall|k: int|
                    0 <= k < i ==> #[trigger] list@[k] == channel_details(self@.channels[k]),
            decreases self.channels.len() - i,
        {
            list.push(
                ChannelDetails {
                    channel_id: self.channels[i].channel_id(),
                    user_channel_id: self.channels[i].user_channel_id(),
                    counterparty_node_id: self.channels[i].counterparty_node_id(),
                    funding_txo: Some(self.channels[i].funding_txo()),
                },
            );
            i = i + 1;
        }
        assert(list@ =~= self@.channels.map_values(
            |channel: ChannelView| channel_details(channel),
        ));
        list
    }

    /// The monitor of a channel.
    pub fn get_monitor(&self, channel_id: ChannelId) -> (monitor: Option<&ChannelMonitor>)
        requires
            self.wf(),
        ensures
            monitor is Some == self@.has(channel_id),
            monitor matches Some(m) ==> m@ == self@.channel(channel_id).monitor,
    {
        match self.find(channel_id) {
            Some(i) => Some(self.channels[i].monitor()),
            None => None,
        }
    }

    /// Takes the messages that wait to be sent.
    pub fn get_and_clear_pending_msg_events(&mut self) -> (events: Vec<MessageSendEvent>)
        ensures
            messages(events@) == old(self)@.pending_msg_events,
            final(self)@ == (NodeView { pending_msg_events: Seq::empty(), ..old(self)@ }),
    {
        let mut events: Vec<MessageSendEvent> = Vec::new();
        events.append(&mut self.pending_msg_events);
        assert(messages(self.pending_msg_events@) =~= Seq::<MessageView>::empty());
        assert(messages(events@) =~= old(self)@.pending_msg_events);
        events
    }

    /// Takes what the user has not been told yet.
    pub fn get_and_clear_pending_events(&mut self) -> (events: Vec<Event>)
        ensures
            events@ == old(self)@.pending_events,
            final(self)@ == (NodeView { pending_events: Seq::empty(), ..old(self)@ }),
    {
        let mut events: Vec<Event> = Vec::new();
        events.append(&mut self.pending_events);
        events
    }

    /// Takes the list of monitor updates made since it was taken last.
    pub fn take_added_monitors(&mut self) -> (added: Vec<ChannelId>)
        ensures
            added@ == old(self)@.added_monitors,
            final(self)@ == (NodeView { added_monitors: Seq::empty(), ..old(self)@ }),
    {
        let mut added: Vec<ChannelId> = Vec::new();
        added.append(&mut self.added_monitors);
        added
    }

    /// Whether the acceptance of a teleport of the given channel waits to be sent.
    fn ack_unsent(&self, channel_id: ChannelId) -> (r: bool)
        ensures
            r == self@.ack_unsent(channel_id),
    {
        let mut i: usize = 0;
        while i < self.pending_msg_events.len()
            invariant
                i <= self.pending_msg_events.len(),
                forall|k: int|
                    0 <= k < i ==> !(#[trigger] self@.pending_msg_events[k]).is_teleport_ack(
                        channel_id,
                    ),
            decreases self.pending_msg_events.len() - i,
        {
            if self.pending_msg_events[i].is_teleport_ack(channel_id) {
                assert(self@.pending_msg_events[i as int].is_teleport_ack(channel_id));
                return true;
            }
            i = i + 1;
        }
        false
    }

    /// Drops what waits to be sent to a peer.
    fn drop_messages_to(&mut self, peer: NodeId)
        ensures
            final(self)@ == (NodeView {
                pending_msg_events: old(self)@.pending_msg_events.filter(
                    |msg: MessageView| msg.to() != peer,
                ),
                ..old(self)@
            }),
    {
        let ghost keep = |msg: MessageView| msg.to() != peer;
        let ghost all = self@.pending_msg_events;
        let mut i: usize = 0;
        let ghost mut seen: int = 0;
        assert(all.take(0).filter(keep) =~= Seq::<MessageView>::empty()) by {
            reveal(Seq::filter);
        }
        assert(all.skip(0) =~= all);
        while i < self.pending_msg_events.len()
            invariant
                i <= self.pending_msg_events.len(),
                0 <= seen <= all.len(),
                keep == (|msg: MessageView| msg.to() != peer),
                self@ == (NodeView { pending_msg_events: self@.pending_msg_events, ..old(self)@ }),
                all.take(seen).filter(keep).len() == i,
                self@.pending_msg_events == all.take(seen).filter(keep) + all.skip(seen),
            decreases self.pending_msg_events.len() - i,
        {
            proof {
                assert(all.take(seen + 1).drop_last() =~= all.take(seen));
                assert(all.take(seen + 1).last() == all[seen]);
                assert(self@.pending_msg_events[i as int] == all[seen]);
                reveal(Seq::filter);
            }
            let ghost before = self@.pending_msg_events;
            if self.pending_msg_events[i].node_id() == peer {
                self.pending_msg_events.remove(i);
                assert(self@.pending_msg_events =~= before.remove(i as int));
                assert(before.remove(i as int) =~= all.take(seen + 1).filter(keep) + all.skip(
                    seen + 1,
                ));
            } else {
                assert(before =~= all.take(seen + 1).filter(keep) + all.skip(seen + 1));
                i = i + 1;
            }
            proof {
                seen = seen + 1;
            }
        }
        assert(all.take(seen) =~= all);
        assert(self@.pending_msg_events =~= all.filter(keep));
    }

    /// Handles the loss of the connection to a peer.
    pub fn peer_disconnected(&mut self, counterparty_node_id: NodeId)
        requires
            old(self).wf(),
        ensures
            final(self).wf(),
            final(self)@ == old(self)@.peer_disconnected(counterparty_node_id),
    {
        let ghost target = old(self)@.peer_disconnected(counterparty_node_id).channels;
        let mut i: usize = 0;
        while i < self.channels.len()
            invariant
                i <= self.channels.len(),
                self.channels.len() == old(self).channels.len(),
                old(self).wf(),
                target == old(self)@.peer_disconnected(counterparty_node_id).channels,
                self@ == (NodeView { channels: self@.channels, ..old(self)@ }),
                forall|k: int| 0 <= k < i ==> (#[trigger] self@.channels[k]) == target[k],
                forall|k: int|
                    0 <= k < i ==> (#[trigger] self@.channels[k]).wf()
                        && self@.channels[k].channel_id == old(self)@.channels[k].channel_id,
                forall|k: int|
                    i <= k < self.channels.len() ==> (#[trigger] self@.channels[k])
                        == old(self)@.channels[k],
            decreases self.channels.len() - i,
        {
            assert(self@.channels[i as int] == old(self)@.channels[i as int]);
            if self.channels[i].counterparty_node_id() == counterparty_node_id {
                let ack_unsent = self.ack_unsent(self.channels[i].channel_id());
                let ghost before = self@;
                assert(before.pending_msg_events == old(self)@.pending_msg_events);
                assert(ack_unsent == old(self)@.ack_unsent(before.channels[i as int].channel_id));
                self.channels[i].on_peer_disconnected(ack_unsent);
                assert(self@.channels =~= before.channels.update(
                    i as int,
                    self@.channels[i as int],
                ));
            }
            assert(self@.channels[i as int] == target[i as int]);
            i = i + 1;
        }
        assert(self@.channels =~= target);
        self.drop_messages_to(counterparty_node_id);
    }

    /// Handles the return of a peer.
    pub fn peer_connected(&mut self, counterparty_node_id: NodeId)
        requires
            old(self).wf(),
        ensures
            final(self).wf(),
            final(self)@ == old(self)@.peer_connected(counterparty_node_id),
    {
        let ghost step = |channel: ChannelView|
            if channel.counterparty_node_id == counterparty_node_id {
                channel.on_peer_connected()
            } else {
                Step::to(channel)
            };
        let ghost first = old(self)@.channels;
        assert(step_msgs(first.take(0), step) =~= Seq::<MessageView>::empty());
        let mut i: usize = 0;
        while i < self.channels.len()
            invariant
                i <= self.channels.len(),
                self.channels.len() == first.len(),
                first == old(self)@.channels,
                old(self).wf(),
                step == (|channel: ChannelView|
                    if channel.counterparty_node_id == counterparty_node_id {
                        channel.on_peer_connected()
                    } else {
                        Step::to(channel)
                    }),
                self@ == (NodeView {
                    channels: self@.channels,
                    pending_msg_events: self@.pending_msg_events,
                    ..old(self)@
                }),
                self@.pending_msg_events == old(self)@.pending_msg_events + step_msgs(
                    first.take(i as int),
                    step,
                ),
                forall|k: int|
                    0 <= k < i ==> (#[trigger] self@.channels[k]) == step(first[k]).channel,
                forall|k: int|
                    0 <= k < i ==> (#[trigger] self@.channels[k]).wf()
                        && self@.channels[k].channel_id == first[k].channel_id,
                forall|k: int|
                    i <= k < self.channels.len() ==> (#[trigger] self@.channels[k]) == first[k],
            decreases self.channels.len() - i,
        {
            let ghost before = self@;
            assert(self@.channels[i as int] == first[i as int]);
            proof {
                assert(first.take(i + 1).drop_last() =~= first.take(i as int));
                assert(first.take(i + 1).last() == first[i as int]);
            }
            if self.channels[i].counterparty_node_id() == counterparty_node_id {
                let mut outcome = self.channels[i].on_peer_connected();
                let ghost msgs = outcome@.msgs;
                self.pending_msg_events.append(&mut outcome.msgs);
                assert(self@.channels =~= before.channels.update(
                    i as int,
                    self@.channels[i as int],
                ));
                assert(self@.pending_msg_events =~= before.pending_msg_events + msgs);
                assert(self@.pending_msg_events =~= old(self)@.pending_msg_events + step_msgs(
                    first.take(i + 1),
                    step,
                ));
            } else {
                assert(step_msgs(first.take(i + 1), step) =~= step_msgs(
                    first.take(i as int),
                    step,
                ));
            }
            i = i + 1;
        }
        assert(first.take(i as int) =~= first);
        assert(self@.channels =~= first.map_values(|channel: ChannelView| step(channel).channel));
    }

    /// Handles a tick of the timer: peers that owe an answer for too long are disconnected.
    pub fn timer_tick_occurred(&mut self)
        requires
            old(self).wf(),
        ensures
            final(self).wf(),
            final(self)@ == old(self)@.run_all(|channel: ChannelView| channel.on_timer_tick()),
    {
        let ghost step = |channel: ChannelView| channel.on_timer_tick();
        let ghost first = old(self)@.channels;
        assert(step_msgs(first.take(0), step) =~= Seq::<MessageView>::empty());
        let mut i: usize = 0;
        while i < self.channels.len()
            invariant
                i <= self.channels.len(),
                self.channels.len() == first.len(),
                first == old(self)@.channels,
                old(self).wf(),
                step == (|channel: ChannelView| channel.on_timer_tick()),
                self@ == (NodeView {
                    channels: self@.channels,
                    pending_msg_events: self@.pending_msg_events,
                    ..old(self)@
                }),
                self@.pending_msg_events == old(self)@.pending_msg_events + step_msgs(
                    first.take(i as int),
                    step,
                ),
                forall|k: int|
                    0 <= k < i ==> (#[trigger] self@.channels[k]) == step(first[k]).channel,
                forall|k: int|
                    0 <= k < i ==> (#[trigger] self@.channels[k]).wf()
                        && self@.channels[k].channel_id == first[k].channel_id,
                forall|k: int|
                    i <= k < self.channels.len() ==> (#[trigger] self@.channels[k]) == first[k],
            decreases self.channels.len() - i,
        {
            let ghost before = self@;
            assert(self@.channels[i as int] == first[i as int]);
            proof {
                assert(first.take(i + 1).drop_last() =~= first.take(i as int));
                assert(first.take(i + 1).last() == first[i as int]);
            }
            let mut outcome = self.channels[i].on_timer_tick();
            let ghost msgs = outcome@.msgs;
            self.pending_msg_events.append(&mut outcome.msgs);
            assert(self@.channels =~= before.channels.update(i as int, self@.channels[i as int]));
            assert(self@.pending_msg_events =~= before.pending_msg_events + msgs);
            assert(self@.pending_msg_events =~= old(self)@.pending_msg_events + step_msgs(
                first.take(i + 1),
                step,
            ));
            i = i + 1;
        }
        assert(first.take(i as int) =~= first);
        assert(self@.channels =~= first.map_values(|channel: ChannelView| step(channel).channel));
    }

    /// Whether a payment with the given identifier was sent.
    fn knows_payment(&self, payment_id: PaymentId) -> (r: bool)
        ensures
            r == self@.payments.contains(payment_id),
    {
        let mut i: usize = 0;
        while i < self.payments.len()
            invariant
                i <= self.payments.len(),
                forall|k: int| 0 <= k < i ==> self.payments@[k] != payment_id,
            decreases self.payments.len() - i,
        {
            if self.payments[i] == payment_id {
                assert(self.payments@[i as int] == payment_id);
                return true;
            }
            i = i + 1;
        }
        false
    }

    /// Sends a payment to a direct peer.
    pub fn send_payment_with_route(
        &mut self,
        route: Route,
        payment_hash: PaymentHash,
        recipient_onion: RecipientOnionFields,
        payment_id: PaymentId,
    ) -> (result: Result<(), PaymentSendFailure>)
        requires
            old(self).wf(),
        ensures
            final(self).wf(),
            (final(self)@, result) == old(self)@.send_payment(
                route,
                payment_hash,
                recipient_onion,
                payment_id,
            ),
    {
        if self.knows_payment(payment_id) {
            return Err(PaymentSendFailure::DuplicatePayment);
        }
        let i: usize = match self.find_with(route.channel_id, route.node_id) {
            Ok(i) => i,
            Err(error) => return Err(PaymentSendFailure::Channel(error)),
        };
        match self.channels[i].send_htlc(route.amount_msat, payment_hash, recipient_onion) {
            Ok(outcome) => {
                assert(self@.channels =~= old(self)@.channels.update(
                    i as int,
                    self@.channels[i as int],
                ));
                self.take_over(i, outcome);
                self.payments.push(payment_id);
                Ok(())
            },
            Err(error) => {
                assert(self@ =~= old(self)@);
                Err(PaymentSendFailure::Channel(error))
            },
        }
    }

    /// Processes the HTLCs that are ready.
    pub fn process_pending_htlc_forwards(&mut self)
        requires
            old(self).wf(),
        ensures
            final(self).wf(),
            final(self)@ == old(self)@.process_pending_htlc_forwards(),
    {
        let ghost ready = self.pending_htlcs@;
        let ghost told = self.pending_events@;
        let mut i: usize = 0;
        while i < self.pending_htlcs.len()
            invariant
                i <= self.pending_htlcs.len(),
                ready == self.pending_htlcs@,
                told == old(self).pending_events@,
                self@ == (NodeView { pending_events: self@.pending_events, ..old(self)@ }),
                self.pending_events@ == told + ready.take(i as int).map_values(
                    |htlc: UpdateAddHtlc| claimable_event(htlc),
                ),
            decreases self.pending_htlcs.len() - i,
        {
            let htlc: UpdateAddHtlc = self.pending_htlcs[i];
            self.pending_events.push(
                Event::PaymentClaimable {
                    payment_hash: htlc.payment_hash,
                    payment_secret: htlc.onion.payment_secret,
                    amount_msat: htlc.amount_msat,
                },
            );
            i = i + 1;
            assert(self.pending_events@ =~= told + ready.take(i as int).map_values(
                |htlc: UpdateAddHtlc| claimable_event(htlc),
            ));
        }
        assert(ready.take(i as int) =~= ready);
        self.claimable_htlcs.append(&mut self.pending_htlcs);
    }

    /// The position of the first HTLC with the given hash that waits for its preimage.
    fn find_claimable(&self, payment_hash: PaymentHash) -> (i: usize)
        ensures
            i == hash_position(self@.claimable_htlcs, payment_hash.0@),
            i <= self.claimable_htlcs.len(),
    {
        let ghost htlcs = self.claimable_htlcs@;
        let mut i: usize = 0;
        assert(htlcs.skip(0) =~= htlcs);
        while i < self.claimable_htlcs.len()
            invariant
                htlcs == self.claimable_htlcs@,
                i <= self.claimable_htlcs.len(),
                hash_position(htlcs, payment_hash.0@) == i + hash_position(
                    htlcs.skip(i as int),
                    payment_hash.0@,
                ),
            decreases self.claimable_htlcs.len() - i,
        {
            if bytes_equal(&self.claimable_htlcs[i].payment_hash.0, &payment_hash.0) {
                return i;
            }
            assert(htlcs.skip(i as int).drop_first() =~= htlcs.skip(i + 1));
            i = i + 1;
        }
        i
    }

    /// Claims the payment with the given hash. The preimage is taken to be that of the hash.
    pub fn claim_payment(&mut self, payment_hash: PaymentHash, payment_preimage: PaymentPreimage) -> (
        result: Result<(), ChannelError>)
        requires
            old(self).wf(),
        ensures
            final(self).wf(),
            (final(self)@, result) == old(self)@.claim(payment_hash.0@, payment_preimage),
    {
        let k: usize = self.find_claimable(payment_hash);
        if k >= self.claimable_htlcs.len() {
            return Err(ChannelError::UnexpectedState);
        }
        let htlc: UpdateAddHtlc = self.claimable_htlcs[k];
        let i: usize = match self.find(htlc.channel_id) {
            Some(i) => i,
            None => return Err(ChannelError::ChannelUnavailable),
        };
        match self.channels[i].claim_htlc(htlc.htlc_id, payment_preimage) {
            Ok(outcome) => {
                assert(self@.channels =~= old(self)@.channels.update(
                    i as int,
                    self@.channels[i as int],
                ));
                self.take_over(i, outcome);
                self.claimable_htlcs.remove(k);
                self.pending_events.push(
                    Event::PaymentClaimed {
                        payment_hash: htlc.payment_hash,
                        amount_msat: htlc.amount_msat,
                    },
                );
                Ok(())
            },
            Err(error) => {
                assert(self@ =~= old(self)@);
                Err(error)
            },
        }
    }

    /// Claims the payment that the given preimage unlocks.
    pub fn claim_funds(&mut self, payment_preimage: PaymentPreimage) -> (result: Result<
        (),
        ChannelError,
    >)
        requires
            old(self).wf(),
        ensures
            final(self).wf(),
            (final(self)@, result) == old(self)@.claim(
                sha256_digest(payment_preimage.0@),
                payment_preimage,
            ),
    {
        let payment_hash = hash_preimage(&payment_preimage);
        self.claim_payment(payment_hash, payment_preimage)
    }

    /// Handles a claim from a peer, whose preimage has the given hash.
    pub fn handle_fulfill_with_hash(
        &mut self,
        counterparty_node_id: NodeId,
        msg: &UpdateFulfillHtlc,
        payment_hash: PaymentHash,
    ) -> (result: Result<(), ChannelError>)
        requires
            old(self).wf(),
        ensures
            final(self).wf(),
            (final(self)@, result) == old(self)@.run(
                msg.channel_id,
                counterparty_node_id,
                |c: ChannelView| c.on_update_fulfill_htlc(*msg, payment_hash.0@),
            ),
    {
        let i: usize = match self.find_with(msg.channel_id, counterparty_node_id) {
            Ok(i) => i,
            Err(error) => return Err(error),
        };
        let outcome = self.channels[i].on_update_fulfill_htlc(msg, payment_hash);
        assert(self@.channels =~= old(self)@.channels.update(i as int, self.channels@[i as int]@));
        self.conclude(i, outcome)
    }

    /// Handles an `update_fulfill_htlc` from a peer.
    pub fn handle_update_fulfill_htlc(
        &mut self,
        counterparty_node_id: NodeId,
        msg: &UpdateFulfillHtlc,
    ) -> (result: Result<(), ChannelError>)
        requires
            old(self).wf(),
        ensures
            final(self).wf(),
            (final(self)@, result) == old(self)@.run(
                msg.channel_id,
                counterparty_node_id,
                |c: ChannelView|
                    c.on_update_fulfill_htlc(*msg, sha256_digest(msg.payment_preimage.0@)),
            ),
    {
        let payment_hash = hash_preimage(&msg.payment_preimage);
        self.handle_fulfill_with_hash(counterparty_node_id, msg, payment_hash)
    }
}

} // verus!
