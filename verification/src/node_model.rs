//! A node as a state machine: its channels side by side, and what it owes to its peers and to
//! its user.
use vstd::prelude::*;
use crate::chain_source::ChainSourceView;
use crate::model::{ChannelView, Effects, Step};
use crate::msgs::{Event, MessageView, RecipientOnionFields, UpdateAddHtlc};
use crate::types::{ChannelError, ChannelId, NodeId, OutPoint, PaymentHash, PaymentId, PaymentPreimage};

verus! {

/// What a node says of one of its channels.
#[derive(Clone, Copy, Debug, PartialEq, Eq)]
pub struct ChannelDetails {
    pub channel_id: ChannelId,
    pub user_channel_id: u128,
    pub counterparty_node_id: NodeId,
    /// The output that funds the channel, once there is one.
    pub funding_txo: Option<OutPoint>,
}

/// The way of a payment to a direct peer.
#[derive(Clone, Copy, Debug, PartialEq, Eq)]
pub struct Route {
    pub node_id: NodeId,
    pub channel_id: ChannelId,
    pub amount_msat: u64,
}

/// Why a payment was not taken.
#[derive(Clone, Copy, Debug, PartialEq, Eq)]
pub enum PaymentSendFailure {
    /// A payment with that identifier was sent before.
    DuplicatePayment,
    /// The channel refused it.
    Channel(ChannelError),
}

/// The contents of a `Node`.
#[verifier::ext_equal]
pub struct NodeView {
    pub node_id: NodeId,
    pub channels: Seq<ChannelView>,
    /// The messages that wait to be sent.
    pub pending_msg_events: Seq<MessageView>,
    /// What the user has not been told yet.
    pub pending_events: Seq<Event>,
    /// The channels whose monitors were updated, once for each update.
    pub added_monitors: Seq<ChannelId>,
    /// The payments that were sent.
    pub payments: Seq<PaymentId>,
    /// The HTLCs that are ready to be processed.
    pub pending_htlcs: Seq<UpdateAddHtlc>,
    /// The HTLCs that wait for their preimages.
    pub claimable_htlcs: Seq<UpdateAddHtlc>,
    pub chain_source: ChainSourceView,
}

/// The messages of the steps that the channels take one after the other.
pub open spec fn step_msgs(
    channels: Seq<ChannelView>,
    step: spec_fn(ChannelView) -> Step,
) -> Seq<MessageView>
    decreases channels.len(),
{
    if channels.len() == 0 {
        Seq::empty()
    } else {
        step_msgs(channels.drop_last(), step) + step(channels.last()).effects.msgs
    }
}

/// The position of the first HTLC whose hash is `digest`, or their number if none has it.
pub open spec fn hash_position(htlcs: Seq<UpdateAddHtlc>, digest: Seq<u8>) -> nat
    decreases htlcs.len(),
{
    if htlcs.len() == 0 || htlcs[0].payment_hash.0@ == digest {
        0
    } else {
        1 + hash_position(htlcs.drop_first(), digest)
    }
}

/// What the user is told of an HTLC that waits for its preimage.
pub open spec fn claimable_event(htlc: UpdateAddHtlc) -> Event {
    Event::PaymentClaimable {
        payment_hash: htlc.payment_hash,
        payment_secret: htlc.onion.payment_secret,
        amount_msat: htlc.amount_msat,
    }
}

/// What a node says of a channel.
pub open spec fn channel_details(channel: ChannelView) -> ChannelDetails {
    ChannelDetails {
        channel_id: channel.channel_id,
        user_channel_id: channel.user_channel_id,
        counterparty_node_id: channel.counterparty_node_id,
        funding_txo: Some(channel.funding_txo),
    }
}

impl NodeView {
    /// A node without channels.
    pub open spec fn fresh(node_id: NodeId) -> NodeView {
        NodeView {
            node_id,
            channels: Seq::empty(),
            pending_msg_events: Seq::empty(),
            pending_events: Seq::empty(),
            added_monitors: Seq::empty(),
            payments: Seq::empty(),
            pending_htlcs: Seq::empty(),
            claimable_htlcs: Seq::empty(),
            chain_source: ChainSourceView::empty(),
        }
    }

    /// The node with one channel more, whose funding output is watched on the chain.
    pub open spec fn with_opened(
        self,
        channel_id: ChannelId,
        user_channel_id: u128,
        counterparty_node_id: NodeId,
        announced: bool,
        funding_txo: OutPoint,
        funding_script: Seq<u8>,
    ) -> NodeView {
        NodeView {
            channels: self.channels.push(
                ChannelView::opened(
                    channel_id,
                    user_channel_id,
                    counterparty_node_id,
                    announced,
                    funding_txo,
                    funding_script,
                ),
            ),
            chain_source: self.chain_source.register(funding_txo, funding_script),
            ..self
        }
    }

    /// No two channels have one identifier, and each is well-formed.
    pub open spec fn wf(self) -> bool {
        &&& forall|i: int, j: int|
            0 <= i < j < self.channels.len() ==> (#[trigger] self.channels[i]).channel_id != (
            #[trigger] self.channels[j]).channel_id
        &&& forall|i: int| 0 <= i < self.channels.len() ==> (#[trigger] self.channels[i]).wf()
    }

    /// Whether the channel with the given identifier stands at position `i`.
    pub open spec fn is_at(self, i: int, channel_id: ChannelId) -> bool {
        0 <= i < self.channels.len() && self.channels[i].channel_id == channel_id
    }

    /// Whether the node has a channel with the given identifier.
    pub open spec fn has(self, channel_id: ChannelId) -> bool {
        exists|i: int| #[trigger] self.is_at(i, channel_id)
    }

    /// The position of the channel with the given identifier.
    pub open spec fn at(self, channel_id: ChannelId) -> int {
        choose|i: int| #[trigger] self.is_at(i, channel_id)
    }

    /// The channel with the given identifier.
    pub open spec fn channel(self, channel_id: ChannelId) -> ChannelView {
        self.channels[self.at(channel_id)]
    }

    /// The node with another state of the channel with the given identifier.
    pub open spec fn with_channel(self, channel_id: ChannelId, channel: ChannelView) -> NodeView {
        NodeView { channels: self.channels.update(self.at(channel_id), channel), ..self }
    }

    /// The node after a step of the channel with the given identifier.
    pub open spec fn after(self, channel_id: ChannelId, step: Step) -> NodeView {
        NodeView {
            pending_msg_events: self.pending_msg_events + step.effects.msgs,
            pending_events: self.pending_events + step.effects.events,
            added_monitors: self.added_monitors + Seq::new(
                step.effects.monitor_updates,
                |i: int| channel_id,
            ),
            pending_htlcs: self.pending_htlcs + step.effects.received,
            chain_source: match step.effects.registered {
                Some(txo) => self.chain_source.register(txo, step.channel.monitor.funding_script),
                None => self.chain_source,
            },
            ..self.with_channel(channel_id, step.channel)
        }
    }

    /// The node after it has tried a step of one channel, and whether it was refused.
    pub open spec fn run_any(
        self,
        channel_id: ChannelId,
        step: spec_fn(ChannelView) -> Result<Step, ChannelError>,
    ) -> (NodeView, Result<(), ChannelError>) {
        if !self.has(channel_id) {
            (self, Err(ChannelError::ChannelUnavailable))
        } else {
            match step(self.channel(channel_id)) {
                Ok(step) => (self.after(channel_id, step), Ok(())),
                Err(error) => (self, Err(error)),
            }
        }
    }

    /// The node after it has tried a step of one channel with the given peer, and whether
    /// it was refused.
    pub open spec fn run(
        self,
        channel_id: ChannelId,
        peer: NodeId,
        step: spec_fn(ChannelView) -> Result<Step, ChannelError>,
    ) -> (NodeView, Result<(), ChannelError>) {
        if self.has(channel_id) && self.channel(channel_id).counterparty_node_id != peer {
            (self, Err(ChannelError::ChannelUnavailable))
        } else {
            self.run_any(channel_id, step)
        }
    }

    /// The node after each of its channels has taken a step that only sends messages.
    pub open spec fn run_all(self, step: spec_fn(ChannelView) -> Step) -> NodeView {
        NodeView {
            channels: self.channels.map_values(|channel: ChannelView| step(channel).channel),
            pending_msg_events: self.pending_msg_events + step_msgs(self.channels, step),
            ..self
        }
    }

    /// Whether the acceptance of a teleport of the given channel waits to be sent.
    pub open spec fn ack_unsent(self, channel_id: ChannelId) -> bool {
        exists|i: int|
            0 <= i < self.pending_msg_events.len() && (
            #[trigger] self.pending_msg_events[i]).is_teleport_ack(channel_id)
    }

    /// The node after a peer has gone: its channels with the peer notice, and what waits to
    /// be sent to the peer is dropped.
    pub open spec fn peer_disconnected(self, peer: NodeId) -> NodeView {
        NodeView {
            channels: self.channels.map_values(
                |channel: ChannelView|
                    if channel.counterparty_node_id == peer {
                        channel.on_peer_disconnected(self.ack_unsent(channel.channel_id))
                    } else {
                        channel
                    },
            ),
            pending_msg_events: self.pending_msg_events.filter(
                |msg: MessageView| msg.to() != peer,
            ),
            ..self
        }
    }

    /// The node after a peer has come back.
    pub open spec fn peer_connected(self, peer: NodeId) -> NodeView {
        self.run_all(
            |channel: ChannelView|
                if channel.counterparty_node_id == peer {
                    channel.on_peer_connected()
                } else {
                    Step::to(channel)
                },
        )
    }

    /// The node after it has tried to send a payment, and whether it was refused.
    pub open spec fn send_payment(
        self,
        route: Route,
        payment_hash: PaymentHash,
        onion: RecipientOnionFields,
        payment_id: PaymentId,
    ) -> (NodeView, Result<(), PaymentSendFailure>) {
        if self.payments.contains(payment_id) {
            (self, Err(PaymentSendFailure::DuplicatePayment))
        } else {
            let (node, result) = self.run(
                route.channel_id,
                route.node_id,
                |c: ChannelView| c.send_htlc(route.amount_msat, payment_hash, onion),
            );
            match result {
                Ok(_) => (NodeView { payments: node.payments.push(payment_id), ..node }, Ok(())),
                Err(error) => (self, Err(PaymentSendFailure::Channel(error))),
            }
        }
    }

    /// The node after it has processed the HTLCs that are ready: the user is told of each.
    pub open spec fn process_pending_htlc_forwards(self) -> NodeView {
        NodeView {
            pending_htlcs: Seq::empty(),
            claimable_htlcs: self.claimable_htlcs + self.pending_htlcs,
            pending_events: self.pending_events + self.pending_htlcs.map_values(
                |htlc: UpdateAddHtlc| claimable_event(htlc),
            ),
            ..self
        }
    }

    /// The node after it has tried to claim the payment whose hash is `digest`, and whether
    /// it was refused.
    pub open spec fn claim(self, digest: Seq<u8>, payment_preimage: PaymentPreimage) -> (
        NodeView,
        Result<(), ChannelError>,
    ) {
        let i = hash_position(self.claimable_htlcs, digest) as int;
        if i >= self.claimable_htlcs.len() {
            (self, Err(ChannelError::UnexpectedState))
        } else {
            let htlc = self.claimable_htlcs[i];
            let (node, result) = self.run_any(
                htlc.channel_id,
                |c: ChannelView| c.claim_htlc(htlc.htlc_id, payment_preimage),
            );
            match result {
                Ok(_) => (
                    NodeView {
                        claimable_htlcs: node.claimable_htlcs.remove(i),
                        pending_events: node.pending_events.push(
                            Event::PaymentClaimed {
                                payment_hash: htlc.payment_hash,
                                amount_msat: htlc.amount_msat,
                            },
                        ),
                        ..node
                    },
                    Ok(()),
                ),
                Err(error) => (self, Err(error)),
            }
        }
    }
}

/// In a well-formed node a channel's position is unique.
pub proof fn lemma_at(node: NodeView, i: int, channel_id: ChannelId)
    requires
        node.wf(),
        node.is_at(i, channel_id),
    ensures
        node.has(channel_id),
        node.at(channel_id) == i,
        node.channel(channel_id) == node.channels[i],
{
    let j = node.at(channel_id);
    assert(node.is_at(j, channel_id));
    if i < j {
        assert(node.channels[i].channel_id != node.channels[j].channel_id);
    } else if j < i {
        assert(node.channels[j].channel_id != node.channels[i].channel_id);
    }
}

/// A channel that was opened under a new identifier is found under it.
pub proof fn lemma_opened(
    node: NodeView,
    channel_id: ChannelId,
    user_channel_id: u128,
    counterparty_node_id: NodeId,
    announced: bool,
    funding_txo: OutPoint,
    funding_script: Seq<u8>,
)
    requires
        !node.has(channel_id),
    ensures
        ({
            let after = node.with_opened(
                channel_id,
                user_channel_id,
                counterparty_node_id,
                announced,
                funding_txo,
                funding_script,
            );
            &&& after.has(channel_id)
            &&& after.channel(channel_id) == ChannelView::opened(
                channel_id,
                user_channel_id,
                counterparty_node_id,
                announced,
                funding_txo,
                funding_script,
            )
        }),
{
    let after = node.with_opened(
        channel_id,
        user_channel_id,
        counterparty_node_id,
        announced,
        funding_txo,
        funding_script,
    );
    let last = node.channels.len() as int;
    assert(after.is_at(last, channel_id));
    let i = after.at(channel_id);
    assert(after.is_at(i, channel_id));
    if i < last {
        assert(node.is_at(i, channel_id));
    }
}

/// Channels that keep their identifiers keep their positions.
pub proof fn lemma_same_ids(before: NodeView, after: NodeView, channel_id: ChannelId)
    requires
        before.wf(),
        before.has(channel_id),
        after.channels.len() == before.channels.len(),
        forall|i: int|
            0 <= i < before.channels.len() ==> (#[trigger] after.channels[i]).channel_id
                == before.channels[i].channel_id,
    ensures
        after.has(channel_id),
        after.at(channel_id) == before.at(channel_id),
        0 <= before.at(channel_id) < before.channels.len(),
        before.channel(channel_id).channel_id == channel_id,
{
    let i = before.at(channel_id);
    assert(before.is_at(i, channel_id));
    assert(after.is_at(i, channel_id));
    let j = after.at(channel_id);
    assert(after.is_at(j, channel_id));
    assert(before.is_at(j, channel_id));
    lemma_at(before, j, channel_id);
}

/// A step of one channel leaves every channel at its position.
pub proof fn lemma_positions_kept(
    before: NodeView,
    after: NodeView,
    channel_id: ChannelId,
    channel: ChannelView,
)
    requires
        before.wf(),
        before.has(channel_id),
        channel.channel_id == channel_id,
        after.channels == before.channels.update(before.at(channel_id), channel),
    ensures
        after.has(channel_id),
        after.at(channel_id) == before.at(channel_id),
        after.channel(channel_id) == channel,
        channel.wf() ==> after.wf(),
{
    assert(before.is_at(before.at(channel_id), channel_id));
    lemma_same_ids(before, after, channel_id);
}

/// The node after it has taken over what a step of the channel at position `i` asked for.
pub open spec fn taken_over(node: NodeView, i: int, effects: Effects) -> NodeView {
    let channel = node.channels[i];
    NodeView {
        pending_msg_events: node.pending_msg_events + effects.msgs,
        pending_events: node.pending_events + effects.events,
        added_monitors: node.added_monitors + Seq::new(
            effects.monitor_updates,
            |k: int| channel.channel_id,
        ),
        pending_htlcs: node.pending_htlcs + effects.received,
        chain_source: match effects.registered {
            Some(txo) => node.chain_source.register(txo, channel.monitor.funding_script),
            None => node.chain_source,
        },
        ..node
    }
}

} // verus!
