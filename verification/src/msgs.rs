//! What nodes say to each other, and what a node tells its user.
use vstd::prelude::*;
use crate::types::{
    BitcoinOutPoint, ChannelId, NodeId, OutPoint, PaymentHash, PaymentPreimage, PaymentSecret, Txid,
};

verus! {

/// Asks for quiescence, or grants it.
#[derive(Clone, Copy, Debug, PartialEq, Eq)]
pub struct Stfu {
    pub channel_id: ChannelId,
    /// Whether the sender is the one that asks.
    pub initiator: bool,
}

/// Proposes to move a quiescent channel to another funding output.
#[derive(Clone, Copy, Debug, PartialEq, Eq)]
pub struct TeleportInit {
    pub channel_id: ChannelId,
    pub new_funding_txo: OutPoint,
}

/// Accepts a proposed teleport.
#[derive(Clone, Copy, Debug, PartialEq, Eq)]
pub struct TeleportAck {
    pub channel_id: ChannelId,
}

/// Says that the channel is to switch to the new funding output.
#[derive(Clone, Copy, Debug, PartialEq, Eq)]
pub struct TeleportComplete {
    pub channel_id: ChannelId,
}

/// Says that the sender has switched to the new funding output.
#[derive(Clone, Copy, Debug, PartialEq, Eq)]
pub struct TeleportCompleteAck {
    pub channel_id: ChannelId,
}

/// Declines a proposed teleport.
#[derive(Clone, Copy, Debug, PartialEq, Eq)]
pub struct TeleportAbort {
    pub channel_id: ChannelId,
}

/// What a payment's recipient reads from the onion.
#[derive(Clone, Copy, Debug, PartialEq, Eq)]
pub struct RecipientOnionFields {
    pub payment_secret: PaymentSecret,
    pub total_mpp_amount_msat: u64,
}

impl RecipientOnionFields {
    /// Fields that hold a payment secret and the payment's total amount.
    pub fn secret_only(payment_secret: PaymentSecret, total_mpp_amount_msat: u64) -> (fields: Self)
        ensures
            fields == (RecipientOnionFields { payment_secret, total_mpp_amount_msat }),
    {
        RecipientOnionFields { payment_secret, total_mpp_amount_msat }
    }
}

/// Offers an HTLC.
#[derive(Clone, Copy, Debug, PartialEq, Eq)]
pub struct UpdateAddHtlc {
    pub channel_id: ChannelId,
    pub htlc_id: u64,
    pub amount_msat: u64,
    pub payment_hash: PaymentHash,
    pub onion: RecipientOnionFields,
}

/// Claims an HTLC with its preimage.
#[derive(Clone, Copy, Debug, PartialEq, Eq)]
pub struct UpdateFulfillHtlc {
    pub channel_id: ChannelId,
    pub htlc_id: u64,
    pub payment_preimage: PaymentPreimage,
}

/// Signs the peer's next commitment on the funding transaction it names.
#[derive(Clone, Copy, Debug, PartialEq, Eq)]
pub struct CommitmentSigned {
    pub channel_id: ChannelId,
    pub funding_txid: Txid,
}

/// Revokes the sender's previous commitment.
#[derive(Clone, Copy, Debug, PartialEq, Eq)]
pub struct RevokeAndAck {
    pub channel_id: ChannelId,
}

/// Resumes a channel after a reconnection.
#[derive(Clone, Copy, Debug, PartialEq, Eq)]
pub struct ChannelReestablish {
    pub channel_id: ChannelId,
    pub next_local_commitment_number: u64,
}

/// Says that the channel is ready for payments.
#[derive(Clone, Copy, Debug, PartialEq, Eq)]
pub struct ChannelReady {
    pub channel_id: ChannelId,
}

/// Carries the sender's part of the channel's announcement.
#[derive(Clone, Copy, Debug, PartialEq, Eq)]
pub struct AnnouncementSignatures {
    pub channel_id: ChannelId,
}

/// Updates to the channel's HTLCs, with the signature that commits to them.
#[derive(Debug, PartialEq, Eq)]
pub struct CommitmentUpdate {
    pub update_add_htlcs: Vec<UpdateAddHtlc>,
    pub update_fulfill_htlcs: Vec<UpdateFulfillHtlc>,
    pub commitment_signed: Vec<CommitmentSigned>,
}

/// The contents of a [`CommitmentUpdate`].
#[verifier::ext_equal]
pub struct CommitmentUpdateView {
    pub update_add_htlcs: Seq<UpdateAddHtlc>,
    pub update_fulfill_htlcs: Seq<UpdateFulfillHtlc>,
    pub commitment_signed: Seq<CommitmentSigned>,
}

impl View for CommitmentUpdate {
    type V = CommitmentUpdateView;

    open spec fn view(&self) -> CommitmentUpdateView {
        CommitmentUpdateView {
            update_add_htlcs: self.update_add_htlcs@,
            update_fulfill_htlcs: self.update_fulfill_htlcs@,
            commitment_signed: self.commitment_signed@,
        }
    }
}

/// A message that waits to be sent, with the peer that it goes to.
#[derive(Debug, PartialEq, Eq)]
#[allow(inconsistent_fields)]
pub enum MessageSendEvent {
    SendStfu { node_id: NodeId, msg: Stfu },
    SendTeleportInit { node_id: NodeId, msg: TeleportInit },
    SendTeleportAck { node_id: NodeId, msg: TeleportAck },
    SendTeleportComplete { node_id: NodeId, msg: TeleportComplete },
    SendTeleportCompleteAck { node_id: NodeId, msg: TeleportCompleteAck },
    SendTeleportAbort { node_id: NodeId, msg: TeleportAbort },
    UpdateHTLCs { node_id: NodeId, channel_id: ChannelId, updates: CommitmentUpdate },
    SendRevokeAndAck { node_id: NodeId, msg: RevokeAndAck },
    SendChannelReestablish { node_id: NodeId, msg: ChannelReestablish },
    SendChannelReady { node_id: NodeId, msg: ChannelReady },
    SendAnnouncementSignatures { node_id: NodeId, msg: AnnouncementSignatures },
    /// Drops the connection to a peer that has not answered in time.
    DisconnectPeer { node_id: NodeId },
}

/// The contents of a [`MessageSendEvent`].
#[allow(inconsistent_fields)]
pub enum MessageView {
    SendStfu { node_id: NodeId, msg: Stfu },
    SendTeleportInit { node_id: NodeId, msg: TeleportInit },
    SendTeleportAck { node_id: NodeId, msg: TeleportAck },
    SendTeleportComplete { node_id: NodeId, msg: TeleportComplete },
    SendTeleportCompleteAck { node_id: NodeId, msg: TeleportCompleteAck },
    SendTeleportAbort { node_id: NodeId, msg: TeleportAbort },
    UpdateHTLCs { node_id: NodeId, channel_id: ChannelId, updates: CommitmentUpdateView },
    SendRevokeAndAck { node_id: NodeId, msg: RevokeAndAck },
    SendChannelReestablish { node_id: NodeId, msg: ChannelReestablish },
    SendChannelReady { node_id: NodeId, msg: ChannelReady },
    SendAnnouncementSignatures { node_id: NodeId, msg: AnnouncementSignatures },
    DisconnectPeer { node_id: NodeId },
}

impl View for MessageSendEvent {
    type V = MessageView;

    open spec fn view(&self) -> MessageView {
        match *self {
            MessageSendEvent::SendStfu { node_id, msg } => MessageView::SendStfu { node_id, msg },
            MessageSendEvent::SendTeleportInit { node_id, msg } => MessageView::SendTeleportInit {
                node_id,
                msg,
            },
            MessageSendEvent::SendTeleportAck { node_id, msg } => MessageView::SendTeleportAck {
                node_id,
                msg,
            },
            MessageSendEvent::SendTeleportComplete { node_id, msg } => {
                MessageView::SendTeleportComplete { node_id, msg }
            },
            MessageSendEvent::SendTeleportCompleteAck { node_id, msg } => {
                MessageView::SendTeleportCompleteAck { node_id, msg }
            },
            MessageSendEvent::SendTeleportAbort { node_id, msg } => MessageView::SendTeleportAbort {
                node_id,
                msg,
            },
            MessageSendEvent::UpdateHTLCs { node_id, channel_id, updates } => {
                MessageView::UpdateHTLCs { node_id, channel_id, updates: updates@ }
            },
            MessageSendEvent::SendRevokeAndAck { node_id, msg } => MessageView::SendRevokeAndAck {
                node_id,
                msg,
            },
            MessageSendEvent::SendChannelReestablish { node_id, msg } => {
                MessageView::SendChannelReestablish { node_id, msg }
            },
            MessageSendEvent::SendChannelReady { node_id, msg } => MessageView::SendChannelReady {
                node_id,
                msg,
            },
            MessageSendEvent::SendAnnouncementSignatures { node_id, msg } => {
                MessageView::SendAnnouncementSignatures { node_id, msg }
            },
            MessageSendEvent::DisconnectPeer { node_id } => MessageView::DisconnectPeer { node_id },
        }
    }
}

impl MessageView {
    /// The peer that the message goes to.
    pub open spec fn to(self) -> NodeId {
        match self {
            MessageView::SendStfu { node_id, .. } => node_id,
            MessageView::SendTeleportInit { node_id, .. } => node_id,
            MessageView::SendTeleportAck { node_id, .. } => node_id,
            MessageView::SendTeleportComplete { node_id, .. } => node_id,
            MessageView::SendTeleportCompleteAck { node_id, .. } => node_id,
            MessageView::SendTeleportAbort { node_id, .. } => node_id,
            MessageView::UpdateHTLCs { node_id, .. } => node_id,
            MessageView::SendRevokeAndAck { node_id, .. } => node_id,
            MessageView::SendChannelReestablish { node_id, .. } => node_id,
            MessageView::SendChannelReady { node_id, .. } => node_id,
            MessageView::SendAnnouncementSignatures { node_id, .. } => node_id,
            MessageView::DisconnectPeer { node_id } => node_id,
        }
    }

    /// Whether the message is the acceptance of a teleport of the given channel.
    pub open spec fn is_teleport_ack(self, channel_id: ChannelId) -> bool {
        self matches MessageView::SendTeleportAck { msg, .. } && msg.channel_id == channel_id
    }
}

/// The contents of a sequence of messages.
pub open spec fn messages(events: Seq<MessageSendEvent>) -> Seq<MessageView> {
    events.map_values(|event: MessageSendEvent| event@)
}

impl MessageSendEvent {
    /// The peer that the message goes to.
    pub fn node_id(&self) -> (node_id: NodeId)
        ensures
            node_id == self@.to(),
    {
        match self {
            MessageSendEvent::SendStfu { node_id, .. } => *node_id,
            MessageSendEvent::SendTeleportInit { node_id, .. } => *node_id,
            MessageSendEvent::SendTeleportAck { node_id, .. } => *node_id,
            MessageSendEvent::SendTeleportComplete { node_id, .. } => *node_id,
            MessageSendEvent::SendTeleportCompleteAck { node_id, .. } => *node_id,
            MessageSendEvent::SendTeleportAbort { node_id, .. } => *node_id,
            MessageSendEvent::UpdateHTLCs { node_id, .. } => *node_id,
            MessageSendEvent::SendRevokeAndAck { node_id, .. } => *node_id,
            MessageSendEvent::SendChannelReestablish { node_id, .. } => *node_id,
            MessageSendEvent::SendChannelReady { node_id, .. } => *node_id,
            MessageSendEvent::SendAnnouncementSignatures { node_id, .. } => *node_id,
            MessageSendEvent::DisconnectPeer { node_id } => *node_id,
        }
    }

    /// Whether the message is the acceptance of a teleport of the given channel.
    pub fn is_teleport_ack(&self, channel_id: ChannelId) -> (r: bool)
        ensures
            r == self@.is_teleport_ack(channel_id),
    {
        match self {
            MessageSendEvent::SendTeleportAck { msg, .. } => msg.channel_id == channel_id,
            _ => false,
        }
    }
}

/// What a node tells its user.
#[derive(Clone, Copy, Debug, PartialEq, Eq)]
pub enum Event {
    /// The peer proposes to teleport a channel: the user is to accept or to cancel.
    ChannelTeleport {
        channel_id: ChannelId,
        user_channel_id: u128,
        counterparty_node_id: NodeId,
        new_funding_txo: BitcoinOutPoint,
    },
    /// A payment has arrived and waits for its preimage.
    PaymentClaimable { payment_hash: PaymentHash, payment_secret: PaymentSecret, amount_msat: u64 },
    /// A payment was claimed by this node.
    PaymentClaimed { payment_hash: PaymentHash, amount_msat: u64 },
    /// A payment of this node was claimed by its recipient.
    PaymentSent { payment_hash: PaymentHash, payment_preimage: PaymentPreimage },
}

/// The position of the first message that goes to `node_id`, or their number if none does.
pub open spec fn first_to(msgs: Seq<MessageView>, node_id: NodeId) -> nat
    decreases msgs.len(),
{
    if msgs.len() == 0 || msgs[0].to() == node_id {
        0
    } else {
        1 + first_to(msgs.drop_first(), node_id)
    }
}

/// Takes the first message that goes to `node_id` out of `events`.
pub fn remove_first_msg_event_to_node(node_id: NodeId, events: &mut Vec<MessageSendEvent>) -> (event:
    MessageSendEvent)
    requires
        exists|i: int| 0 <= i < old(events).len() && (#[trigger] old(events)@[i])@.to() == node_id,
    ensures
        ({
            let i = first_to(messages(old(events)@), node_id) as int;
            &&& i < old(events)@.len()
            &&& event == old(events)@[i]
            &&& final(events)@ == old(events)@.remove(i)
        }),
{
    let mut i: usize = 0;
    assert(messages(events@).skip(0) =~= messages(events@));
    while events[i].node_id() != node_id
        invariant
            *events == *old(events),
            i < events.len(),
            first_to(messages(events@), node_id) == i + first_to(
                messages(events@).skip(i as int),
                node_id,
            ),
            exists|k: int| i <= k < events.len() && (#[trigger] events@[k])@.to() == node_id,
        decreases events.len() - i,
    {
        assert(messages(events@).skip(i as int).drop_first() =~= messages(events@).skip(i + 1));
        i = i + 1;
    }
    events.remove(i)
}

} // verus!
