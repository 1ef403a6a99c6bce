//! What each operation of a node comes to, said of the node's fields.
//!
//! A channel is named by its position `i` among the node's channels, where it is the only one
//! with its identifier.
use vstd::prelude::*;
use crate::batch::{Batch, BatchView};
use crate::chain_source::{pairs, ChainSourceView};
use crate::channel::{Channel, Outcome};
use crate::exchange::{listed_funding_txo, node_agreed_on, share_channel, watch_one_script};
use crate::laws::law_lost_peer_gets_nothing;
use crate::model::{ChannelView, Connection, Step, TeleportState};
use crate::monitor::{
    entry_holds, first_script, list_gives_script, list_watches, lists_vout, output_list, watch_list,
    MonitorView,
};
use crate::msgs::{
    first_to, messages, ChannelReestablish, CommitmentSigned, CommitmentUpdate,
    CommitmentUpdateView, Event, MessageSendEvent, MessageView, RecipientOnionFields,
    UpdateAddHtlc, UpdateFulfillHtlc,
};
use crate::node::channel_views;
use crate::node_model::{
    channel_details, hash_position, step_msgs, ChannelDetails, NodeView, PaymentSendFailure, Route,
};
use crate::step_laws::{
    law_claim_gives_the_preimage, law_lost_peer_ends_what_is_not_agreed, law_new_channel,
    law_payment_is_offered_as_requested, law_returned_peer_is_greeted, law_tick,
    law_unknown_htlc_is_not_claimed,
};
use crate::types::{
    ChannelError, ChannelId, NodeId, OutPoint, PaymentHash, PaymentId, PaymentPreimage, ScriptBuf,
    Txid,
};

verus! {

/// The only channel with an identifier is found under it, and none is found under an
/// identifier that no channel has.
pub proof fn law_channel_is_found(node: NodeView, channel_id: ChannelId)
    ensures
        node.has(channel_id) <==> exists|i: int|
            0 <= i < node.channels.len() && (#[trigger] node.channels[i]).channel_id == channel_id,
        forall|i: int|
            {
                &&& 0 <= i < node.channels.len()
                &&& (#[trigger] node.channels[i]).channel_id == channel_id
                &&& forall|j: int|
                    0 <= j < node.channels.len() && j != i ==> (
                    #[trigger] node.channels[j]).channel_id != channel_id
            } ==> node.at(channel_id) == i && node.channel(channel_id) == node.channels[i],
{
    if exists|i: int|
        0 <= i < node.channels.len() && (#[trigger] node.channels[i]).channel_id == channel_id {
        let i = choose|i: int|
            0 <= i < node.channels.len() && (#[trigger] node.channels[i]).channel_id == channel_id;
        assert(node.is_at(i, channel_id));
        let j = node.at(channel_id);
        assert(node.is_at(j, channel_id));
    }
}

/// Two nodes share a channel if each has it, with the other for its peer, and connected; they
/// watch for one script if their monitors of it do.
pub proof fn law_shared_channel(a: NodeView, b: NodeView, channel_id: ChannelId)
    ensures
        share_channel(a, b, channel_id) <==> {
            &&& a.has(channel_id)
            &&& b.has(channel_id)
            &&& a.channel(channel_id).counterparty_node_id == b.node_id
            &&& b.channel(channel_id).counterparty_node_id == a.node_id
            &&& a.channel(channel_id).connection is Connected
            &&& b.channel(channel_id).connection is Connected
        },
        watch_one_script(a, b, channel_id) <==> a.channel(channel_id).monitor.funding_script
            == b.channel(channel_id).monitor.funding_script,
{
}

/// An agreement on a teleport puts the channel into the agreed state, with the new output
/// watched by its monitor and on the chain, and changes nothing else of the node.
pub proof fn law_agreement(
    node: NodeView,
    channel_id: ChannelId,
    new_funding_txo: OutPoint,
    initiator: bool,
    i: int,
)
    requires
        0 <= i < node.channels.len(),
        node.channels[i].channel_id == channel_id,
        forall|j: int|
            0 <= j < node.channels.len() && j != i ==> (#[trigger] node.channels[j]).channel_id
                != channel_id,
    ensures
        ({
            let after = node_agreed_on(node, channel_id, new_funding_txo, initiator);
            let c = node.channels[i];
            let script = c.monitor.funding_script;
            &&& after == NodeView {
                channels: node.channels.update(
                    i,
                    ChannelView {
                        teleport: TeleportState::Acked {
                            new_funding_txo,
                            initiator,
                            commitment_received: true,
                        },
                        ticks: None,
                        monitor: MonitorView {
                            funding_txo: c.monitor.funding_txo,
                            pending_funding_txo: Some(new_funding_txo),
                            funding_script: script,
                        },
                        ..c
                    },
                ),
                chain_source: after.chain_source,
                ..node
            }
            &&& forall|pair: (OutPoint, Seq<u8>)| #[trigger]
                after.chain_source.watched_outputs.contains(pair) <==> pair == (
                    new_funding_txo,
                    script,
                ) || node.chain_source.watched_outputs.contains(pair)
            &&& forall|pair: (Txid, Seq<u8>)| #[trigger]
                after.chain_source.watched_txn.contains(pair) <==> pair == (
                    new_funding_txo.txid,
                    script,
                ) || node.chain_source.watched_txn.contains(pair)
        }),
{
    law_channel_is_found(node, channel_id);
    assert(node.channels[i].channel_id == channel_id);
}

/// A new node has nothing and owes nothing.
pub proof fn law_new_node(node_id: NodeId)
    ensures
        ({
            let node = NodeView::fresh(node_id);
            &&& node.node_id == node_id
            &&& node.channels.len() == 0
            &&& node.pending_msg_events.len() == 0
            &&& node.pending_events.len() == 0
            &&& node.added_monitors.len() == 0
            &&& node.payments.len() == 0
            &&& node.pending_htlcs.len() == 0
            &&& node.claimable_htlcs.len() == 0
            &&& forall|pair: (OutPoint, Seq<u8>)|
                !(#[trigger] node.chain_source.watched_outputs.contains(pair))
            &&& forall|pair: (Txid, Seq<u8>)|
                !(#[trigger] node.chain_source.watched_txn.contains(pair))
        }),
{
}

/// A channel that is opened stands behind the others, with what it was opened with, and its
/// funding output is watched on the chain for its script. Nothing else of the node changes.
pub proof fn law_opened_channel(
    node: NodeView,
    channel_id: ChannelId,
    user_channel_id: u128,
    counterparty_node_id: NodeId,
    announced: bool,
    funding_txo: OutPoint,
    funding_script: Seq<u8>,
)
    ensures
        ({
            let after = node.with_opened(
                channel_id,
                user_channel_id,
                counterparty_node_id,
                announced,
                funding_txo,
                funding_script,
            );
            let c = after.channels.last();
            &&& after == NodeView {
                channels: node.channels.push(c),
                chain_source: after.chain_source,
                ..node
            }
            &&& c.channel_id == channel_id
            &&& c.user_channel_id == user_channel_id
            &&& c.counterparty_node_id == counterparty_node_id
            &&& c.announced == announced
            &&& c.connection is Connected
            &&& c.teleport is Idle
            &&& c.funding_txo == funding_txo
            &&& c.monitor.funding_txo == funding_txo
            &&& c.monitor.pending_funding_txo is None
            &&& c.monitor.funding_script == funding_script
            &&& forall|pair: (OutPoint, Seq<u8>)| #[trigger]
                after.chain_source.watched_outputs.contains(pair) <==> pair == (
                    funding_txo,
                    funding_script,
                ) || node.chain_source.watched_outputs.contains(pair)
            &&& forall|pair: (Txid, Seq<u8>)| #[trigger]
                after.chain_source.watched_txn.contains(pair) <==> pair == (
                    funding_txo.txid,
                    funding_script,
                ) || node.chain_source.watched_txn.contains(pair)
        }),
{
    law_new_channel(
        channel_id,
        user_channel_id,
        counterparty_node_id,
        announced,
        funding_txo,
        funding_script,
    );
}

/// Watching an output adds that output and its transaction, for the given script; forgetting
/// it takes exactly these away.
pub proof fn law_chain_source(source: ChainSourceView, txo: OutPoint, script: Seq<u8>)
    ensures
        forall|pair: (OutPoint, Seq<u8>)| #[trigger]
            source.register(txo, script).watched_outputs.contains(pair) <==> pair == (txo, script)
                || source.watched_outputs.contains(pair),
        forall|pair: (Txid, Seq<u8>)| #[trigger]
            source.register(txo, script).watched_txn.contains(pair) <==> pair == (txo.txid, script)
                || source.watched_txn.contains(pair),
        forall|pair: (OutPoint, Seq<u8>)| #[trigger]
            source.unregister(txo, script).watched_outputs.contains(pair) <==> pair != (txo, script)
                && source.watched_outputs.contains(pair),
        forall|pair: (Txid, Seq<u8>)| #[trigger]
            source.unregister(txo, script).watched_txn.contains(pair) <==> pair != (
                txo.txid,
                script,
            ) && source.watched_txn.contains(pair),
{
}

/// What a monitor watches: the funding output and the output that the channel is to move to.
/// It lists each of them once, at its position under its transaction and with the funding
/// script, the funding output first, and lists nothing else.
pub proof fn law_monitor_lists_its_outputs(monitor: MonitorView, txo: OutPoint)
    ensures
        monitor.watches(txo) <==> txo == monitor.funding_txo || monitor.pending_funding_txo == Some(
            txo,
        ),
        ({
            let list = monitor.outputs_to_watch();
            let script = monitor.funding_script;
            let current = (monitor.funding_txo.index as u32, script);
            &&& list.len() > 0
            &&& list[0].0 == monitor.funding_txo.txid
            &&& list[0].1.len() > 0
            &&& list[0].1[0] == current
            &&& match monitor.pending_funding_txo {
                Some(pending) if pending != monitor.funding_txo => {
                    let second = (pending.index as u32, script);
                    if pending.txid == monitor.funding_txo.txid {
                        list.len() == 1 && list[0].1.len() == 2 && list[0].1[1] == second
                    } else {
                        &&& list.len() == 2
                        &&& list[0].1.len() == 1
                        &&& list[1].0 == pending.txid
                        &&& list[1].1.len() == 1
                        &&& list[1].1[0] == second
                    }
                },
                _ => list.len() == 1 && list[0].1.len() == 1,
            }
        }),
{
}

/// A list holds an output if one of its entries is for the output's transaction and has the
/// output's position. The script that it gives is that of the first such place.
pub proof fn law_watch_list_lookup(
    list: Seq<(Txid, Seq<(u32, Seq<u8>)>)>,
    txo: OutPoint,
    i: int,
    j: int,
    script: Seq<u8>,
)
    requires
        0 <= i < list.len(),
        list[i].0 == txo.txid,
        0 <= j < list[i].1.len(),
        list[i].1[j].0 == txo.index,
        forall|n: int| 0 <= n < j ==> (#[trigger] list[i].1[n]).0 != txo.index,
        forall|m: int, n: int|
            0 <= m < i && 0 <= n < list[m].1.len() && list[m].0 == txo.txid ==> (
            #[trigger] list[m].1[n]).0 != txo.index,
    ensures
        list_watches(list, txo),
        list_gives_script(list, txo, script) <==> script == list[i].1[j].1,
{
    let vout = txo.index as u32;
    assert(lists_vout(list[i].1, vout));
    assert(entry_holds(list[i], txo));
    assert forall|m: int| 0 <= m < i implies !entry_holds(#[trigger] list[m], txo) by {}
    assert(list[i].1[j] == (vout, list[i].1[j].1));
    assert(first_script(list[i].1, vout, list[i].1[j].1));
    assert(list_gives_script(list, txo, list[i].1[j].1));
}

/// A list does not hold an output that none of its entries places.
pub proof fn law_unlisted_output(
    list: Seq<(Txid, Seq<(u32, Seq<u8>)>)>,
    txo: OutPoint,
    script: Seq<u8>,
)
    requires
        forall|m: int, n: int|
            0 <= m < list.len() && 0 <= n < list[m].1.len() && list[m].0 == txo.txid ==> (
            #[trigger] list[m].1[n]).0 != txo.index,
    ensures
        !list_watches(list, txo),
        !list_gives_script(list, txo, script),
{
}

/// Lists of outputs, of watched pairs and of channels are looked at as they are.
pub proof fn law_lists_are_seen_as_they_are(
    outputs: Seq<(u32, ScriptBuf)>,
    watched: Seq<(Txid, Vec<(u32, ScriptBuf)>)>,
    pairs_of: Seq<(OutPoint, ScriptBuf)>,
    channels: Seq<Channel>,
    pair: (OutPoint, Seq<u8>),
)
    ensures
        output_list(outputs).len() == outputs.len(),
        forall|k: int|
            0 <= k < outputs.len() ==> #[trigger] output_list(outputs)[k] == (
                outputs[k].0,
                outputs[k].1@,
            ),
        watch_list(watched).len() == watched.len(),
        forall|k: int|
            0 <= k < watched.len() ==> #[trigger] watch_list(watched)[k] == (
                watched[k].0,
                output_list(watched[k].1@),
            ),
        pairs(pairs_of).contains(pair) <==> exists|k: int|
            0 <= k < pairs_of.len() && (#[trigger] pairs_of[k]).0 == pair.0 && pairs_of[k].1@
                == pair.1,
        channel_views(channels).len() == channels.len(),
        forall|k: int|
            0 <= k < channels.len() ==> #[trigger] channel_views(channels)[k] == channels[k]@,
{
}

/// What a node says of a channel is what the channel is.
pub proof fn law_channel_is_listed_as_it_is(c: ChannelView)
    ensures
        channel_details(c).channel_id == c.channel_id,
        channel_details(c).user_channel_id == c.user_channel_id,
        channel_details(c).counterparty_node_id == c.counterparty_node_id,
        channel_details(c).funding_txo == Some(c.funding_txo),
{
}

/// The funding output that a list gives for an identifier is that of the first channel that it
/// lists under it, and there is none if it lists none.
pub proof fn law_first_listed_channel_counts(
    list: Seq<ChannelDetails>,
    channel_id: ChannelId,
    i: int,
)
    requires
        0 <= i <= list.len(),
        i < list.len() ==> list[i].channel_id == channel_id,
        forall|k: int| 0 <= k < i ==> (#[trigger] list[k]).channel_id != channel_id,
    ensures
        listed_funding_txo(list, channel_id) == if i < list.len() {
            list[i].funding_txo
        } else {
            None
        },
    decreases i,
{
    if i > 0 {
        assert(list[0].channel_id != channel_id);
        assert forall|k: int| 0 <= k < i - 1 implies (#[trigger] list.drop_first()[k]).channel_id
            != channel_id by {
            assert(list[k + 1].channel_id != channel_id);
        }
        law_first_listed_channel_counts(list.drop_first(), channel_id, i - 1);
    }
}

/// A message goes to the peer that it is addressed to.
pub proof fn law_message_goes_to_its_addressee(msg: MessageView)
    ensures
        match msg {
            MessageView::SendStfu { node_id, .. } => msg.to() == node_id,
            MessageView::SendTeleportInit { node_id, .. } => msg.to() == node_id,
            MessageView::SendTeleportAck { node_id, .. } => msg.to() == node_id,
            MessageView::SendTeleportComplete { node_id, .. } => msg.to() == node_id,
            MessageView::SendTeleportCompleteAck { node_id, .. } => msg.to() == node_id,
            MessageView::SendTeleportAbort { node_id, .. } => msg.to() == node_id,
            MessageView::UpdateHTLCs { node_id, .. } => msg.to() == node_id,
            MessageView::SendRevokeAndAck { node_id, .. } => msg.to() == node_id,
            MessageView::SendChannelReestablish { node_id, .. } => msg.to() == node_id,
            MessageView::SendChannelReady { node_id, .. } => msg.to() == node_id,
            MessageView::SendAnnouncementSignatures { node_id, .. } => msg.to() == node_id,
            MessageView::DisconnectPeer { node_id } => msg.to() == node_id,
        },
{
}

/// The first message to a peer is the one that no other to that peer comes before.
pub proof fn law_first_message_to_a_peer(msgs: Seq<MessageView>, node_id: NodeId, i: int)
    requires
        0 <= i <= msgs.len(),
        i < msgs.len() ==> msgs[i].to() == node_id,
        forall|k: int| 0 <= k < i ==> (#[trigger] msgs[k]).to() != node_id,
    ensures
        first_to(msgs, node_id) == i,
    decreases i,
{
    if i > 0 {
        assert(msgs[0].to() != node_id);
        assert forall|k: int| 0 <= k < i - 1 implies (#[trigger] msgs.drop_first()[k]).to()
            != node_id by {
            assert(msgs[k + 1].to() != node_id);
        }
        law_first_message_to_a_peer(msgs.drop_first(), node_id, i - 1);
    }
}

/// A message that waits to be sent is looked at as it is.
pub proof fn law_message_is_seen_as_it_is(event: MessageSendEvent)
    ensures
        match event {
            MessageSendEvent::SendStfu { node_id, msg } => event@ == (MessageView::SendStfu {
                node_id,
                msg,
            }),
            MessageSendEvent::SendTeleportInit { node_id, msg } => event@ == (
            MessageView::SendTeleportInit { node_id, msg }),
            MessageSendEvent::SendTeleportAck { node_id, msg } => event@ == (
            MessageView::SendTeleportAck { node_id, msg }),
            MessageSendEvent::SendTeleportComplete { node_id, msg } => event@ == (
            MessageView::SendTeleportComplete { node_id, msg }),
            MessageSendEvent::SendTeleportCompleteAck { node_id, msg } => event@ == (
            MessageView::SendTeleportCompleteAck { node_id, msg }),
            MessageSendEvent::SendTeleportAbort { node_id, msg } => event@ == (
            MessageView::SendTeleportAbort { node_id, msg }),
            MessageSendEvent::UpdateHTLCs { node_id, channel_id, updates } => event@ == (
            MessageView::UpdateHTLCs {
                node_id,
                channel_id,
                updates: CommitmentUpdateView {
                    update_add_htlcs: updates.update_add_htlcs@,
                    update_fulfill_htlcs: updates.update_fulfill_htlcs@,
                    commitment_signed: updates.commitment_signed@,
                },
            }),
            MessageSendEvent::SendRevokeAndAck { node_id, msg } => event@ == (
            MessageView::SendRevokeAndAck { node_id, msg }),
            MessageSendEvent::SendChannelReestablish { node_id, msg } => event@ == (
            MessageView::SendChannelReestablish { node_id, msg }),
            MessageSendEvent::SendChannelReady { node_id, msg } => event@ == (
            MessageView::SendChannelReady { node_id, msg }),
            MessageSendEvent::SendAnnouncementSignatures { node_id, msg } => event@ == (
            MessageView::SendAnnouncementSignatures { node_id, msg }),
            MessageSendEvent::DisconnectPeer { node_id } => event@ == (
            MessageView::DisconnectPeer { node_id }),
        },
{
}

/// Groups of updates, messages and outcomes are looked at as they are, in their order.
pub proof fn law_contents_are_seen_as_they_are(
    batch: Batch,
    updates: CommitmentUpdate,
    events: Seq<MessageSendEvent>,
    outcome: Outcome,
)
    ensures
        batch@.adds == batch.adds@,
        batch@.fulfills == batch.fulfills@,
        updates@.update_add_htlcs == updates.update_add_htlcs@,
        updates@.update_fulfill_htlcs == updates.update_fulfill_htlcs@,
        updates@.commitment_signed == updates.commitment_signed@,
        messages(events).len() == events.len(),
        forall|k: int| 0 <= k < events.len() ==> #[trigger] messages(events)[k] == events[k]@,
        outcome@.msgs.len() == outcome.msgs@.len(),
        forall|k: int|
            0 <= k < outcome.msgs@.len() ==> #[trigger] outcome@.msgs[k] == outcome.msgs@[k]@,
        outcome@.events == outcome.events@,
        outcome@.monitor_updates == outcome.monitor_updates,
        outcome@.received == outcome.received@,
        outcome@.registered == outcome.registered,
{
}

/// A step of a channel that is taken: the channel is in its next state and every other one as
/// it was; what the step sends, tells and hands on comes behind what there is already, in its
/// order; the channel is noted once for each update of its monitor; an output that the step
/// registers is watched on the chain for the channel's script. If the step is refused, or the
/// channel is not one with that peer, the node is as before.
pub proof fn law_node_takes_the_step(
    node: NodeView,
    channel_id: ChannelId,
    peer: NodeId,
    step: spec_fn(ChannelView) -> Result<Step, ChannelError>,
    i: int,
)
    requires
        0 <= i < node.channels.len(),
        node.channels[i].channel_id == channel_id,
        forall|j: int|
            0 <= j < node.channels.len() && j != i ==> (#[trigger] node.channels[j]).channel_id
                != channel_id,
    ensures
        ({
            let (after, result) = node.run(channel_id, peer, step);
            if node.channels[i].counterparty_node_id != peer {
                &&& result == Err::<(), ChannelError>(ChannelError::ChannelUnavailable)
                &&& after == node
            } else {
                match step(node.channels[i]) {
                    Err(error) => result == Err::<(), ChannelError>(error) && after == node,
                    Ok(step) => {
                        let script = step.channel.monitor.funding_script;
                        &&& result is Ok
                        &&& after.node_id == node.node_id
                        &&& after.channels.len() == node.channels.len()
                        &&& after.channels[i] == step.channel
                        &&& forall|j: int|
                            0 <= j < node.channels.len() && j != i ==> #[trigger] after.channels[j]
                                == node.channels[j]
                        &&& after.pending_msg_events == node.pending_msg_events + step.effects.msgs
                        &&& after.pending_events == node.pending_events + step.effects.events
                        &&& after.pending_htlcs == node.pending_htlcs + step.effects.received
                        &&& after.payments == node.payments
                        &&& after.claimable_htlcs == node.claimable_htlcs
                        &&& after.added_monitors.len() == node.added_monitors.len()
                            + step.effects.monitor_updates
                        &&& forall|k: int|
                            0 <= k < node.added_monitors.len()
                                ==> #[trigger] after.added_monitors[k] == node.added_monitors[k]
                        &&& forall|k: int|
                            node.added_monitors.len() <= k < after.added_monitors.len()
                                ==> #[trigger] after.added_monitors[k] == channel_id
                        &&& match step.effects.registered {
                            None => after.chain_source == node.chain_source,
                            Some(txo) => {
                                &&& forall|pair: (OutPoint, Seq<u8>)| #[trigger]
                                    after.chain_source.watched_outputs.contains(pair) <==> pair == (
                                        txo,
                                        script,
                                    ) || node.chain_source.watched_outputs.contains(pair)
                                &&& forall|pair: (Txid, Seq<u8>)| #[trigger]
                                    after.chain_source.watched_txn.contains(pair) <==> pair == (
                                        txo.txid,
                                        script,
                                    ) || node.chain_source.watched_txn.contains(pair)
                            },
                        }
                    },
                }
            }
        }),
{
    assert(node.is_at(i, channel_id));
    assert(node.is_at(node.at(channel_id), channel_id));
}

/// No step is taken on a channel that the node does not have.
pub proof fn law_unknown_channel_takes_no_step(
    node: NodeView,
    channel_id: ChannelId,
    peer: NodeId,
    step: spec_fn(ChannelView) -> Result<Step, ChannelError>,
)
    requires
        forall|j: int|
            0 <= j < node.channels.len() ==> (#[trigger] node.channels[j]).channel_id != channel_id,
    ensures
        node.run(channel_id, peer, step) == (
            node,
            Err::<(), ChannelError>(ChannelError::ChannelUnavailable),
        ),
{
    if node.has(channel_id) {
        let j = node.at(channel_id);
        assert(node.is_at(j, channel_id));
    }
}

/// The loss of a peer, on each channel. On a channel with another peer nothing changes. A
/// teleport of a channel with this peer is kept if it was accepted, unless this end is the one
/// that accepted and its `teleport_ack` for this very channel is among the messages that wait;
/// whatever other messages wait, it is kept. What is kept is kept whole.
pub proof fn law_lost_peer_on_each_channel(node: NodeView, peer: NodeId, i: int)
    requires
        0 <= i < node.channels.len(),
    ensures
        ({
            let c = node.channels[i];
            let after = node.peer_disconnected(peer).channels[i];
            let ack_waits = exists|k: int|
                {
                    &&& 0 <= k < node.pending_msg_events.len()
                    &&& #[trigger] node.pending_msg_events[k] matches MessageView::SendTeleportAck {
                        msg,
                        ..
                    }
                    &&& msg.channel_id == c.channel_id
                };
            let kept = match c.teleport {
                TeleportState::Acked { initiator, .. } => initiator || !ack_waits,
                TeleportState::CompleteSent { .. } => true,
                _ => false,
            };
            &&& node.peer_disconnected(peer).channels.len() == node.channels.len()
            &&& c.counterparty_node_id != peer ==> after == c
            &&& c.counterparty_node_id == peer && kept ==> after == ChannelView {
                connection: Connection::Disconnected,
                ticks: None,
                ..c
            }
            &&& c.counterparty_node_id == peer && !kept ==> after == ChannelView {
                connection: Connection::Disconnected,
                ticks: None,
                teleport: TeleportState::Idle,
                monitor: MonitorView {
                    funding_txo: c.monitor.funding_txo,
                    pending_funding_txo: None,
                    funding_script: c.monitor.funding_script,
                },
                ..c
            }
        }),
{
    let c = node.channels[i];
    law_lost_peer_ends_what_is_not_agreed(c, true);
    law_lost_peer_ends_what_is_not_agreed(c, false);
    if node.ack_unsent(c.channel_id) {
        let k = choose|k: int|
            0 <= k < node.pending_msg_events.len() && (
            #[trigger] node.pending_msg_events[k]).is_teleport_ack(c.channel_id);
        assert(node.pending_msg_events[k] is SendTeleportAck);
    } else {
        assert forall|k: int| 0 <= k < node.pending_msg_events.len() implies !(
        #[trigger] node.pending_msg_events[k] matches MessageView::SendTeleportAck { msg, .. }
            && msg.channel_id == c.channel_id) by {
            assert(!node.pending_msg_events[k].is_teleport_ack(c.channel_id));
        }
    }
}

/// A teleport that is agreed on outlives the loss of the peer as long as no `teleport_ack` for
/// its channel waits to be sent: the output is still watched, and the switch that the peer
/// asks for once the channel is resumed is taken and leads to the agreed output.
pub proof fn law_agreed_teleport_completes_after_a_loss(
    node: NodeView,
    i: int,
    new_funding_txo: OutPoint,
    msg: ChannelReestablish,
)
    requires
        0 <= i < node.channels.len(),
        node.channels[i].wf(),
        node.channels[i].teleport == (TeleportState::Acked {
            new_funding_txo,
            initiator: false,
            commitment_received: true,
        }),
        forall|k: int|
            0 <= k < node.pending_msg_events.len() ==> !(
            #[trigger] node.pending_msg_events[k] matches MessageView::SendTeleportAck {
                msg: ack,
                ..
            } && ack.channel_id == node.channels[i].channel_id),
    ensures
        ({
            let c = node.channels[i];
            let lost = node.peer_disconnected(c.counterparty_node_id).channels[i];
            let resumed = lost.on_peer_connected().channel.on_channel_reestablish(msg);
            let switched = resumed->Ok_0.channel.on_teleport_complete();
            &&& lost.monitor == c.monitor
            &&& lost.monitor.pending_funding_txo == Some(new_funding_txo)
            &&& resumed is Ok
            &&& resumed->Ok_0.channel.monitor == c.monitor
            &&& switched is Ok
            &&& switched->Ok_0.channel.funding_txo == new_funding_txo
            &&& switched->Ok_0.channel.monitor.funding_txo == new_funding_txo
            &&& switched->Ok_0.channel.inbound_htlcs == c.inbound_htlcs
            &&& switched->Ok_0.channel.outbound_htlcs == c.outbound_htlcs
        }),
{
    law_lost_peer_on_each_channel(node, node.channels[i].counterparty_node_id, i);
}

/// The loss of a peer takes the messages to it out of the queue and leaves those to others, in
/// their order. Nothing else of the node changes but its channels.
pub proof fn law_lost_peer_in_the_queue(node: NodeView, peer: NodeId)
    ensures
        node.peer_disconnected(peer) == (NodeView {
            channels: node.peer_disconnected(peer).channels,
            pending_msg_events: node.pending_msg_events.filter(
                |msg: MessageView| msg.to() != peer,
            ),
            ..node
        }),
        forall|msg: MessageView|
            node.peer_disconnected(peer).pending_msg_events.contains(msg) <==> #[trigger]
                node.pending_msg_events.contains(msg) && msg.to() != peer,
{
    assert forall|msg: MessageView|
        node.peer_disconnected(peer).pending_msg_events.contains(msg) <==> #[trigger]
            node.pending_msg_events.contains(msg) && msg.to() != peer by {
        law_lost_peer_gets_nothing(node, peer, msg);
    }
}

/// The messages of steps of which those of some channels send one message each and the others
/// none.
proof fn lemma_one_message_each(
    channels: Seq<ChannelView>,
    step: spec_fn(ChannelView) -> Step,
    sends: spec_fn(ChannelView) -> bool,
    msg: spec_fn(ChannelView) -> MessageView,
)
    requires
        forall|c: ChannelView| #[trigger]
            step(c).effects.msgs == if sends(c) {
                seq![msg(c)]
            } else {
                seq![]
            },
    ensures
        step_msgs(channels, step) == channels.filter(sends).map_values(msg),
    decreases channels.len(),
{
    reveal(Seq::filter);
    if channels.len() > 0 {
        lemma_one_message_each(channels.drop_last(), step, sends, msg);
        assert(step(channels.last()).effects.msgs.len() <= 1);
    }
    assert(step_msgs(channels, step) =~= channels.filter(sends).map_values(msg));
}

/// The return of a peer. Each channel with it that had lost it is being resumed, and for each,
/// in the order of the channels, one `channel_reestablish` with the channel's next commitment
/// comes behind the messages that wait. Nothing else of the node changes.
pub proof fn law_returned_peer(node: NodeView, peer: NodeId)
    ensures
        node.peer_connected(peer) == (NodeView {
            channels: node.channels.map_values(
                |c: ChannelView|
                    if c.counterparty_node_id == peer && c.connection is Disconnected {
                        ChannelView { connection: Connection::Reestablishing, ..c }
                    } else {
                        c
                    },
            ),
            pending_msg_events: node.pending_msg_events + node.channels.filter(
                |c: ChannelView| c.counterparty_node_id == peer && c.connection is Disconnected,
            ).map_values(
                |c: ChannelView|
                    MessageView::SendChannelReestablish {
                        node_id: peer,
                        msg: ChannelReestablish {
                            channel_id: c.channel_id,
                            next_local_commitment_number: c.next_commitment_number,
                        },
                    },
            ),
            ..node
        }),
{
    let step = |channel: ChannelView|
        if channel.counterparty_node_id == peer {
            channel.on_peer_connected()
        } else {
            Step::to(channel)
        };
    let sends = |c: ChannelView| c.counterparty_node_id == peer && c.connection is Disconnected;
    let msg = |c: ChannelView|
        MessageView::SendChannelReestablish {
            node_id: peer,
            msg: ChannelReestablish {
                channel_id: c.channel_id,
                next_local_commitment_number: c.next_commitment_number,
            },
        };
    assert forall|c: ChannelView| #[trigger]
        step(c).effects.msgs == if sends(c) {
            seq![msg(c)]
        } else {
            seq![]
        } by {
        law_returned_peer_is_greeted(c);
        assert(step(c).effects.msgs =~= if sends(c) {
            seq![msg(c)]
        } else {
            seq![]
        });
    }
    lemma_one_message_each(node.channels, step, sends, msg);
    let next = |c: ChannelView|
        if c.counterparty_node_id == peer && c.connection is Disconnected {
            ChannelView { connection: Connection::Reestablishing, ..c }
        } else {
            c
        };
    assert(node.peer_connected(peer).channels =~= node.channels.map_values(next));
}

/// A tick of the timer reaches every channel: each counts as it would alone, and for each
/// channel whose peer is late, in the order of the channels, one disconnection comes behind
/// the messages that wait. Nothing else of the node changes.
pub proof fn law_tick_reaches_every_channel(node: NodeView)
    ensures
        ({
            let after = node.run_all(|channel: ChannelView| channel.on_timer_tick());
            &&& after == NodeView {
                channels: after.channels,
                pending_msg_events: node.pending_msg_events + node.channels.filter(
                    |c: ChannelView|
                        {
                            &&& c.connection is Reestablishing || c.connection is Connected && (
                            c.teleport is AwaitingStfu || c.teleport is Quiescent || c.teleport
                                is InitSent || c.teleport is InitReceived)
                            &&& c.ticks matches Some(n)
                            &&& n >= 1
                        },
                ).map_values(
                    |c: ChannelView|
                        MessageView::DisconnectPeer { node_id: c.counterparty_node_id },
                ),
                ..node
            }
            &&& after.channels.len() == node.channels.len()
            &&& forall|i: int|
                0 <= i < node.channels.len() ==> #[trigger] after.channels[i] == (ChannelView {
                    ticks: after.channels[i].ticks,
                    ..node.channels[i]
                })
            &&& forall|i: int|
                0 <= i < node.channels.len() ==> #[trigger] after.channels[i].ticks
                    == node.channels[i].on_timer_tick().channel.ticks
        }),
{
    let step = |channel: ChannelView| channel.on_timer_tick();
    let sends = |c: ChannelView|
        {
            &&& c.connection is Reestablishing || c.connection is Connected && (c.teleport
                is AwaitingStfu || c.teleport is Quiescent || c.teleport is InitSent || c.teleport
                is InitReceived)
            &&& c.ticks matches Some(n)
            &&& n >= 1
        };
    let msg = |c: ChannelView| MessageView::DisconnectPeer { node_id: c.counterparty_node_id };
    assert forall|c: ChannelView| #[trigger]
        step(c).effects.msgs == if sends(c) {
            seq![msg(c)]
        } else {
            seq![]
        } by {
        law_tick(c);
        assert(step(c).effects.msgs =~= if sends(c) {
            seq![msg(c)]
        } else {
            seq![]
        });
    }
    lemma_one_message_each(node.channels, step, sends, msg);
    assert forall|i: int| 0 <= i < node.channels.len() implies #[trigger] node.run_all(
        step,
    ).channels[i] == (ChannelView {
        ticks: node.run_all(step).channels[i].ticks,
        ..node.channels[i]
    }) by {
        law_tick(node.channels[i]);
    }
}

/// A payment that is sent: its identifier is noted, and the HTLC that it becomes has the
/// route's amount and the given hash and onion, and goes to the route's peer on the route's
/// channel, or is held there if the channel takes no updates. A payment whose identifier is
/// noted, or that the channel cannot take, is refused and changes nothing.
pub proof fn law_payment_is_sent_as_requested(
    node: NodeView,
    route: Route,
    payment_hash: PaymentHash,
    onion: RecipientOnionFields,
    payment_id: PaymentId,
    i: int,
)
    requires
        0 <= i < node.channels.len(),
        node.channels[i].channel_id == route.channel_id,
        forall|j: int|
            0 <= j < node.channels.len() && j != i ==> (#[trigger] node.channels[j]).channel_id
                != route.channel_id,
    ensures
        ({
            let (after, result) = node.send_payment(route, payment_hash, onion, payment_id);
            let c = node.channels[i];
            let d = after.channels[i];
            match result {
                Ok(_) => {
                    &&& !node.payments.contains(payment_id)
                    &&& c.counterparty_node_id == route.node_id
                    &&& c.connection is Connected
                    &&& c.next_htlc_id < u64::MAX
                    &&& after == NodeView {
                        channels: node.channels.update(i, d),
                        pending_msg_events: after.pending_msg_events,
                        added_monitors: after.added_monitors,
                        payments: node.payments.push(payment_id),
                        ..node
                    }
                    &&& if c.teleport is Idle && !c.awaiting_raa {
                        let add = d.ours_signed.adds.last();
                        &&& after.added_monitors == node.added_monitors.push(route.channel_id)
                        &&& after.pending_msg_events == node.pending_msg_events.push(
                            MessageView::UpdateHTLCs {
                                node_id: route.node_id,
                                channel_id: route.channel_id,
                                updates: CommitmentUpdateView {
                                    update_add_htlcs: seq![add],
                                    update_fulfill_htlcs: seq![],
                                    commitment_signed: seq![
                                        CommitmentSigned {
                                            channel_id: route.channel_id,
                                            funding_txid: c.funding_txo.txid,
                                        },
                                    ],
                                },
                            },
                        )
                        &&& add.channel_id == route.channel_id
                        &&& add.htlc_id == c.next_htlc_id
                        &&& add.amount_msat == route.amount_msat
                        &&& add.payment_hash == payment_hash
                        &&& add.onion.payment_secret == onion.payment_secret
                        &&& add.onion.total_mpp_amount_msat == onion.total_mpp_amount_msat
                    } else {
                        let add = d.holding_cell.adds.last();
                        &&& after.added_monitors == node.added_monitors
                        &&& after.pending_msg_events == node.pending_msg_events
                        &&& d.holding_cell.adds == c.holding_cell.adds.push(add)
                        &&& add.channel_id == route.channel_id
                        &&& add.htlc_id == c.next_htlc_id
                        &&& add.amount_msat == route.amount_msat
                        &&& add.payment_hash == payment_hash
                        &&& add.onion.payment_secret == onion.payment_secret
                        &&& add.onion.total_mpp_amount_msat == onion.total_mpp_amount_msat
                    }
                },
                Err(failure) => {
                    &&& after == node
                    &&& if node.payments.contains(payment_id) {
                        failure == PaymentSendFailure::DuplicatePayment
                    } else if c.counterparty_node_id != route.node_id {
                        failure == PaymentSendFailure::Channel(ChannelError::ChannelUnavailable)
                    } else if c.connection !is Connected {
                        failure == PaymentSendFailure::Channel(ChannelError::PeerDisconnected)
                    } else {
                        &&& c.next_htlc_id == u64::MAX
                        &&& failure == PaymentSendFailure::Channel(ChannelError::HtlcIdsExhausted)
                    }
                },
            }
        }),
{
    let c = node.channels[i];
    let step = |c: ChannelView| c.send_htlc(route.amount_msat, payment_hash, onion);
    let (after, result) = node.send_payment(route, payment_hash, onion, payment_id);
    law_node_takes_the_step(node, route.channel_id, route.node_id, step, i);
    law_payment_is_offered_as_requested(c, route.amount_msat, payment_hash, onion);
    if result is Ok {
        let taken = step(c)->Ok_0;
        assert(after.channels =~= node.channels.update(i, after.channels[i]));
        assert(after.pending_events =~= node.pending_events);
        assert(after.pending_htlcs =~= node.pending_htlcs);
        if c.teleport is Idle && !c.awaiting_raa {
            let add = after.channels[i].ours_signed.adds.last();
            assert(after.added_monitors =~= node.added_monitors.push(route.channel_id));
            let updates = taken.effects.msgs[0]->UpdateHTLCs_updates;
            assert(updates.update_add_htlcs =~= seq![add]);
            assert(updates.update_fulfill_htlcs =~= seq![]);
            assert(after.pending_msg_events =~= node.pending_msg_events.push(
                taken.effects.msgs[0],
            ));
        } else {
            assert(after.added_monitors =~= node.added_monitors);
            assert(after.pending_msg_events =~= node.pending_msg_events);
        }
    }
}

/// No payment is sent on a channel that the node does not have.
pub proof fn law_payment_needs_its_channel(
    node: NodeView,
    route: Route,
    payment_hash: PaymentHash,
    onion: RecipientOnionFields,
    payment_id: PaymentId,
)
    requires
        forall|j: int|
            0 <= j < node.channels.len() ==> (#[trigger] node.channels[j]).channel_id
                != route.channel_id,
    ensures
        node.send_payment(route, payment_hash, onion, payment_id) == (
            node,
            Err::<(), PaymentSendFailure>(
                if node.payments.contains(payment_id) {
                    PaymentSendFailure::DuplicatePayment
                } else {
                    PaymentSendFailure::Channel(ChannelError::ChannelUnavailable)
                },
            ),
        ),
{
    let step = |c: ChannelView| c.send_htlc(route.amount_msat, payment_hash, onion);
    law_unknown_channel_takes_no_step(node, route.channel_id, route.node_id, step);
}

/// The HTLCs that are ready become claimable, in their order, and the user is told of each
/// with its hash, its secret and its amount. Nothing else of the node changes.
pub proof fn law_ready_htlcs_are_told(node: NodeView)
    ensures
        ({
            let after = node.process_pending_htlc_forwards();
            let told = node.pending_events.len();
            &&& after == NodeView {
                pending_htlcs: seq![],
                claimable_htlcs: node.claimable_htlcs + node.pending_htlcs,
                pending_events: after.pending_events,
                ..node
            }
            &&& after.pending_events.len() == told + node.pending_htlcs.len()
            &&& forall|k: int|
                0 <= k < told ==> #[trigger] after.pending_events[k] == node.pending_events[k]
            &&& forall|k: int|
                #![trigger node.pending_htlcs[k]]
                0 <= k < node.pending_htlcs.len() ==> {
                    &&& after.pending_events[told + k] matches Event::PaymentClaimable {
                        payment_hash,
                        payment_secret,
                        amount_msat,
                    }
                    &&& payment_hash == node.pending_htlcs[k].payment_hash
                    &&& payment_secret == node.pending_htlcs[k].onion.payment_secret
                    &&& amount_msat == node.pending_htlcs[k].amount_msat
                }
        }),
{
}

/// The position of the first HTLC with a hash.
proof fn lemma_hash_position(htlcs: Seq<UpdateAddHtlc>, digest: Seq<u8>, k: int)
    requires
        0 <= k <= htlcs.len(),
        k < htlcs.len() ==> htlcs[k].payment_hash.0@ == digest,
        forall|n: int| 0 <= n < k ==> (#[trigger] htlcs[n]).payment_hash.0@ != digest,
    ensures
        hash_position(htlcs, digest) == k,
    decreases k,
{
    if k > 0 {
        assert(htlcs[0].payment_hash.0@ != digest);
        assert forall|n: int| 0 <= n < k - 1 implies (
        #[trigger] htlcs.drop_first()[n]).payment_hash.0@ != digest by {
            assert(htlcs[n + 1].payment_hash.0@ != digest);
        }
        lemma_hash_position(htlcs.drop_first(), digest, k - 1);
    }
}

/// A claim of a payment: the first claimable HTLC with the hash, at `k`, is claimed on its
/// channel, at `i`, where it is the first with its identifier, at `j`. It is no longer there
/// nor claimable, the user is told of the claim with its hash and amount, and the preimage
/// goes to the peer, or is held if the channel takes no updates. Nothing else changes.
pub proof fn law_payment_is_claimed(
    node: NodeView,
    digest: Seq<u8>,
    payment_preimage: PaymentPreimage,
    k: int,
    i: int,
    j: int,
)
    requires
        0 <= k < node.claimable_htlcs.len(),
        node.claimable_htlcs[k].payment_hash.0@ == digest,
        forall|n: int|
            0 <= n < k ==> (#[trigger] node.claimable_htlcs[n]).payment_hash.0@ != digest,
        0 <= i < node.channels.len(),
        node.channels[i].channel_id == node.claimable_htlcs[k].channel_id,
        forall|n: int|
            0 <= n < node.channels.len() && n != i ==> (#[trigger] node.channels[n]).channel_id
                != node.claimable_htlcs[k].channel_id,
        0 <= j < node.channels[i].inbound_htlcs.len(),
        node.channels[i].inbound_htlcs[j].htlc_id == node.claimable_htlcs[k].htlc_id,
        forall|n: int|
            0 <= n < j ==> (#[trigger] node.channels[i].inbound_htlcs[n]).htlc_id
                != node.claimable_htlcs[k].htlc_id,
    ensures
        ({
            let (after, result) = node.claim(digest, payment_preimage);
            let htlc = node.claimable_htlcs[k];
            let c = node.channels[i];
            let d = after.channels[i];
            let fulfill = UpdateFulfillHtlc {
                channel_id: c.channel_id,
                htlc_id: htlc.htlc_id,
                payment_preimage,
            };
            &&& result is Ok
            &&& after == NodeView {
                channels: node.channels.update(i, d),
                pending_msg_events: after.pending_msg_events,
                pending_events: node.pending_events.push(
                    Event::PaymentClaimed {
                        payment_hash: htlc.payment_hash,
                        amount_msat: htlc.amount_msat,
                    },
                ),
                added_monitors: node.added_monitors.push(c.channel_id),
                claimable_htlcs: node.claimable_htlcs.remove(k),
                ..node
            }
            &&& d.inbound_htlcs == c.inbound_htlcs.remove(j)
            &&& d.outbound_htlcs == c.outbound_htlcs
            &&& d.funding_txo == c.funding_txo
            &&& d.teleport == c.teleport
            &&& if c.connection is Connected && c.teleport is Idle && !c.awaiting_raa {
                after.pending_msg_events == node.pending_msg_events.push(
                    MessageView::UpdateHTLCs {
                        node_id: c.counterparty_node_id,
                        channel_id: c.channel_id,
                        updates: CommitmentUpdateView {
                            update_add_htlcs: seq![],
                            update_fulfill_htlcs: seq![fulfill],
                            commitment_signed: seq![
                                CommitmentSigned {
                                    channel_id: c.channel_id,
                                    funding_txid: c.funding_txo.txid,
                                },
                            ],
                        },
                    },
                )
            } else {
                &&& after.pending_msg_events == node.pending_msg_events
                &&& d.holding_cell == BatchView {
                    adds: c.holding_cell.adds,
                    fulfills: c.holding_cell.fulfills.push(fulfill),
                }
            }
        }),
{
    let htlc = node.claimable_htlcs[k];
    let c = node.channels[i];
    lemma_hash_position(node.claimable_htlcs, digest, k);
    law_claim_gives_the_preimage(c, htlc.htlc_id, payment_preimage, j);
    assert(node.is_at(i, htlc.channel_id));
    assert(node.is_at(node.at(htlc.channel_id), htlc.channel_id));
    let after = node.claim(digest, payment_preimage).0;
    let taken = c.claim_htlc(htlc.htlc_id, payment_preimage)->Ok_0;
    assert(after.channels =~= node.channels.update(i, after.channels[i]));
    assert(after.added_monitors =~= node.added_monitors.push(c.channel_id));
    assert(node.pending_events + taken.effects.events =~= node.pending_events);
    assert(after.pending_htlcs =~= node.pending_htlcs);
    if c.connection is Connected && c.teleport is Idle && !c.awaiting_raa {
        assert(after.pending_msg_events =~= node.pending_msg_events.push(taken.effects.msgs[0]));
    } else {
        assert(after.pending_msg_events =~= node.pending_msg_events);
    }
}

/// A claim is refused, and changes nothing, if no claimable HTLC has the hash, if the node has
/// no channel for the one that has, or if that channel has no such HTLC.
pub proof fn law_claim_is_refused(
    node: NodeView,
    digest: Seq<u8>,
    payment_preimage: PaymentPreimage,
    k: int,
)
    requires
        0 <= k <= node.claimable_htlcs.len(),
        k < node.claimable_htlcs.len() ==> node.claimable_htlcs[k].payment_hash.0@ == digest,
        forall|n: int|
            0 <= n < k ==> (#[trigger] node.claimable_htlcs[n]).payment_hash.0@ != digest,
    ensures
        ({
            let (after, result) = node.claim(digest, payment_preimage);
            &&& result is Err ==> after == node
            &&& k == node.claimable_htlcs.len() ==> result == Err::<(), ChannelError>(
                ChannelError::UnexpectedState,
            )
            &&& k < node.claimable_htlcs.len() && (forall|n: int|
                0 <= n < node.channels.len() ==> (#[trigger] node.channels[n]).channel_id
                    != node.claimable_htlcs[k].channel_id) ==> result == Err::<(), ChannelError>(
                ChannelError::ChannelUnavailable,
            )
            &&& forall|i: int|
                {
                    &&& k < node.claimable_htlcs.len()
                    &&& 0 <= i < node.channels.len()
                    &&& (#[trigger] node.channels[i]).channel_id
                        == node.claimable_htlcs[k].channel_id
                    &&& forall|n: int|
                        0 <= n < node.channels.len() && n != i ==> (
                        #[trigger] node.channels[n]).channel_id
                            != node.claimable_htlcs[k].channel_id
                    &&& forall|n: int|
                        0 <= n < node.channels[i].inbound_htlcs.len() ==> (
                        #[trigger] node.channels[i].inbound_htlcs[n]).htlc_id
                            != node.claimable_htlcs[k].htlc_id
                } ==> result == Err::<(), ChannelError>(ChannelError::UnexpectedState)
        }),
{
    lemma_hash_position(node.claimable_htlcs, digest, k);
    if k < node.claimable_htlcs.len() {
        let htlc = node.claimable_htlcs[k];
        if node.has(htlc.channel_id) {
            let at = node.at(htlc.channel_id);
            assert(node.is_at(at, htlc.channel_id));
            assert(node.channels[at].channel_id == htlc.channel_id);
            if forall|n: int|
                0 <= n < node.channels[at].inbound_htlcs.len() ==> (
                #[trigger] node.channels[at].inbound_htlcs[n]).htlc_id != htlc.htlc_id {
                law_unknown_htlc_is_not_claimed(
                    node.channels[at],
                    htlc.htlc_id,
                    payment_preimage,
                );
            }
        } else {
            assert forall|n: int| 0 <= n < node.channels.len() implies (
            #[trigger] node.channels[n]).channel_id != htlc.channel_id by {
                assert(!node.is_at(n, htlc.channel_id));
            }
        }
    }
}

} // verus!
