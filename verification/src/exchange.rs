//! Two nodes that teleport a channel over a connection that loses nothing, and what can be
//! read off a node on the way.
use vstd::prelude::*;
use vstd::pervasive::unreached;
use crate::model::{ChannelView, TeleportState};
use crate::monitor::{
    law_monitor_list_is_what_it_watches, list_gives_script, watched_script, watches_output,
    MonitorView,
};
use crate::msgs::{messages, remove_first_msg_event_to_node, MessageSendEvent};
use crate::node::Node;
use crate::node_model::{
    channel_details, lemma_opened, lemma_positions_kept, ChannelDetails, NodeView,
};
use crate::outside::txid_from_byte_array;
use crate::types::{ChannelId, OutPoint, ScriptBuf};

verus! {

/// An outpoint of a transaction whose id is one byte over and over.
pub fn test_outpoint(byte: u8, vout: u16) -> (outpoint: OutPoint)
    ensures
        outpoint.txid.0@ == Seq::new(32, |i: int| byte),
        outpoint.index == vout,
{
    let outpoint = OutPoint { txid: txid_from_byte_array([byte; 32]), index: vout };
    assert(outpoint.txid.0@ =~= Seq::new(32, |i: int| byte));
    outpoint
}

/// Whether the two nodes are the ends of the channel.
pub open spec fn share_channel(
    initiator: NodeView,
    responder: NodeView,
    channel_id: ChannelId,
) -> bool {
    &&& initiator.has(channel_id)
    &&& responder.has(channel_id)
    &&& initiator.channel(channel_id).counterparty_node_id == responder.node_id
    &&& responder.channel(channel_id).counterparty_node_id == initiator.node_id
    &&& initiator.channel(channel_id).connection is Connected
    &&& responder.channel(channel_id).connection is Connected
}

/// Whether the two nodes' monitors of the channel watch for one script.
pub open spec fn watch_one_script(
    initiator: NodeView,
    responder: NodeView,
    channel_id: ChannelId,
) -> bool {
    initiator.channel(channel_id).monitor.funding_script == responder.channel(
        channel_id,
    ).monitor.funding_script
}

/// Opens an announced channel between two nodes: both ends have one funding output, locked by
/// one script.
pub fn create_announced_chan_between_nodes(
    initiator: &mut Node,
    responder: &mut Node,
    channel_id: ChannelId,
    user_channel_ids: (u128, u128),
    funding_txo: OutPoint,
    funding_script: ScriptBuf,
)
    requires
        old(initiator).wf(),
        old(responder).wf(),
        !old(initiator)@.has(channel_id),
        !old(responder)@.has(channel_id),
    ensures
        final(initiator).wf(),
        final(responder).wf(),
        final(initiator)@ == old(initiator)@.with_opened(
            channel_id,
            user_channel_ids.0,
            old(responder)@.node_id,
            true,
            funding_txo,
            funding_script@,
        ),
        final(responder)@ == old(responder)@.with_opened(
            channel_id,
            user_channel_ids.1,
            old(initiator)@.node_id,
            true,
            funding_txo,
            funding_script@,
        ),
        share_channel(final(initiator)@, final(responder)@, channel_id),
        watch_one_script(final(initiator)@, final(responder)@, channel_id),
        final(initiator)@.channel(channel_id).can_teleport(),
        final(responder)@.channel(channel_id).can_teleport(),
{
    let initiator_id = initiator.get_our_node_id();
    let responder_id = responder.get_our_node_id();
    let script = funding_script.clone();
    proof {
        lemma_opened(
            initiator@,
            channel_id,
            user_channel_ids.0,
            responder_id,
            true,
            funding_txo,
            script@,
        );
        lemma_opened(
            responder@,
            channel_id,
            user_channel_ids.1,
            initiator_id,
            true,
            funding_txo,
            script@,
        );
    }
    initiator.open_channel(
        channel_id,
        user_channel_ids.0,
        responder_id,
        true,
        funding_txo,
        script,
    ).unwrap();
    responder.open_channel(
        channel_id,
        user_channel_ids.1,
        initiator_id,
        true,
        funding_txo,
        funding_script,
    ).unwrap();
}

/// The only message of a node that waits to be sent.
pub fn get_only_msg_event(node: &mut Node) -> (event: MessageSendEvent)
    requires
        old(node)@.pending_msg_events.len() == 1,
    ensures
        event@ == old(node)@.pending_msg_events[0],
        final(node)@ == (NodeView { pending_msg_events: Seq::empty(), ..old(node)@ }),
{
    let mut events = node.get_and_clear_pending_msg_events();
    assert(messages(events@)[0] == events@[0]@);
    events.remove(0)
}

/// The initiator proposes to move the channel to `new_funding_txo`: the two nodes become
/// quiescent, and the responder's user is told of the proposal.
pub fn start_teleport(
    initiator: &mut Node,
    responder: &mut Node,
    channel_id: ChannelId,
    new_funding_txo: OutPoint,
)
    requires
        old(initiator).wf(),
        old(responder).wf(),
        share_channel(old(initiator)@, old(responder)@, channel_id),
        old(initiator)@.channel(channel_id).can_teleport(),
        old(responder)@.channel(channel_id).can_teleport(),
        old(initiator)@.pending_msg_events.len() == 0,
        old(responder)@.pending_msg_events.len() == 0,
    ensures
        final(initiator).wf(),
        final(responder).wf(),
        final(initiator)@ == old(initiator)@.with_channel(
            channel_id,
            old(initiator)@.channel(channel_id).in_state(
                TeleportState::InitSent { new_funding_txo },
            ),
        ),
        final(responder)@ == (NodeView {
            pending_events: old(responder)@.pending_events.push(
                old(responder)@.channel(channel_id).teleport_event(new_funding_txo),
            ),
            ..old(responder)@.with_channel(
                channel_id,
                old(responder)@.channel(channel_id).in_state(
                    TeleportState::InitReceived { new_funding_txo },
                ),
            )
        }),
{
    let ghost a = initiator@.channel(channel_id);
    let ghost b = responder@.channel(channel_id);
    let initiator_id = initiator.get_our_node_id();
    let responder_id = responder.get_our_node_id();

    initiator.teleport_channel(&channel_id, &responder_id, new_funding_txo).unwrap();

    let stfu = match get_only_msg_event(initiator) {
        MessageSendEvent::SendStfu { msg, .. } => msg,
        _ => unreached(),
    };
    proof {
        let awaiting = a.in_state(TeleportState::AwaitingStfu { new_funding_txo });
        lemma_positions_kept(old(initiator)@, initiator@, channel_id, awaiting);
    }
    responder.handle_stfu(initiator_id, &stfu).unwrap();
    let stfu = match get_only_msg_event(responder) {
        MessageSendEvent::SendStfu { msg, .. } => msg,
        _ => unreached(),
    };
    proof {
        let quiescent = b.in_state(TeleportState::Quiescent);
        lemma_positions_kept(old(responder)@, responder@, channel_id, quiescent);
    }
    initiator.handle_stfu(responder_id, &stfu).unwrap();

    let teleport_init = match get_only_msg_event(initiator) {
        MessageSendEvent::SendTeleportInit { msg, .. } => msg,
        _ => unreached(),
    };
    responder.handle_teleport_init(initiator_id, &teleport_init).unwrap();
}

/// The channel after its teleport to `new_funding_txo` was accepted and the peer has signed
/// on the new output: the monitor watches that output too.
pub open spec fn agreed_on(
    channel: ChannelView,
    new_funding_txo: OutPoint,
    initiator: bool,
) -> ChannelView {
    ChannelView {
        monitor: MonitorView { pending_funding_txo: Some(new_funding_txo), ..channel.monitor },
        ..channel.in_state(
            TeleportState::Acked { new_funding_txo, initiator, commitment_received: true },
        )
    }
}

/// The node after its channel's teleport was accepted and the peer has signed on the new
/// output, which is now watched on the chain as well.
pub open spec fn node_agreed_on(
    node: NodeView,
    channel_id: ChannelId,
    new_funding_txo: OutPoint,
    initiator: bool,
) -> NodeView {
    NodeView {
        chain_source: node.chain_source.register(
            new_funding_txo,
            node.channel(channel_id).monitor.funding_script,
        ),
        ..node.with_channel(
            channel_id,
            agreed_on(node.channel(channel_id), new_funding_txo, initiator),
        )
    }
}

/// The responder accepts the proposal, and both nodes sign on the new funding output. Each
/// then watches it besides the current one.
pub fn ack_teleport(initiator: &mut Node, responder: &mut Node, channel_id: ChannelId)
    requires
        old(initiator).wf(),
        old(responder).wf(),
        share_channel(old(initiator)@, old(responder)@, channel_id),
        old(initiator)@.channel(channel_id).teleport matches TeleportState::InitSent {
            new_funding_txo: sent,
        } && old(responder)@.channel(channel_id).teleport matches TeleportState::InitReceived {
            new_funding_txo: received,
        } && sent.txid == received.txid,
        old(initiator)@.pending_msg_events.len() == 0,
        old(responder)@.pending_msg_events.len() == 0,
        old(initiator)@.added_monitors.len() == 0,
        old(responder)@.added_monitors.len() == 0,
    ensures
        final(initiator).wf(),
        final(responder).wf(),
        final(initiator)@ == node_agreed_on(
            old(initiator)@,
            channel_id,
            old(initiator)@.channel(channel_id).teleport->InitSent_new_funding_txo,
            true,
        ),
        final(responder)@ == node_agreed_on(
            old(responder)@,
            channel_id,
            old(responder)@.channel(channel_id).teleport->InitReceived_new_funding_txo,
            false,
        ),
{
    let ghost a = initiator@.channel(channel_id);
    let ghost b = responder@.channel(channel_id);
    let ghost sent = a.teleport->InitSent_new_funding_txo;
    let ghost received = b.teleport->InitReceived_new_funding_txo;
    let initiator_id = initiator.get_our_node_id();
    let responder_id = responder.get_our_node_id();

    responder.ack_teleport(&channel_id, &initiator_id).unwrap();
    let mut responder_events = responder.get_and_clear_pending_msg_events();
    proof {
        assert(responder_events.len() == 2);
        assert(messages(responder_events@)[0] == responder_events@[0]@);
        assert(messages(responder_events@)[1] == responder_events@[1]@);
    }
    let teleport_ack = match remove_first_msg_event_to_node(initiator_id, &mut responder_events) {
        MessageSendEvent::SendTeleportAck { msg, .. } => msg,
        _ => unreached(),
    };
    assert(messages(responder_events@)[0] == responder_events@[0]@);
    let responder_commitment_signed = match remove_first_msg_event_to_node(
        initiator_id,
        &mut responder_events,
    ) {
        MessageSendEvent::UpdateHTLCs { updates, .. } => updates.commitment_signed[0],
        _ => unreached(),
    };
    initiator.handle_teleport_ack(responder_id, &teleport_ack).unwrap();

    let initiator_commitment_signed = match get_only_msg_event(initiator) {
        MessageSendEvent::UpdateHTLCs { updates, .. } => updates.commitment_signed[0],
        _ => unreached(),
    };
    proof {
        let acked = a.in_state(
            TeleportState::Acked {
                new_funding_txo: sent,
                initiator: true,
                commitment_received: false,
            },
        );
        lemma_positions_kept(old(initiator)@, initiator@, channel_id, acked);
        let acked = b.in_state(
            TeleportState::Acked {
                new_funding_txo: received,
                initiator: false,
                commitment_received: false,
            },
        );
        lemma_positions_kept(old(responder)@, responder@, channel_id, acked);
    }

    initiator.handle_commitment_signed(responder_id, &responder_commitment_signed).unwrap();
    let added = initiator.take_added_monitors();
    assert(added.len() == 1);

    responder.handle_commitment_signed(initiator_id, &initiator_commitment_signed).unwrap();
    let added = responder.take_added_monitors();
    assert(added.len() == 1);
}

/// The funding output that a list of channels gives for the channel with the given
/// identifier: that of the first such channel.
pub open spec fn listed_funding_txo(list: Seq<ChannelDetails>, channel_id: ChannelId) -> Option<
    OutPoint,
>
    decreases list.len(),
{
    if list.len() == 0 {
        None
    } else if list[0].channel_id == channel_id {
        list[0].funding_txo
    } else {
        listed_funding_txo(list.drop_first(), channel_id)
    }
}

/// Looks the funding output of a channel up in a list of channels.
pub fn find_funding_txo(list: &Vec<ChannelDetails>, channel_id: ChannelId) -> (txo: Option<
    OutPoint,
>)
    ensures
        txo == listed_funding_txo(list@, channel_id),
{
    let mut i: usize = 0;
    assert(list@.skip(0) =~= list@);
    while i < list.len()
        invariant
            i <= list.len(),
            listed_funding_txo(list@, channel_id) == listed_funding_txo(
                list@.skip(i as int),
                channel_id,
            ),
        decreases list.len() - i,
    {
        if list[i].channel_id == channel_id {
            return list[i].funding_txo;
        }
        assert(list@.skip(i as int).drop_first() =~= list@.skip(i + 1));
        i = i + 1;
    }
    None
}

/// A node's list of channels gives each channel's funding output.
proof fn lemma_listed(node: NodeView, list: Seq<ChannelDetails>, channel_id: ChannelId, from: int)
    requires
        node.wf(),
        node.has(channel_id),
        list == node.channels.map_values(|channel: ChannelView| channel_details(channel)),
        0 <= from <= node.at(channel_id),
    ensures
        listed_funding_txo(list.skip(from), channel_id) == Some(
            node.channel(channel_id).funding_txo,
        ),
    decreases node.at(channel_id) - from,
{
    let at = node.at(channel_id);
    assert(node.is_at(at, channel_id));
    assert(list.skip(from)[0] == channel_details(node.channels[from]));
    if from < at {
        assert(node.channels[from].channel_id != node.channels[at].channel_id);
        lemma_listed(node, list, channel_id, from + 1);
        assert(list.skip(from).drop_first() =~= list.skip(from + 1));
    }
}

/// The output that funds the channel.
pub fn current_funding_txo(node: &Node, channel_id: ChannelId) -> (txo: OutPoint)
    requires
        node.wf(),
        node@.has(channel_id),
    ensures
        txo == node@.channel(channel_id).funding_txo,
{
    let list = node.list_channels();
    proof {
        assert(node@.is_at(node@.at(channel_id), channel_id));
        lemma_listed(node@, list@, channel_id, 0);
        assert(list@.skip(0) =~= list@);
    }
    find_funding_txo(&list, channel_id).unwrap()
}

/// The output that the channel's monitor takes for its funding output.
pub fn current_monitor_funding_txo(node: &Node, channel_id: ChannelId) -> (txo: OutPoint)
    requires
        node.wf(),
        node@.has(channel_id),
    ensures
        txo == node@.channel(channel_id).monitor.funding_txo,
        txo == node@.channel(channel_id).funding_txo,
{
    assert(node@.is_at(node@.at(channel_id), channel_id));
    node.get_monitor(channel_id).unwrap().get_funding_txo()
}

/// Whether the channel's monitor watches the given output.
pub fn monitor_watches_funding_txo(node: &Node, channel_id: ChannelId, funding_txo: OutPoint) -> (r:
    bool)
    requires
        node.wf(),
        node@.has(channel_id),
    ensures
        r == node@.channel(channel_id).monitor.watches(funding_txo),
{
    let watched = node.get_monitor(channel_id).unwrap().get_outputs_to_watch();
    proof {
        law_monitor_list_is_what_it_watches(node@.channel(channel_id).monitor, funding_txo);
    }
    watches_output(&watched, funding_txo)
}

/// The script of a funding output that the channel's monitor watches.
pub fn funding_watch_script(node: &Node, channel_id: ChannelId, funding_txo: OutPoint) -> (script:
    ScriptBuf)
    requires
        node.wf(),
        node@.has(channel_id),
        node@.channel(channel_id).monitor.watches(funding_txo),
    ensures
        list_gives_script(
            node@.channel(channel_id).monitor.outputs_to_watch(),
            funding_txo,
            script@,
        ),
        script@ == node@.channel(channel_id).monitor.funding_script,
{
    let watched = node.get_monitor(channel_id).unwrap().get_outputs_to_watch();
    proof {
        law_monitor_list_is_what_it_watches(node@.channel(channel_id).monitor, funding_txo);
    }
    watched_script(&watched, funding_txo).unwrap()
}

} // verus!
