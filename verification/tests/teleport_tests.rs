use bitcoin::hashes::sha256;
use teleport::exchange::{
    ack_teleport, create_announced_chan_between_nodes, current_funding_txo,
    current_monitor_funding_txo, funding_watch_script, get_only_msg_event, monitor_watches_funding_txo, start_teleport, test_outpoint,
};
use teleport::model::DISCONNECT_PEER_AWAITING_RESPONSE_TICKS;
use teleport::msgs::{
    CommitmentSigned, CommitmentUpdate, Event, MessageSendEvent, RecipientOnionFields, RevokeAndAck,
};
use teleport::node::Node;
use teleport::node_model::Route;
use teleport::types::{
    ChannelId, NodeId, OutPoint, PaymentHash, PaymentId, PaymentPreimage, PaymentSecret, ScriptBuf,
};

fn create_network() -> (Node, Node) {
    (Node::new(NodeId([2; 33])), Node::new(NodeId([3; 33])))
}

fn open_channel(a: &mut Node, b: &mut Node) -> ChannelId {
    let channel_id = ChannelId([7; 32]);
    let funding_txo = test_outpoint(0xf0, 0);
    let script = bitcoin::ScriptBuf::from_bytes(vec![0x51]).to_p2wsh();
    let script = ScriptBuf::from_bytes(script.to_bytes());
    create_announced_chan_between_nodes(a, b, channel_id, (11, 22), funding_txo, script);
    channel_id
}

fn check_added_monitors(node: &mut Node, count: usize) {
    assert_eq!(node.take_added_monitors().len(), count);
}

fn get_event(node: &mut Node) -> Event {
    let mut events = node.get_and_clear_pending_events();
    assert_eq!(events.len(), 1);
    events.pop().unwrap()
}

fn get_htlc_update_msgs(node: &mut Node, recipient: NodeId) -> CommitmentUpdate {
    let mut events = node.get_and_clear_pending_msg_events();
    assert_eq!(events.len(), 1);
    match events.remove(0) {
        MessageSendEvent::UpdateHTLCs { node_id, updates, .. } => {
            assert_eq!(node_id, recipient);
            updates
        }
        event => panic!("Unexpected event {:?}", event),
    }
}

fn get_revoke_commit_msgs(node: &mut Node, recipient: NodeId) -> (RevokeAndAck, CommitmentSigned) {
    let mut events = node.get_and_clear_pending_msg_events();
    assert_eq!(events.len(), 2);
    let raa = match events.remove(0) {
        MessageSendEvent::SendRevokeAndAck { node_id, msg } => {
            assert_eq!(node_id, recipient);
            msg
        }
        event => panic!("Unexpected event {:?}", event),
    };
    let signed = match events.remove(0) {
        MessageSendEvent::UpdateHTLCs { node_id, updates, .. } => {
            assert_eq!(node_id, recipient);
            assert!(updates.update_add_htlcs.is_empty());
            assert!(updates.update_fulfill_htlcs.is_empty());
            updates.commitment_signed[0]
        }
        event => panic!("Unexpected event {:?}", event),
    };
    (raa, signed)
}

/// `node_a` has received updates of `node_b` and now receives the signature for them.
fn do_commitment_signed_dance(
    node_a: &mut Node, node_b: &mut Node, commitment_signed: &Vec<CommitmentSigned>,
) {
    let a_id = node_a.get_our_node_id();
    let b_id = node_b.get_our_node_id();
    check_added_monitors(node_a, 0);
    assert!(node_a.get_and_clear_pending_msg_events().is_empty());
    node_a.handle_commitment_signed(b_id, &commitment_signed[0]).unwrap();
    check_added_monitors(node_a, 1);
    let (raa, signed) = get_revoke_commit_msgs(node_a, b_id);
    check_added_monitors(node_b, 0);
    assert!(node_b.get_and_clear_pending_msg_events().is_empty());
    node_b.handle_revoke_and_ack(a_id, &raa).unwrap();
    assert!(node_b.get_and_clear_pending_msg_events().is_empty());
    check_added_monitors(node_b, 1);
    node_b.handle_commitment_signed(a_id, &signed).unwrap();
    let raa = match get_only_msg_event(node_b) {
        MessageSendEvent::SendRevokeAndAck { node_id, msg } => {
            assert_eq!(node_id, a_id);
            msg
        }
        event => panic!("Unexpected event {:?}", event),
    };
    check_added_monitors(node_b, 1);
    node_a.handle_revoke_and_ack(b_id, &raa).unwrap();
    check_added_monitors(node_a, 1);
    assert!(node_a.get_and_clear_pending_msg_events().is_empty());
}

fn get_route_and_payment_hash(
    responder: &Node, channel_id: ChannelId, amount_msat: u64,
) -> (Route, PaymentHash, PaymentPreimage, PaymentSecret) {
    let preimage = PaymentPreimage([42; 32]);
    let digest: sha256::Hash = bitcoin::hashes::Hash::hash(&preimage.0);
    let hash = PaymentHash(bitcoin::hashes::Hash::to_byte_array(digest));
    let route = Route { node_id: responder.get_our_node_id(), channel_id, amount_msat };
    (route, hash, preimage, PaymentSecret([43; 32]))
}

fn expect_payment_claimable(
    node: &mut Node, payment_hash: PaymentHash, payment_secret: PaymentSecret, amount_msat: u64,
) {
    assert_eq!(
        get_event(node),
        Event::PaymentClaimable { payment_hash, payment_secret, amount_msat }
    );
}

fn send_payment(origin: &mut Node, destination: &mut Node, channel_id: ChannelId, amount: u64) {
    let origin_id = origin.get_our_node_id();
    let destination_id = destination.get_our_node_id();
    let (route, hash, preimage, secret) = get_route_and_payment_hash(destination, channel_id, amount);
    let onion = RecipientOnionFields::secret_only(secret, amount);
    origin.send_payment_with_route(route, hash, onion, PaymentId(hash.0)).unwrap();
    check_added_monitors(origin, 1);
    let updates = get_htlc_update_msgs(origin, destination_id);
    destination.handle_update_add_htlc(origin_id, &updates.update_add_htlcs[0]).unwrap();
    do_commitment_signed_dance(destination, origin, &updates.commitment_signed);
    destination.process_pending_htlc_forwards();
    expect_payment_claimable(destination, hash, secret, amount);

    destination.claim_funds(preimage).unwrap();
    check_added_monitors(destination, 1);
    assert_eq!(
        get_event(destination),
        Event::PaymentClaimed { payment_hash: hash, amount_msat: amount }
    );
    let updates = get_htlc_update_msgs(destination, origin_id);
    assert!(updates.update_add_htlcs.is_empty());
    origin.handle_update_fulfill_htlc(destination_id, &updates.update_fulfill_htlcs[0]).unwrap();
    assert_eq!(
        get_event(origin),
        Event::PaymentSent { payment_hash: hash, payment_preimage: preimage }
    );
    do_commitment_signed_dance(origin, destination, &updates.commitment_signed);
}

struct ReconnectArgs<'a> {
    node_a: &'a mut Node,
    node_b: &'a mut Node,
    send_channel_ready: (bool, bool),
    send_announcement_sigs: (bool, bool),
}

impl<'a> ReconnectArgs<'a> {
    fn new(node_a: &'a mut Node, node_b: &'a mut Node) -> Self {
        ReconnectArgs {
            node_a,
            node_b,
            send_channel_ready: (false, false),
            send_announcement_sigs: (false, false),
        }
    }
}

fn expect_reestablish_msgs(node: &mut Node, peer: NodeId, ready: bool, announcement: bool) {
    let mut events = node.get_and_clear_pending_msg_events();
    if ready {
        match events.remove(0) {
            MessageSendEvent::SendChannelReady { node_id, .. } => assert_eq!(node_id, peer),
            event => panic!("Unexpected event {:?}", event),
        }
    }
    if announcement {
        match events.remove(0) {
            MessageSendEvent::SendAnnouncementSignatures { node_id, .. } => assert_eq!(node_id, peer),
            event => panic!("Unexpected event {:?}", event),
        }
    }
    assert!(events.is_empty());
}

fn reconnect_nodes(args: ReconnectArgs) {
    let a_id = args.node_a.get_our_node_id();
    let b_id = args.node_b.get_our_node_id();
    args.node_a.peer_connected(b_id);
    let reestablish_a = match get_only_msg_event(args.node_a) {
        MessageSendEvent::SendChannelReestablish { node_id, msg } => {
            assert_eq!(node_id, b_id);
            msg
        }
        event => panic!("Unexpected event {:?}", event),
    };
    args.node_b.peer_connected(a_id);
    let reestablish_b = match get_only_msg_event(args.node_b) {
        MessageSendEvent::SendChannelReestablish { node_id, msg } => {
            assert_eq!(node_id, a_id);
            msg
        }
        event => panic!("Unexpected event {:?}", event),
    };
    args.node_a.handle_channel_reestablish(b_id, &reestablish_b).unwrap();
    args.node_b.handle_channel_reestablish(a_id, &reestablish_a).unwrap();
    expect_reestablish_msgs(
        args.node_a,
        b_id,
        args.send_channel_ready.0,
        args.send_announcement_sigs.0,
    );
    expect_reestablish_msgs(
        args.node_b,
        a_id,
        args.send_channel_ready.1,
        args.send_announcement_sigs.1,
    );
    check_added_monitors(args.node_a, 0);
    check_added_monitors(args.node_b, 0);
}

/// The chain source is told to forget the original output; nothing but the new one is left.
fn expect_watched_only(
    node: &Node, channel_id: ChannelId, new: OutPoint, original: OutPoint, script: &ScriptBuf,
) {
    assert!(monitor_watches_funding_txo(node, channel_id, new));
    assert!(!monitor_watches_funding_txo(node, channel_id, original));
    assert!(node.chain_source.watches_output(new, script));
    assert!(node.chain_source.watches_txn(new.txid, script));
    assert!(!node.chain_source.watches_output(original, script));
    assert!(!node.chain_source.watches_txn(original.txid, script));
}

#[test]
fn test_channel_teleport_happy_path_releases_holding_cell() {
    let (mut initiator, mut responder) = create_network();
    let channel_id = open_channel(&mut initiator, &mut responder);
    let (initiator, responder) = (&mut initiator, &mut responder);
    let initiator_id = initiator.get_our_node_id();
    let responder_id = responder.get_our_node_id();
    let new_funding_txo = test_outpoint(3, 1);
    let original_funding_txo = current_funding_txo(initiator, channel_id);
    let original_funding_script = funding_watch_script(initiator, channel_id, original_funding_txo);

    start_teleport(initiator, responder, channel_id, new_funding_txo);

    match get_event(responder) {
        Event::ChannelTeleport {
            channel_id: ev_channel_id,
            user_channel_id: _,
            counterparty_node_id,
            new_funding_txo: ev_outpoint,
        } => {
            assert_eq!(ev_channel_id, channel_id);
            assert_eq!(counterparty_node_id, initiator_id);
            assert_eq!(ev_outpoint, new_funding_txo.into_bitcoin_outpoint());
        }
        _ => panic!(),
    }

    ack_teleport(initiator, responder, channel_id);
    assert_eq!(current_funding_txo(initiator, channel_id), original_funding_txo);
    assert_eq!(current_funding_txo(responder, channel_id), original_funding_txo);
    assert_eq!(current_monitor_funding_txo(initiator, channel_id), original_funding_txo);
    assert_eq!(current_monitor_funding_txo(responder, channel_id), original_funding_txo);
    assert!(monitor_watches_funding_txo(initiator, channel_id, new_funding_txo));
    assert!(monitor_watches_funding_txo(responder, channel_id, new_funding_txo));

    let payment_amount = 1_000_000;
    let (route, payment_hash, _, payment_secret) =
        get_route_and_payment_hash(responder, channel_id, payment_amount);
    let onion = RecipientOnionFields::secret_only(payment_secret, payment_amount);
    let payment_id = PaymentId(payment_hash.0);
    initiator.send_payment_with_route(route, payment_hash, onion, payment_id).unwrap();
    check_added_monitors(initiator, 0);
    assert!(initiator.get_and_clear_pending_msg_events().is_empty());

    initiator.complete_teleport(&channel_id, &responder_id).unwrap();
    let teleport_complete = match get_only_msg_event(initiator) {
        MessageSendEvent::SendTeleportComplete { node_id, msg } => {
            assert_eq!(node_id, responder_id);
            msg
        }
        event => panic!("Unexpected event {:?}", event),
    };
    responder.handle_teleport_complete(initiator_id, &teleport_complete).unwrap();
    check_added_monitors(responder, 1);
    assert_eq!(current_funding_txo(initiator, channel_id), original_funding_txo);
    assert_eq!(current_funding_txo(responder, channel_id), new_funding_txo);
    assert_eq!(current_monitor_funding_txo(initiator, channel_id), original_funding_txo);
    assert_eq!(current_monitor_funding_txo(responder, channel_id), new_funding_txo);

    let teleport_complete_ack = match get_only_msg_event(responder) {
        MessageSendEvent::SendTeleportCompleteAck { node_id, msg } => {
            assert_eq!(node_id, initiator_id);
            msg
        }
        event => panic!("Unexpected event {:?}", event),
    };
    initiator.handle_teleport_complete_ack(responder_id, &teleport_complete_ack).unwrap();
    check_added_monitors(initiator, 2);

    assert_eq!(current_funding_txo(initiator, channel_id), new_funding_txo);
    assert_eq!(current_funding_txo(responder, channel_id), new_funding_txo);
    assert_eq!(current_monitor_funding_txo(initiator, channel_id), new_funding_txo);
    assert_eq!(current_monitor_funding_txo(responder, channel_id), new_funding_txo);
    assert_ne!(new_funding_txo, original_funding_txo);

    let update_add = get_htlc_update_msgs(initiator, responder_id);
    check_added_monitors(initiator, 0);
    responder.handle_update_add_htlc(initiator_id, &update_add.update_add_htlcs[0]).unwrap();
    do_commitment_signed_dance(responder, initiator, &update_add.commitment_signed);
    responder.process_pending_htlc_forwards();
    expect_payment_claimable(responder, payment_hash, payment_secret, payment_amount);

    initiator.chain_source
        .remove_watched_txn_and_outputs(original_funding_txo, original_funding_script.clone());
    responder.chain_source
        .remove_watched_txn_and_outputs(original_funding_txo, original_funding_script.clone());
    expect_watched_only(
        initiator,
        channel_id,
        new_funding_txo,
        original_funding_txo,
        &original_funding_script,
    );
    expect_watched_only(
        responder,
        channel_id,
        new_funding_txo,
        original_funding_txo,
        &original_funding_script,
    );
}

#[test]
fn test_channel_teleport_cancel_exits_quiescence() {
    let (mut initiator, mut responder) = create_network();
    let channel_id = open_channel(&mut initiator, &mut responder);
    let (initiator, responder) = (&mut initiator, &mut responder);
    let initiator_id = initiator.get_our_node_id();
    let responder_id = responder.get_our_node_id();
    let original_funding_txo = current_funding_txo(initiator, channel_id);

    start_teleport(initiator, responder, channel_id, test_outpoint(4, 0));
    assert!(matches!(get_event(responder), Event::ChannelTeleport { .. }));

    responder.cancel_teleport(&channel_id, &initiator_id).unwrap();
    let teleport_abort = match get_only_msg_event(responder) {
        MessageSendEvent::SendTeleportAbort { node_id, msg } => {
            assert_eq!(node_id, initiator_id);
            msg
        }
        event => panic!("Unexpected event {:?}", event),
    };
    initiator.handle_teleport_abort(responder_id, &teleport_abort).unwrap();

    assert_eq!(current_funding_txo(initiator, channel_id), original_funding_txo);
    assert_eq!(current_funding_txo(responder, channel_id), original_funding_txo);

    send_payment(initiator, responder, channel_id, 1_000_000);
}

#[test]
fn test_channel_teleport_disconnect_before_ack_sent_abandons_attempt() {
    let (mut initiator, mut responder) = create_network();
    let channel_id = open_channel(&mut initiator, &mut responder);
    let (initiator, responder) = (&mut initiator, &mut responder);
    let initiator_id = initiator.get_our_node_id();
    let responder_id = responder.get_our_node_id();
    let original_funding_txo = current_funding_txo(initiator, channel_id);

    start_teleport(initiator, responder, channel_id, test_outpoint(5, 0));
    assert!(matches!(get_event(responder), Event::ChannelTeleport { .. }));
    responder.ack_teleport(&channel_id, &initiator_id).unwrap();

    initiator.peer_disconnected(responder_id);
    responder.peer_disconnected(initiator_id);

    let mut reconnect_args = ReconnectArgs::new(initiator, responder);
    reconnect_args.send_channel_ready = (true, true);
    reconnect_args.send_announcement_sigs = (true, true);
    reconnect_nodes(reconnect_args);

    let (route, payment_hash, _, payment_secret) =
        get_route_and_payment_hash(responder, channel_id, 1_000_000);
    let onion = RecipientOnionFields::secret_only(payment_secret, 1_000_000);
    let payment_id = PaymentId(payment_hash.0);
    initiator.send_payment_with_route(route, payment_hash, onion, payment_id).unwrap();
    check_added_monitors(initiator, 1);
    let _ = get_htlc_update_msgs(initiator, responder_id);

    assert_eq!(current_funding_txo(initiator, channel_id), original_funding_txo);
    assert_eq!(current_funding_txo(responder, channel_id), original_funding_txo);
}

#[test]
fn test_channel_teleport_disconnect_after_ack_preserves_quiescence() {
    let (mut initiator, mut responder) = create_network();
    let channel_id = open_channel(&mut initiator, &mut responder);
    let (initiator, responder) = (&mut initiator, &mut responder);
    let initiator_id = initiator.get_our_node_id();
    let responder_id = responder.get_our_node_id();
    let new_funding_txo = test_outpoint(6, 0);
    let original_funding_txo = current_funding_txo(initiator, channel_id);
    let original_funding_script = funding_watch_script(initiator, channel_id, original_funding_txo);

    start_teleport(initiator, responder, channel_id, new_funding_txo);
    assert!(matches!(get_event(responder), Event::ChannelTeleport { .. }));
    ack_teleport(initiator, responder, channel_id);
    assert_eq!(current_funding_txo(responder, channel_id), original_funding_txo);
    assert_eq!(current_monitor_funding_txo(initiator, channel_id), original_funding_txo);
    assert_eq!(current_monitor_funding_txo(responder, channel_id), original_funding_txo);
    assert!(monitor_watches_funding_txo(initiator, channel_id, new_funding_txo));
    assert!(monitor_watches_funding_txo(responder, channel_id, new_funding_txo));

    initiator.peer_disconnected(responder_id);
    responder.peer_disconnected(initiator_id);

    let mut reconnect_args = ReconnectArgs::new(initiator, responder);
    reconnect_args.send_channel_ready = (true, true);
    reconnect_args.send_announcement_sigs = (true, true);
    reconnect_nodes(reconnect_args);

    for _ in 0..=DISCONNECT_PEER_AWAITING_RESPONSE_TICKS {
        initiator.timer_tick_occurred();
        responder.timer_tick_occurred();
    }
    assert!(initiator.get_and_clear_pending_msg_events().is_empty());
    assert!(responder.get_and_clear_pending_msg_events().is_empty());

    let (route, payment_hash, _, payment_secret) =
        get_route_and_payment_hash(responder, channel_id, 1_000_000);
    let onion = RecipientOnionFields::secret_only(payment_secret, 1_000_000);
    let payment_id = PaymentId(payment_hash.0);
    initiator.send_payment_with_route(route, payment_hash, onion, payment_id).unwrap();
    check_added_monitors(initiator, 0);
    assert!(initiator.get_and_clear_pending_msg_events().is_empty());

    initiator.complete_teleport(&channel_id, &responder_id).unwrap();
    let teleport_complete = match get_only_msg_event(initiator) {
        MessageSendEvent::SendTeleportComplete { node_id, msg } => {
            assert_eq!(node_id, responder_id);
            msg
        }
        event => panic!("Unexpected event {:?}", event),
    };
    responder.handle_teleport_complete(initiator_id, &teleport_complete).unwrap();
    check_added_monitors(responder, 1);
    assert_eq!(current_funding_txo(initiator, channel_id), original_funding_txo);
    assert_eq!(current_funding_txo(responder, channel_id), new_funding_txo);
    assert_eq!(current_monitor_funding_txo(initiator, channel_id), original_funding_txo);
    assert_eq!(current_monitor_funding_txo(responder, channel_id), new_funding_txo);
    let teleport_complete_ack = match get_only_msg_event(responder) {
        MessageSendEvent::SendTeleportCompleteAck { node_id, msg } => {
            assert_eq!(node_id, initiator_id);
            msg
        }
        event => panic!("Unexpected event {:?}", event),
    };
    initiator.handle_teleport_complete_ack(responder_id, &teleport_complete_ack).unwrap();
    check_added_monitors(initiator, 2);

    assert_eq!(current_funding_txo(initiator, channel_id), new_funding_txo);
    assert_eq!(current_funding_txo(responder, channel_id), new_funding_txo);
    assert_eq!(current_monitor_funding_txo(initiator, channel_id), new_funding_txo);
    assert_eq!(current_monitor_funding_txo(responder, channel_id), new_funding_txo);

    let _ = get_htlc_update_msgs(initiator, responder_id);

    initiator.chain_source
        .remove_watched_txn_and_outputs(original_funding_txo, original_funding_script.clone());
    responder.chain_source
        .remove_watched_txn_and_outputs(original_funding_txo, original_funding_script.clone());
    expect_watched_only(
        initiator,
        channel_id,
        new_funding_txo,
        original_funding_txo,
        &original_funding_script,
    );
    expect_watched_only(
        responder,
        channel_id,
        new_funding_txo,
        original_funding_txo,
        &original_funding_script,
    );
}
