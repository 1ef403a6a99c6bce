use teleport::chain_source::ChainSource;
use teleport::exchange::{
    ack_teleport, create_announced_chan_between_nodes, current_funding_txo,
    current_monitor_funding_txo, find_funding_txo, funding_watch_script, get_only_msg_event, monitor_watches_funding_txo, start_teleport,
    test_outpoint,
};
use teleport::monitor::{watched_script, watches_output, ChannelMonitor};
use teleport::msgs::{
    remove_first_msg_event_to_node, CommitmentSigned, CommitmentUpdate, Event, MessageSendEvent,
    RecipientOnionFields, RevokeAndAck, Stfu, TeleportAbort, TeleportAck, TeleportComplete,
    TeleportCompleteAck, TeleportInit, UpdateFulfillHtlc,
};
use teleport::node::Node;
use teleport::node_model::{ChannelDetails, PaymentSendFailure, Route};
use teleport::types::{
    BitcoinOutPoint, ChannelError, ChannelId, NodeId, OutPoint, PaymentHash, PaymentId,
    PaymentPreimage, PaymentSecret, ScriptBuf, Txid,
};

const A: NodeId = NodeId([0xa; 33]);
const B: NodeId = NodeId([0xb; 33]);
const C: NodeId = NodeId([0xc; 33]);
const CHANNEL: ChannelId = ChannelId([1; 32]);
const OTHER: ChannelId = ChannelId([2; 32]);

fn script(byte: u8) -> ScriptBuf {
    ScriptBuf::from_bytes(vec![0, 32, byte])
}

/// Two nodes that share a channel; the first has another one, with a third node.
fn pair() -> (Node, Node) {
    let mut a = Node::new(A);
    let mut b = Node::new(B);
    a.open_channel(OTHER, 3, C, false, test_outpoint(9, 9), script(9)).unwrap();
    create_announced_chan_between_nodes(
        &mut a,
        &mut b,
        CHANNEL,
        (1, 2),
        test_outpoint(1, 0),
        script(1),
    );
    (a, b)
}

fn hash_of(preimage: PaymentPreimage) -> PaymentHash {
    let digest: bitcoin::hashes::sha256::Hash = bitcoin::hashes::Hash::hash(&preimage.0);
    PaymentHash(bitcoin::hashes::Hash::to_byte_array(digest))
}

fn onion() -> RecipientOnionFields {
    RecipientOnionFields::secret_only(PaymentSecret([5; 32]), 70)
}

fn pay(node: &mut Node, to: NodeId, preimage: PaymentPreimage) -> Result<(), PaymentSendFailure> {
    let hash = hash_of(preimage);
    let route = Route { node_id: to, channel_id: CHANNEL, amount_msat: 70 };
    node.send_payment_with_route(route, hash, onion(), PaymentId(hash.0))
}

fn updates(event: MessageSendEvent) -> CommitmentUpdate {
    match event {
        MessageSendEvent::UpdateHTLCs { updates, .. } => updates,
        event => panic!("Unexpected event {:?}", event),
    }
}

/// Delivers the update messages of the two nodes until nothing is left to deliver.
fn deliver_updates(a: &mut Node, b: &mut Node) {
    let mut quiet = 0;
    while quiet < 2 {
        let from_a = a.get_and_clear_pending_msg_events();
        let from_b = b.get_and_clear_pending_msg_events();
        quiet = if from_a.is_empty() && from_b.is_empty() { quiet + 1 } else { 0 };
        for event in from_a {
            hand_over(b, A, event);
        }
        for event in from_b {
            hand_over(a, B, event);
        }
    }
}

fn hand_over(node: &mut Node, from: NodeId, event: MessageSendEvent) {
    match event {
        MessageSendEvent::UpdateHTLCs { updates, .. } => {
            for add in updates.update_add_htlcs.iter() {
                node.handle_update_add_htlc(from, add).unwrap();
            }
            for fulfill in updates.update_fulfill_htlcs.iter() {
                node.handle_update_fulfill_htlc(from, fulfill).unwrap();
            }
            node.handle_commitment_signed(from, &updates.commitment_signed[0]).unwrap();
        }
        MessageSendEvent::SendRevokeAndAck { msg, .. } => {
            node.handle_revoke_and_ack(from, &msg).unwrap();
        }
        event => panic!("Unexpected event {:?}", event),
    }
}

fn reconnect(a: &mut Node, b: &mut Node) -> (Vec<MessageSendEvent>, Vec<MessageSendEvent>) {
    a.peer_connected(B);
    b.peer_connected(A);
    let from_a = match get_only_msg_event(a) {
        MessageSendEvent::SendChannelReestablish { msg, .. } => msg,
        event => panic!("Unexpected event {:?}", event),
    };
    let from_b = match get_only_msg_event(b) {
        MessageSendEvent::SendChannelReestablish { msg, .. } => msg,
        event => panic!("Unexpected event {:?}", event),
    };
    a.handle_channel_reestablish(B, &from_b).unwrap();
    b.handle_channel_reestablish(A, &from_a).unwrap();
    (a.get_and_clear_pending_msg_events(), b.get_and_clear_pending_msg_events())
}

#[test]
fn outpoint_has_the_bytes_of_the_transaction_id() {
    let txo = test_outpoint(3, 1);
    let txid: bitcoin::Txid = bitcoin::hashes::Hash::from_byte_array([3; 32]);
    assert_eq!(txo.txid, Txid(bitcoin::hashes::Hash::to_byte_array(txid)));
    assert_eq!(txo.txid.0, [3; 32]);
    assert_eq!(txo.index, 1);
    assert_ne!(txo, test_outpoint(3, 2));
    assert_ne!(txo, test_outpoint(4, 1));
}

#[test]
fn bitcoin_outpoint_keeps_position() {
    assert_eq!(
        test_outpoint(8, 65535).into_bitcoin_outpoint(),
        BitcoinOutPoint { txid: Txid([8; 32]), vout: 65535 }
    );
}

#[test]
fn start_sends_nothing_more_and_tells_the_responder() {
    let (mut a, mut b) = pair();
    start_teleport(&mut a, &mut b, CHANNEL, test_outpoint(6, 7));
    assert!(a.get_and_clear_pending_msg_events().is_empty());
    assert!(b.get_and_clear_pending_msg_events().is_empty());
    assert!(a.get_and_clear_pending_events().is_empty());
    assert_eq!(
        b.get_and_clear_pending_events(),
        vec![Event::ChannelTeleport {
            channel_id: CHANNEL,
            user_channel_id: 2,
            counterparty_node_id: A,
            new_funding_txo: BitcoinOutPoint { txid: Txid([6; 32]), vout: 7 },
        }]
    );
    assert!(b.get_and_clear_pending_events().is_empty());
}

#[test]
fn agreement_watches_both_outputs() {
    let (mut a, mut b) = pair();
    let new = test_outpoint(6, 7);
    start_teleport(&mut a, &mut b, CHANNEL, new);
    assert!(!monitor_watches_funding_txo(&a, CHANNEL, new));
    ack_teleport(&mut a, &mut b, CHANNEL);
    for node in [&a, &b] {
        assert!(monitor_watches_funding_txo(node, CHANNEL, new));
        assert!(monitor_watches_funding_txo(node, CHANNEL, test_outpoint(1, 0)));
        assert!(!monitor_watches_funding_txo(node, CHANNEL, test_outpoint(6, 8)));
        assert_eq!(funding_watch_script(node, CHANNEL, new), script(1));
        assert!(node.chain_source.watches_output(new, &script(1)));
    }
    assert!(a.take_added_monitors().is_empty());
    assert!(b.take_added_monitors().is_empty());
}

#[test]
fn teleport_within_one_transaction() {
    let (mut a, mut b) = pair();
    let new = test_outpoint(1, 5);
    start_teleport(&mut a, &mut b, CHANNEL, new);
    ack_teleport(&mut a, &mut b, CHANNEL);
    let monitor = a.get_monitor(CHANNEL).unwrap();
    assert_eq!(
        monitor.get_outputs_to_watch(),
        vec![(Txid([1; 32]), vec![(0, script(1)), (5, script(1))])]
    );
    a.complete_teleport(&CHANNEL, &B).unwrap();
    b.handle_teleport_complete(A, &TeleportComplete { channel_id: CHANNEL }).unwrap();
    a.handle_teleport_complete_ack(B, &TeleportCompleteAck { channel_id: CHANNEL }).unwrap();
    for node in [&a, &b] {
        assert_eq!(current_funding_txo(node, CHANNEL), new);
        assert_eq!(current_monitor_funding_txo(node, CHANNEL), new);
        assert!(!monitor_watches_funding_txo(node, CHANNEL, test_outpoint(1, 0)));
        assert_eq!(
            node.get_monitor(CHANNEL).unwrap().get_outputs_to_watch(),
            vec![(Txid([1; 32]), vec![(5, script(1))])]
        );
    }
}

#[test]
fn teleport_to_the_same_output() {
    let (mut a, mut b) = pair();
    let txo = test_outpoint(1, 0);
    start_teleport(&mut a, &mut b, CHANNEL, txo);
    ack_teleport(&mut a, &mut b, CHANNEL);
    assert_eq!(
        a.get_monitor(CHANNEL).unwrap().get_outputs_to_watch(),
        vec![(Txid([1; 32]), vec![(0, script(1))])]
    );
    a.complete_teleport(&CHANNEL, &B).unwrap();
    b.handle_teleport_complete(A, &TeleportComplete { channel_id: CHANNEL }).unwrap();
    a.handle_teleport_complete_ack(B, &TeleportCompleteAck { channel_id: CHANNEL }).unwrap();
    assert_eq!(current_funding_txo(&a, CHANNEL), txo);
    assert!(monitor_watches_funding_txo(&a, CHANNEL, txo));
}

#[test]
fn other_channels_stay_as_they_are() {
    let (mut a, mut b) = pair();
    start_teleport(&mut a, &mut b, CHANNEL, test_outpoint(6, 7));
    ack_teleport(&mut a, &mut b, CHANNEL);
    a.complete_teleport(&CHANNEL, &B).unwrap();
    b.handle_teleport_complete(A, &TeleportComplete { channel_id: CHANNEL }).unwrap();
    a.handle_teleport_complete_ack(B, &TeleportCompleteAck { channel_id: CHANNEL }).unwrap();
    assert_eq!(
        a.list_channels(),
        vec![
            ChannelDetails {
                channel_id: OTHER,
                user_channel_id: 3,
                counterparty_node_id: C,
                funding_txo: Some(test_outpoint(9, 9)),
            },
            ChannelDetails {
                channel_id: CHANNEL,
                user_channel_id: 1,
                counterparty_node_id: B,
                funding_txo: Some(test_outpoint(6, 7)),
            },
        ]
    );
    assert_eq!(current_monitor_funding_txo(&a, OTHER), test_outpoint(9, 9));
}

#[test]
fn unknown_channel_or_peer_is_refused() {
    let (mut a, _) = pair();
    let unknown = ChannelId([77; 32]);
    let txo = test_outpoint(6, 7);
    let refused = Err(ChannelError::ChannelUnavailable);
    assert_eq!(a.teleport_channel(&unknown, &B, txo), refused);
    assert_eq!(a.teleport_channel(&CHANNEL, &C, txo), refused);
    assert_eq!(a.ack_teleport(&unknown, &B), refused);
    assert_eq!(a.cancel_teleport(&CHANNEL, &C), refused);
    assert_eq!(a.complete_teleport(&unknown, &B), refused);
    assert_eq!(a.handle_stfu(C, &Stfu { channel_id: CHANNEL, initiator: true }), refused);
    assert!(a.get_monitor(unknown).is_none());
    assert!(a.get_and_clear_pending_msg_events().is_empty());
}

#[test]
fn messages_out_of_turn_are_refused() {
    let (mut a, mut b) = pair();
    let refused = Err(ChannelError::UnexpectedState);
    let txo = test_outpoint(6, 7);
    let init = TeleportInit { channel_id: CHANNEL, new_funding_txo: txo };
    let ack = TeleportAck { channel_id: CHANNEL };
    let abort = TeleportAbort { channel_id: CHANNEL };
    let complete = TeleportComplete { channel_id: CHANNEL };
    let complete_ack = TeleportCompleteAck { channel_id: CHANNEL };
    let signed = CommitmentSigned { channel_id: CHANNEL, funding_txid: Txid([1; 32]) };

    // Nothing is under way.
    assert_eq!(b.handle_stfu(A, &Stfu { channel_id: CHANNEL, initiator: false }), refused);
    assert_eq!(b.handle_teleport_init(A, &init), refused);
    assert_eq!(b.ack_teleport(&CHANNEL, &A), refused);
    assert_eq!(b.cancel_teleport(&CHANNEL, &A), refused);
    assert_eq!(a.handle_teleport_ack(B, &ack), refused);
    assert_eq!(a.handle_teleport_abort(B, &abort), refused);
    assert_eq!(a.complete_teleport(&CHANNEL, &B), refused);
    assert_eq!(b.handle_teleport_complete(A, &complete), refused);
    assert_eq!(a.handle_teleport_complete_ack(B, &complete_ack), refused);
    assert_eq!(a.handle_commitment_signed(B, &signed), refused);
    assert_eq!(a.handle_revoke_and_ack(B, &RevokeAndAck { channel_id: CHANNEL }), refused);

    // A proposal is under way.
    start_teleport(&mut a, &mut b, CHANNEL, txo);
    assert_eq!(a.teleport_channel(&CHANNEL, &B, txo), refused);
    assert_eq!(b.teleport_channel(&CHANNEL, &A, txo), refused);
    assert_eq!(a.ack_teleport(&CHANNEL, &B), refused);
    assert_eq!(a.cancel_teleport(&CHANNEL, &B), refused);
    assert_eq!(a.complete_teleport(&CHANNEL, &B), refused);
    assert_eq!(b.handle_teleport_complete(A, &complete), refused);

    // It is agreed on.
    ack_teleport(&mut a, &mut b, CHANNEL);
    assert_eq!(b.ack_teleport(&CHANNEL, &A), refused);
    assert_eq!(b.cancel_teleport(&CHANNEL, &A), refused);
    assert_eq!(b.complete_teleport(&CHANNEL, &A), refused);
    assert_eq!(a.handle_teleport_abort(B, &abort), refused);
    assert_eq!(a.handle_teleport_complete_ack(B, &complete_ack), refused);
    assert_eq!(current_funding_txo(&a, CHANNEL), test_outpoint(1, 0));
    assert_eq!(current_funding_txo(&b, CHANNEL), test_outpoint(1, 0));
    assert!(a.get_and_clear_pending_msg_events().is_empty());
    assert!(b.get_and_clear_pending_msg_events().is_empty());
}

#[test]
fn completion_needs_the_signature_on_the_new_output() {
    let (mut a, mut b) = pair();
    start_teleport(&mut a, &mut b, CHANNEL, test_outpoint(6, 7));
    b.ack_teleport(&CHANNEL, &A).unwrap();
    a.handle_teleport_ack(B, &TeleportAck { channel_id: CHANNEL }).unwrap();
    let refused = Err(ChannelError::UnexpectedState);
    assert_eq!(a.complete_teleport(&CHANNEL, &B), refused);
    let on_current = CommitmentSigned { channel_id: CHANNEL, funding_txid: Txid([1; 32]) };
    assert_eq!(a.handle_commitment_signed(B, &on_current), refused);
    assert!(!monitor_watches_funding_txo(&a, CHANNEL, test_outpoint(6, 7)));
    let on_new = CommitmentSigned { channel_id: CHANNEL, funding_txid: Txid([6; 32]) };
    a.handle_commitment_signed(B, &on_new).unwrap();
    assert!(monitor_watches_funding_txo(&a, CHANNEL, test_outpoint(6, 7)));
    assert_eq!(a.handle_commitment_signed(B, &on_new), refused);
    a.complete_teleport(&CHANNEL, &B).unwrap();
}

#[test]
fn disconnected_peer_is_refused() {
    let (mut a, mut b) = pair();
    a.peer_disconnected(B);
    let refused = Err(ChannelError::PeerDisconnected);
    assert_eq!(a.teleport_channel(&CHANNEL, &B, test_outpoint(6, 7)), refused);
    assert_eq!(
        pay(&mut a, B, PaymentPreimage([1; 32])),
        Err(PaymentSendFailure::Channel(ChannelError::PeerDisconnected))
    );
    b.peer_disconnected(A);
    reconnect(&mut a, &mut b);
    pay(&mut a, B, PaymentPreimage([1; 32])).unwrap();
}

#[test]
fn second_channel_with_an_identifier_is_refused() {
    let (mut a, _) = pair();
    assert_eq!(
        a.open_channel(CHANNEL, 4, C, false, test_outpoint(5, 5), script(5)),
        Err(ChannelError::UnexpectedState)
    );
    assert_eq!(a.list_channels().len(), 2);
    assert_eq!(current_funding_txo(&a, CHANNEL), test_outpoint(1, 0));
    assert!(!a.chain_source.watches_output(test_outpoint(5, 5), &script(5)));
}

#[test]
fn payment_identifier_is_used_once() {
    let (mut a, _) = pair();
    pay(&mut a, B, PaymentPreimage([1; 32])).unwrap();
    assert_eq!(
        pay(&mut a, B, PaymentPreimage([1; 32])),
        Err(PaymentSendFailure::DuplicatePayment)
    );
    assert_eq!(a.take_added_monitors(), vec![CHANNEL]);
}

#[test]
fn teleport_waits_for_updates_under_way() {
    let (mut a, mut b) = pair();
    pay(&mut a, B, PaymentPreimage([1; 32])).unwrap();
    let refused = Err(ChannelError::UnexpectedState);
    assert_eq!(a.teleport_channel(&CHANNEL, &B, test_outpoint(6, 7)), refused);
    deliver_updates(&mut a, &mut b);
    start_teleport(&mut a, &mut b, CHANNEL, test_outpoint(6, 7));
}

#[test]
fn cancel_releases_what_was_held() {
    let (mut a, mut b) = pair();
    start_teleport(&mut a, &mut b, CHANNEL, test_outpoint(6, 7));
    pay(&mut a, B, PaymentPreimage([1; 32])).unwrap();
    pay(&mut a, B, PaymentPreimage([2; 32])).unwrap();
    pay(&mut b, A, PaymentPreimage([3; 32])).unwrap();
    assert!(a.get_and_clear_pending_msg_events().is_empty());
    b.cancel_teleport(&CHANNEL, &A).unwrap();
    let mut from_b = b.get_and_clear_pending_msg_events();
    assert_eq!(from_b.len(), 2);
    assert_eq!(
        from_b.remove(0),
        MessageSendEvent::SendTeleportAbort {
            node_id: A,
            msg: TeleportAbort { channel_id: CHANNEL },
        }
    );
    assert_eq!(updates(from_b.remove(0)).update_add_htlcs.len(), 1);
    assert_eq!(b.take_added_monitors(), vec![CHANNEL]);

    a.handle_teleport_abort(B, &TeleportAbort { channel_id: CHANNEL }).unwrap();
    let held = updates(get_only_msg_event(&mut a));
    assert_eq!(held.update_add_htlcs.len(), 2);
    assert_eq!(held.update_add_htlcs[0].payment_hash, hash_of(PaymentPreimage([1; 32])));
    assert_eq!(held.update_add_htlcs[0].htlc_id, 0);
    assert_eq!(held.update_add_htlcs[1].payment_hash, hash_of(PaymentPreimage([2; 32])));
    assert_eq!(held.update_add_htlcs[1].htlc_id, 1);
    assert_eq!(
        held.commitment_signed,
        vec![CommitmentSigned { channel_id: CHANNEL, funding_txid: Txid([1; 32]) }]
    );
    assert_eq!(a.take_added_monitors(), vec![CHANNEL]);
}

#[test]
fn completion_releases_both_ends() {
    let (mut a, mut b) = pair();
    // A payment to be claimed during the teleport.
    pay(&mut a, B, PaymentPreimage([1; 32])).unwrap();
    deliver_updates(&mut a, &mut b);
    b.process_pending_htlc_forwards();
    b.get_and_clear_pending_events();
    a.take_added_monitors();
    b.take_added_monitors();

    start_teleport(&mut a, &mut b, CHANNEL, test_outpoint(6, 7));
    ack_teleport(&mut a, &mut b, CHANNEL);
    b.get_and_clear_pending_events();
    b.claim_funds(PaymentPreimage([1; 32])).unwrap();
    assert_eq!(b.take_added_monitors(), vec![CHANNEL]);
    assert!(b.get_and_clear_pending_msg_events().is_empty());

    a.complete_teleport(&CHANNEL, &B).unwrap();
    a.get_and_clear_pending_msg_events();
    b.handle_teleport_complete(A, &TeleportComplete { channel_id: CHANNEL }).unwrap();
    assert_eq!(b.take_added_monitors(), vec![CHANNEL, CHANNEL]);
    let mut from_b = b.get_and_clear_pending_msg_events();
    assert_eq!(from_b.len(), 2);
    assert!(matches!(from_b.remove(0), MessageSendEvent::SendTeleportCompleteAck { .. }));
    let claim = from_b.remove(0);
    a.handle_teleport_complete_ack(B, &TeleportCompleteAck { channel_id: CHANNEL }).unwrap();
    hand_over(&mut a, B, claim);
    deliver_updates(&mut a, &mut b);
    assert_eq!(
        a.get_and_clear_pending_events(),
        vec![Event::PaymentSent {
            payment_hash: hash_of(PaymentPreimage([1; 32])),
            payment_preimage: PaymentPreimage([1; 32]),
        }]
    );
    // Nothing is under way any more.
    start_teleport(&mut a, &mut b, CHANNEL, test_outpoint(8, 0));
}

#[test]
fn payments_cross() {
    let (mut a, mut b) = pair();
    pay(&mut a, B, PaymentPreimage([1; 32])).unwrap();
    pay(&mut b, A, PaymentPreimage([2; 32])).unwrap();
    pay(&mut a, B, PaymentPreimage([3; 32])).unwrap();
    deliver_updates(&mut a, &mut b);
    a.process_pending_htlc_forwards();
    b.process_pending_htlc_forwards();
    let claimable = |byte: u8| Event::PaymentClaimable {
        payment_hash: hash_of(PaymentPreimage([byte; 32])),
        payment_secret: PaymentSecret([5; 32]),
        amount_msat: 70,
    };
    assert_eq!(a.get_and_clear_pending_events(), vec![claimable(2)]);
    assert_eq!(b.get_and_clear_pending_events(), vec![claimable(1), claimable(3)]);
}

#[test]
fn claim_needs_the_preimage() {
    let (mut a, mut b) = pair();
    pay(&mut a, B, PaymentPreimage([1; 32])).unwrap();
    deliver_updates(&mut a, &mut b);
    b.process_pending_htlc_forwards();
    b.get_and_clear_pending_events();
    let refused = Err(ChannelError::UnexpectedState);
    assert_eq!(b.claim_funds(PaymentPreimage([2; 32])), refused);
    let fulfill = |byte: u8, htlc_id: u64| UpdateFulfillHtlc {
        channel_id: CHANNEL,
        htlc_id,
        payment_preimage: PaymentPreimage([byte; 32]),
    };
    assert_eq!(a.handle_update_fulfill_htlc(B, &fulfill(2, 0)), refused);
    assert_eq!(a.handle_update_fulfill_htlc(B, &fulfill(1, 5)), refused);
    // A hash is not its own preimage.
    let hash = hash_of(PaymentPreimage([1; 32]));
    assert_eq!(b.claim_funds(PaymentPreimage(hash.0)), refused);
    b.claim_funds(PaymentPreimage([1; 32])).unwrap();
    assert_eq!(b.claim_funds(PaymentPreimage([1; 32])), refused);
    a.handle_update_fulfill_htlc(B, &fulfill(1, 0)).unwrap();
    assert_eq!(a.handle_update_fulfill_htlc(B, &fulfill(1, 0)), refused);
}

#[test]
fn claim_by_hash() {
    let (mut a, mut b) = pair();
    pay(&mut a, B, PaymentPreimage([1; 32])).unwrap();
    deliver_updates(&mut a, &mut b);
    b.process_pending_htlc_forwards();
    b.get_and_clear_pending_events();
    let preimage = PaymentPreimage([1; 32]);
    b.claim_payment(hash_of(preimage), preimage).unwrap();
    let claim = updates(get_only_msg_event(&mut b)).update_fulfill_htlcs[0];
    assert_eq!(
        a.handle_fulfill_with_hash(B, &claim, PaymentHash([0; 32])),
        Err(ChannelError::UnexpectedState)
    );
    a.handle_fulfill_with_hash(B, &claim, hash_of(preimage)).unwrap();
    assert_eq!(
        a.get_and_clear_pending_events(),
        vec![Event::PaymentSent { payment_hash: hash_of(preimage), payment_preimage: preimage }]
    );
}

#[test]
fn unanswered_peer_is_disconnected() {
    let (mut a, mut b) = pair();
    start_teleport(&mut a, &mut b, CHANNEL, test_outpoint(6, 7));
    for node in [&mut a, &mut b] {
        node.timer_tick_occurred();
        assert!(node.get_and_clear_pending_msg_events().is_empty());
    }
    a.timer_tick_occurred();
    assert_eq!(
        a.get_and_clear_pending_msg_events(),
        vec![MessageSendEvent::DisconnectPeer { node_id: B }]
    );
    b.timer_tick_occurred();
    assert_eq!(
        b.get_and_clear_pending_msg_events(),
        vec![MessageSendEvent::DisconnectPeer { node_id: A }]
    );
}

#[test]
fn agreed_teleport_never_times_out() {
    let (mut a, mut b) = pair();
    start_teleport(&mut a, &mut b, CHANNEL, test_outpoint(6, 7));
    ack_teleport(&mut a, &mut b, CHANNEL);
    for _ in 0..50 {
        a.timer_tick_occurred();
        b.timer_tick_occurred();
    }
    assert!(b.get_and_clear_pending_msg_events().is_empty());
    a.complete_teleport(&CHANNEL, &B).unwrap();
    a.get_and_clear_pending_msg_events();
    for _ in 0..50 {
        a.timer_tick_occurred();
    }
    assert!(a.get_and_clear_pending_msg_events().is_empty());
}

#[test]
fn sent_acceptance_outlives_a_disconnection() {
    let (mut a, mut b) = pair();
    start_teleport(&mut a, &mut b, CHANNEL, test_outpoint(6, 7));
    b.ack_teleport(&CHANNEL, &A).unwrap();
    assert_eq!(b.get_and_clear_pending_msg_events().len(), 2);
    a.handle_teleport_ack(B, &TeleportAck { channel_id: CHANNEL }).unwrap();
    a.get_and_clear_pending_msg_events();
    a.peer_disconnected(B);
    b.peer_disconnected(A);
    reconnect(&mut a, &mut b);
    pay(&mut a, B, PaymentPreimage([1; 32])).unwrap();
    pay(&mut b, A, PaymentPreimage([2; 32])).unwrap();
    assert!(a.get_and_clear_pending_msg_events().is_empty());
    assert!(b.get_and_clear_pending_msg_events().is_empty());
}

#[test]
fn abandoned_attempt_releases_what_was_held() {
    let (mut a, mut b) = pair();
    start_teleport(&mut a, &mut b, CHANNEL, test_outpoint(6, 7));
    pay(&mut a, B, PaymentPreimage([1; 32])).unwrap();
    a.peer_disconnected(B);
    b.peer_disconnected(A);
    let (mut from_a, from_b) = reconnect(&mut a, &mut b);
    assert_eq!(from_b.len(), 2);
    assert_eq!(from_a.len(), 3);
    assert!(matches!(from_a[0], MessageSendEvent::SendChannelReady { .. }));
    assert!(matches!(from_a[1], MessageSendEvent::SendAnnouncementSignatures { .. }));
    assert_eq!(updates(from_a.remove(2)).update_add_htlcs.len(), 1);
    assert_eq!(a.take_added_monitors(), vec![CHANNEL]);
}

#[test]
fn readiness_is_not_repeated_after_an_update() {
    let (mut a, mut b) = pair();
    pay(&mut a, B, PaymentPreimage([1; 32])).unwrap();
    deliver_updates(&mut a, &mut b);
    a.peer_disconnected(B);
    b.peer_disconnected(A);
    let (from_a, from_b) = reconnect(&mut a, &mut b);
    assert!(from_a.is_empty());
    assert!(from_b.is_empty());
}

#[test]
fn lost_peer_gets_nothing() {
    let (mut a, _) = pair();
    a.teleport_channel(&CHANNEL, &B, test_outpoint(6, 7)).unwrap();
    a.teleport_channel(&OTHER, &C, test_outpoint(6, 8)).unwrap();
    a.peer_disconnected(B);
    assert_eq!(
        a.get_and_clear_pending_msg_events(),
        vec![MessageSendEvent::SendStfu {
            node_id: C,
            msg: Stfu { channel_id: OTHER, initiator: true },
        }]
    );
}

#[test]
fn first_message_to_a_node_is_removed() {
    let to = |node_id: NodeId, channel_id: ChannelId| MessageSendEvent::SendStfu {
        node_id,
        msg: Stfu { channel_id, initiator: true },
    };
    let mut events = vec![to(A, OTHER), to(B, OTHER), to(A, CHANNEL), to(B, CHANNEL)];
    assert_eq!(remove_first_msg_event_to_node(B, &mut events), to(B, OTHER));
    assert_eq!(events, vec![to(A, OTHER), to(A, CHANNEL), to(B, CHANNEL)]);
    assert_eq!(remove_first_msg_event_to_node(A, &mut events), to(A, OTHER));
    assert_eq!(remove_first_msg_event_to_node(B, &mut events), to(B, CHANNEL));
    assert_eq!(events, vec![to(A, CHANNEL)]);
}

#[test]
fn first_listed_channel_gives_the_funding_output() {
    let details = |channel_id: ChannelId, funding_txo: Option<OutPoint>| ChannelDetails {
        channel_id,
        user_channel_id: 0,
        counterparty_node_id: A,
        funding_txo,
    };
    let txo = test_outpoint(1, 2);
    let list = vec![details(OTHER, None), details(CHANNEL, Some(txo)), details(CHANNEL, None)];
    assert_eq!(find_funding_txo(&list, CHANNEL), Some(txo));
    assert_eq!(find_funding_txo(&list, OTHER), None);
    assert_eq!(find_funding_txo(&list, ChannelId([3; 32])), None);
    assert_eq!(find_funding_txo(&vec![], CHANNEL), None);
}

#[test]
fn watch_list_lookup_takes_the_first_match() {
    let watched = vec![
        (Txid([1; 32]), vec![(4, script(1)), (5, script(2))]),
        (Txid([2; 32]), vec![(6, script(3))]),
        (Txid([1; 32]), vec![(6, script(4)), (6, script(5)), (5, script(6))]),
        (Txid([3; 32]), vec![]),
    ];
    assert!(watches_output(&watched, test_outpoint(1, 5)));
    assert_eq!(watched_script(&watched, test_outpoint(1, 5)), Some(script(2)));
    assert_eq!(watched_script(&watched, test_outpoint(1, 6)), Some(script(4)));
    assert_eq!(watched_script(&watched, test_outpoint(2, 6)), Some(script(3)));
    assert!(!watches_output(&watched, test_outpoint(2, 5)));
    assert_eq!(watched_script(&watched, test_outpoint(2, 5)), None);
    assert!(!watches_output(&watched, test_outpoint(3, 0)));
    assert!(!watches_output(&watched, test_outpoint(4, 4)));
}

#[test]
fn monitor_lists_the_funding_output_first() {
    let mut monitor = ChannelMonitor::new(test_outpoint(2, 1), script(1));
    assert_eq!(monitor.get_outputs_to_watch(), vec![(Txid([2; 32]), vec![(1, script(1))])]);
    monitor.watch_pending(test_outpoint(1, 3));
    assert_eq!(
        monitor.get_outputs_to_watch(),
        vec![
            (Txid([2; 32]), vec![(1, script(1))]),
            (Txid([1; 32]), vec![(3, script(1))]),
        ]
    );
    assert_eq!(monitor.get_funding_txo(), test_outpoint(2, 1));
    monitor.drop_pending();
    assert_eq!(monitor.get_outputs_to_watch(), vec![(Txid([2; 32]), vec![(1, script(1))])]);
    monitor.promote(test_outpoint(1, 3));
    assert_eq!(monitor.get_funding_txo(), test_outpoint(1, 3));
    assert_eq!(monitor.get_outputs_to_watch(), vec![(Txid([1; 32]), vec![(3, script(1))])]);
}

#[test]
fn chain_source_forgets_what_it_is_told_to() {
    let mut source = ChainSource::new();
    source.register(test_outpoint(1, 0), &script(1));
    source.register(test_outpoint(1, 0), &script(1));
    source.register(test_outpoint(1, 1), &script(2));
    source.register(test_outpoint(2, 0), &script(1));
    source.remove_watched_txn_and_outputs(test_outpoint(1, 0), script(1));
    assert!(!source.watches_output(test_outpoint(1, 0), &script(1)));
    assert!(!source.watches_txn(Txid([1; 32]), &script(1)));
    assert!(source.watches_output(test_outpoint(1, 1), &script(2)));
    assert!(source.watches_txn(Txid([1; 32]), &script(2)));
    assert!(source.watches_output(test_outpoint(2, 0), &script(1)));
    assert!(source.watches_txn(Txid([2; 32]), &script(1)));
    source.remove_watched_txn_and_outputs(test_outpoint(7, 7), script(1));
    assert!(source.watches_output(test_outpoint(2, 0), &script(1)));
}

#[test]
fn both_ends_watch_one_script() {
    let (mut a, mut b) = pair();
    let current = test_outpoint(1, 0);
    let new = test_outpoint(6, 7);
    let watched = funding_watch_script(&a, CHANNEL, current);
    assert_eq!(watched, script(1));
    assert_eq!(funding_watch_script(&b, CHANNEL, current), watched);
    assert_eq!(funding_watch_script(&a, OTHER, test_outpoint(9, 9)), script(9));
    start_teleport(&mut a, &mut b, CHANNEL, new);
    ack_teleport(&mut a, &mut b, CHANNEL);
    a.peer_disconnected(B);
    assert_eq!(funding_watch_script(&a, CHANNEL, new), watched);
    assert_eq!(funding_watch_script(&b, CHANNEL, new), watched);
    assert_eq!(funding_watch_script(&b, CHANNEL, current), watched);
}

#[test]
fn script_of_one_end_clears_the_other() {
    let (mut a, mut b) = pair();
    let current = test_outpoint(1, 0);
    let watched = funding_watch_script(&a, CHANNEL, current);
    for node in [&a, &b] {
        assert!(node.chain_source().watches_output(current, &watched));
        assert!(node.chain_source().watches_txn(current.txid, &watched));
    }
    a.forget_output(current, watched.clone());
    b.forget_output(current, watched.clone());
    for node in [&a, &b] {
        assert!(!node.chain_source().watches_output(current, &watched));
        assert!(!node.chain_source().watches_txn(current.txid, &watched));
    }
    assert!(a.chain_source().watches_output(test_outpoint(9, 9), &script(9)));
}

#[test]
fn agreed_teleport_is_kept_beside_other_messages() {
    let (mut a, mut b) = pair();
    let new = test_outpoint(6, 7);
    start_teleport(&mut a, &mut b, CHANNEL, new);
    ack_teleport(&mut a, &mut b, CHANNEL);
    a.teleport_channel(&OTHER, &C, test_outpoint(5, 5)).unwrap();
    pay(&mut a, B, PaymentPreimage([1; 32])).unwrap();
    a.peer_disconnected(B);
    b.peer_disconnected(A);
    assert!(monitor_watches_funding_txo(&a, CHANNEL, new));
    assert!(monitor_watches_funding_txo(&a, CHANNEL, test_outpoint(1, 0)));
    a.get_and_clear_pending_msg_events();
    reconnect(&mut a, &mut b);
    a.complete_teleport(&CHANNEL, &B).unwrap();
    a.get_and_clear_pending_msg_events();
    b.handle_teleport_complete(A, &TeleportComplete { channel_id: CHANNEL }).unwrap();
    a.handle_teleport_complete_ack(B, &TeleportCompleteAck { channel_id: CHANNEL }).unwrap();
    assert_eq!(updates(get_only_msg_event(&mut a)).update_add_htlcs.len(), 1);
}
