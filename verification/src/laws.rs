//! What holds of a teleport as a whole.
//!
//! In each law `a` is the end that proposes the teleport and `b` the one that answers.
use vstd::prelude::*;
use crate::batch::BatchView;
use crate::exchange::{agreed_on, node_agreed_on, share_channel, watch_one_script};
use crate::model::{htlc_position, ChannelView, Connection, Effects, Step, TeleportState};
use crate::monitor::{law_monitor_list_is_what_it_watches, list_gives_script, MonitorView};
use crate::msgs::{
    ChannelReestablish, CommitmentSigned, Event, MessageView, RecipientOnionFields, RevokeAndAck,
    Stfu, TeleportAbort, TeleportAck, TeleportComplete, TeleportCompleteAck, TeleportInit,
    UpdateAddHtlc, UpdateFulfillHtlc,
};
use crate::node_model::{lemma_opened, lemma_positions_kept, lemma_same_ids, NodeView};
use crate::step_laws::law_declined_proposal_lets_held_updates_out;
use crate::types::{ChannelError, ChannelId, NodeId, OutPoint, PaymentHash, PaymentPreimage};

verus! {

/// Whether the steps of the given results are taken and send exactly the given messages.
pub open spec fn sends(result: Result<Step, ChannelError>, msgs: Seq<MessageView>) -> bool {
    result is Ok && result->Ok_0.effects.msgs == msgs
}

/// The channel after a step that is taken.
pub open spec fn next(result: Result<Step, ChannelError>) -> ChannelView {
    result->Ok_0.channel
}

/// The opening of a teleport: from two idle ends, `stfu` goes each way, the proposal
/// follows, and the answering user is told of it. Funding and monitors stay.
pub proof fn law_start(a: ChannelView, b: ChannelView, new_funding_txo: OutPoint)
    requires
        a.can_teleport(),
        b.can_teleport(),
    ensures
        ({
            let a1 = a.propose_teleport(new_funding_txo);
            let asked = Stfu { channel_id: a.channel_id, initiator: true };
            let b1 = b.on_stfu(asked);
            let granted = Stfu { channel_id: b.channel_id, initiator: false };
            let a2 = next(a1).on_stfu(granted);
            let init = TeleportInit { channel_id: a.channel_id, new_funding_txo };
            let b2 = next(b1).on_teleport_init(init);
            &&& sends(
                a1,
                seq![MessageView::SendStfu { node_id: a.counterparty_node_id, msg: asked }],
            )
            &&& sends(
                b1,
                seq![MessageView::SendStfu { node_id: b.counterparty_node_id, msg: granted }],
            )
            &&& sends(
                a2,
                seq![MessageView::SendTeleportInit { node_id: a.counterparty_node_id, msg: init }],
            )
            &&& sends(b2, seq![])
            &&& b2->Ok_0.effects.events == seq![b.teleport_event(new_funding_txo)]
            &&& next(a2) == a.in_state(TeleportState::InitSent { new_funding_txo })
            &&& next(b2) == b.in_state(TeleportState::InitReceived { new_funding_txo })
        }),
{
    let a1 = a.propose_teleport(new_funding_txo);
    let asked = Stfu { channel_id: a.channel_id, initiator: true };
    let b1 = b.on_stfu(asked);
    let granted = Stfu { channel_id: b.channel_id, initiator: false };
    let a2 = next(a1).on_stfu(granted);
    let init = TeleportInit { channel_id: a.channel_id, new_funding_txo };
    let b2 = next(b1).on_teleport_init(init);
    assert(a1->Ok_0.effects.msgs =~= seq![
        MessageView::SendStfu { node_id: a.counterparty_node_id, msg: asked },
    ]);
    assert(b1->Ok_0.effects.msgs =~= seq![
        MessageView::SendStfu { node_id: b.counterparty_node_id, msg: granted },
    ]);
    assert(a2->Ok_0.effects.msgs =~= seq![
        MessageView::SendTeleportInit { node_id: a.counterparty_node_id, msg: init },
    ]);
    assert(b2->Ok_0.effects.events =~= seq![b.teleport_event(new_funding_txo)]);
}

/// The agreement on a teleport: the acceptance and the signatures on the new output go each
/// way. Both ends then watch the new output, and both are still funded by the current one.
pub proof fn law_agree(a: ChannelView, b: ChannelView, new_funding_txo: OutPoint)
    requires
        a.wf(),
        b.wf(),
        a.connection is Connected,
        b.connection is Connected,
        a.channel_id == b.channel_id,
        a.teleport == (TeleportState::InitSent { new_funding_txo }),
        b.teleport == (TeleportState::InitReceived { new_funding_txo }),
    ensures
        ({
            let signed = CommitmentSigned {
                channel_id: a.channel_id,
                funding_txid: new_funding_txo.txid,
            };
            let b1 = b.accept_teleport();
            let a1 = a.on_teleport_ack();
            let a2 = next(a1).on_commitment_signed(signed);
            let b2 = next(b1).on_commitment_signed(signed);
            &&& sends(
                b1,
                seq![
                    MessageView::SendTeleportAck {
                        node_id: b.counterparty_node_id,
                        msg: TeleportAck { channel_id: b.channel_id },
                    },
                    b.signature_msg(BatchView::empty(), new_funding_txo.txid),
                ],
            )
            &&& sends(a1, seq![a.signature_msg(BatchView::empty(), new_funding_txo.txid)])
            &&& sends(a2, seq![])
            &&& sends(b2, seq![])
            &&& a1->Ok_0.effects.monitor_updates == 0
            &&& b1->Ok_0.effects.monitor_updates == 0
            &&& a2->Ok_0.effects.monitor_updates == 1
            &&& b2->Ok_0.effects.monitor_updates == 1
            &&& next(a2).funding_txo == a.funding_txo
            &&& next(b2).funding_txo == b.funding_txo
            &&& next(a2).monitor.funding_txo == a.funding_txo
            &&& next(b2).monitor.funding_txo == b.funding_txo
            &&& next(a2).monitor.watches(new_funding_txo)
            &&& next(b2).monitor.watches(new_funding_txo)
            &&& next(a2).monitor.watches(a.funding_txo)
            &&& next(b2).monitor.watches(b.funding_txo)
        }),
{
    assert(b.accept_teleport()->Ok_0.effects.msgs =~= seq![
        MessageView::SendTeleportAck {
            node_id: b.counterparty_node_id,
            msg: TeleportAck { channel_id: b.channel_id },
        },
        b.signature_msg(BatchView::empty(), new_funding_txo.txid),
    ]);
    assert(a.on_teleport_ack()->Ok_0.effects.msgs =~= seq![
        a.signature_msg(BatchView::empty(), new_funding_txo.txid),
    ]);
}

/// The completion of a teleport. The answering end switches first, the proposing end when
/// it hears of that; each is funded by the new output then, and its monitor takes it for
/// the funding output and watches nothing else. The switch is one update of the monitor,
/// and updates that were held go out after it in one message, with one update more.
pub proof fn law_complete(a: ChannelView, b: ChannelView, new_funding_txo: OutPoint)
    requires
        a.wf(),
        b.wf(),
        a.connection is Connected,
        b.connection is Connected,
        a.teleport == (TeleportState::Acked {
            new_funding_txo,
            initiator: true,
            commitment_received: true,
        }),
        b.teleport == (TeleportState::Acked {
            new_funding_txo,
            initiator: false,
            commitment_received: true,
        }),
    ensures
        ({
            let a1 = a.complete_teleport();
            let b1 = b.on_teleport_complete();
            let a2 = next(a1).on_teleport_complete_ack();
            let ack = MessageView::SendTeleportCompleteAck {
                node_id: b.counterparty_node_id,
                msg: TeleportCompleteAck { channel_id: b.channel_id },
            };
            &&& sends(
                a1,
                seq![
                    MessageView::SendTeleportComplete {
                        node_id: a.counterparty_node_id,
                        msg: TeleportComplete { channel_id: a.channel_id },
                    },
                ],
            )
            &&& next(a1).funding_txo == a.funding_txo
            &&& next(a1).monitor == a.monitor
            &&& on_new_funding(b1, b, new_funding_txo, seq![ack])
            &&& on_new_funding(a2, a, new_funding_txo, seq![])
        }),
{
    let a1 = a.complete_teleport();
    let ack = MessageView::SendTeleportCompleteAck {
        node_id: b.counterparty_node_id,
        msg: TeleportCompleteAck { channel_id: b.channel_id },
    };
    assert(a1->Ok_0.effects.msgs =~= seq![
        MessageView::SendTeleportComplete {
            node_id: a.counterparty_node_id,
            msg: TeleportComplete { channel_id: a.channel_id },
        },
    ]);
    lemma_released(b, new_funding_txo, seq![ack], b.on_teleport_complete());
    lemma_released(a, new_funding_txo, seq![], next(a1).on_teleport_complete_ack());
}

/// Whether a step switches the channel to the new funding output, sends the given messages
/// first, and then lets the updates out that the channel had held.
pub open spec fn on_new_funding(
    result: Result<Step, ChannelError>,
    before: ChannelView,
    txo: OutPoint,
    first: Seq<MessageView>,
) -> bool {
    let after = next(result);
    let held = before.holding_cell;
    &&& result is Ok
    &&& after.teleport is Idle
    &&& after.funding_txo == txo
    &&& after.monitor.funding_txo == txo
    &&& after.monitor.pending_funding_txo is None
    &&& after.holding_cell.is_empty()
    &&& held.is_empty() ==> {
        &&& result->Ok_0.effects.msgs == first
        &&& result->Ok_0.effects.monitor_updates == 1
        &&& after.can_send()
    }
    &&& !held.is_empty() ==> {
        &&& result->Ok_0.effects.msgs == first.push(before.signature_msg(held, txo.txid))
        &&& result->Ok_0.effects.monitor_updates == 2
        &&& after.ours_signed == held
    }
}

proof fn lemma_released(
    before: ChannelView,
    txo: OutPoint,
    first: Seq<MessageView>,
    result: Result<Step, ChannelError>,
)
    requires
        before.wf(),
        before.teleport !is Idle,
        before.connection is Connected,
        result is Ok,
        ({
            let switched = Step::to(before.promoted(txo)).persist();
            result->Ok_0 == (Step {
                effects: Effects { msgs: first, ..switched.effects },
                ..switched
            }).release()
        }),
    ensures
        on_new_funding(result, before, txo, first),
{
    assert(BatchView::empty().then_all(before.holding_cell) =~= before.holding_cell);
    assert(before.ours_signed =~= BatchView::empty());
}

/// From two idle ends, the whole exchange leaves both funded by the new output, with
/// monitors that follow, and ready for payments; the HTLCs are those of before.
pub proof fn law_teleport(a: ChannelView, b: ChannelView, new_funding_txo: OutPoint)
    requires
        a.wf(),
        b.wf(),
        a.can_teleport(),
        b.can_teleport(),
        a.channel_id == b.channel_id,
    ensures
        ({
            let id = a.channel_id;
            let signed = CommitmentSigned { channel_id: id, funding_txid: new_funding_txo.txid };
            let a1 = next(a.propose_teleport(new_funding_txo));
            let b1 = next(b.on_stfu(Stfu { channel_id: id, initiator: true }));
            let a2 = next(a1.on_stfu(Stfu { channel_id: id, initiator: false }));
            let b2 = next(b1.on_teleport_init(TeleportInit { channel_id: id, new_funding_txo }));
            let b3 = next(b2.accept_teleport());
            let a3 = next(a2.on_teleport_ack());
            let a4 = next(a3.on_commitment_signed(signed));
            let b4 = next(b3.on_commitment_signed(signed));
            let a5 = next(a4.complete_teleport());
            let b5 = b4.on_teleport_complete();
            let a6 = a5.on_teleport_complete_ack();
            &&& a6 is Ok
            &&& b5 is Ok
            &&& next(a6) == a.promoted(new_funding_txo)
            &&& next(b5) == b.promoted(new_funding_txo)
            &&& next(a6).funding_txo == new_funding_txo
            &&& next(b5).funding_txo == new_funding_txo
            &&& next(a6).monitor.funding_txo == new_funding_txo
            &&& next(b5).monitor.funding_txo == new_funding_txo
            &&& next(a6).monitor.pending_funding_txo is None
            &&& next(b5).monitor.pending_funding_txo is None
            &&& next(a6) == (ChannelView {
                teleport: TeleportState::Idle,
                ticks: None,
                funding_txo: new_funding_txo,
                monitor: next(a6).monitor,
                ..a
            })
            &&& next(b5) == (ChannelView {
                teleport: TeleportState::Idle,
                ticks: None,
                funding_txo: new_funding_txo,
                monitor: next(b5).monitor,
                ..b
            })
            &&& next(a6).outbound_htlcs == a.outbound_htlcs
            &&& next(a6).inbound_htlcs == a.inbound_htlcs
            &&& next(b5).outbound_htlcs == b.outbound_htlcs
            &&& next(b5).inbound_htlcs == b.inbound_htlcs
            &&& next(a6).can_teleport()
            &&& next(b5).can_teleport()
        }),
{
    let id = a.channel_id;
    let signed = CommitmentSigned { channel_id: id, funding_txid: new_funding_txo.txid };
    law_start(a, b, new_funding_txo);
    let a2 = a.in_state(TeleportState::InitSent { new_funding_txo });
    let b2 = b.in_state(TeleportState::InitReceived { new_funding_txo });
    law_agree(a2, b2, new_funding_txo);
    let a4 = next(next(a2.on_teleport_ack()).on_commitment_signed(signed));
    let b4 = next(next(b2.accept_teleport()).on_commitment_signed(signed));
    law_complete(a4, b4, new_funding_txo);
}

/// A cancelled proposal leaves no trace on either end: what was the case before it is the
/// case again, and both ends are ready for payments.
pub proof fn law_cancel_undoes_start(a: ChannelView, b: ChannelView, new_funding_txo: OutPoint)
    requires
        a.wf(),
        b.wf(),
        a.can_teleport(),
        b.can_teleport(),
    ensures
        ({
            let proposed = a.in_state(TeleportState::InitSent { new_funding_txo });
            let received = b.in_state(TeleportState::InitReceived { new_funding_txo });
            let b1 = received.cancel_teleport();
            let a1 = proposed.on_teleport_abort();
            &&& sends(
                b1,
                seq![
                    MessageView::SendTeleportAbort {
                        node_id: b.counterparty_node_id,
                        msg: TeleportAbort { channel_id: b.channel_id },
                    },
                ],
            )
            &&& sends(a1, seq![])
            &&& next(a1) == (ChannelView { ticks: None, ..a })
            &&& next(b1) == (ChannelView { ticks: None, ..b })
            &&& next(a1).can_send()
            &&& next(b1).can_send()
        }),
{
    let received = b.in_state(TeleportState::InitReceived { new_funding_txo });
    assert(received.cancel_teleport()->Ok_0.effects.msgs =~= seq![
        MessageView::SendTeleportAbort {
            node_id: b.counterparty_node_id,
            msg: TeleportAbort { channel_id: b.channel_id },
        },
    ]);
}

/// A proposal is answered once: once it is accepted it can be neither cancelled nor
/// accepted again, and once it is cancelled it can be neither accepted nor cancelled again.
pub proof fn law_proposal_answered_once(b: ChannelView)
    requires
        b.wf(),
    ensures
        b.accept_teleport() matches Ok(step) ==> step.channel.accept_teleport() is Err
            && step.channel.cancel_teleport() is Err,
        b.cancel_teleport() matches Ok(step) ==> step.channel.accept_teleport() is Err
            && step.channel.cancel_teleport() is Err,
{
}

/// While a teleport is under way, a payment is taken but not sent: it waits in the holding
/// cell, behind those that wait already, and neither a message nor an update of the monitor
/// comes of it.
pub proof fn law_quiescent_channel_holds_payments(
    c: ChannelView,
    amount_msat: u64,
    payment_hash: PaymentHash,
    onion: RecipientOnionFields,
)
    requires
        c.connection is Connected,
        c.teleport !is Idle,
        c.next_htlc_id < u64::MAX,
    ensures
        c.send_htlc(amount_msat, payment_hash, onion) == Ok::<Step, ChannelError>(
            Step::to(
                ChannelView {
                    next_htlc_id: (c.next_htlc_id + 1) as u64,
                    holding_cell: c.holding_cell.then_add(
                        c.next_htlc(amount_msat, payment_hash, onion),
                    ),
                    ..c
                },
            ),
        ),
{
}

/// A channel that is ready sends a payment at once, with one update of the monitor.
pub proof fn law_ready_channel_sends_payments(
    c: ChannelView,
    amount_msat: u64,
    payment_hash: PaymentHash,
    onion: RecipientOnionFields,
)
    requires
        c.can_send(),
        c.next_htlc_id < u64::MAX,
    ensures
        ({
            let sent = c.send_htlc(amount_msat, payment_hash, onion);
            let add = c.next_htlc(amount_msat, payment_hash, onion);
            &&& sends(sent, seq![c.update_msg(BatchView::empty().then_add(add))])
            &&& sent->Ok_0.effects.monitor_updates == 1
            &&& next(sent).funding_txo == c.funding_txo
        }),
{
    let add = c.next_htlc(amount_msat, payment_hash, onion);
    assert(c.send_htlc(amount_msat, payment_hash, onion)->Ok_0.effects.msgs =~= seq![
        c.update_msg(BatchView::empty().then_add(add)),
    ]);
}

/// The channel after its peer was lost and has come back, both ends having resumed it.
pub open spec fn reconnected(c: ChannelView, ack_unsent: bool, msg: ChannelReestablish) -> Result<
    Step,
    ChannelError,
> {
    c.on_peer_disconnected(ack_unsent).on_peer_connected().channel.on_channel_reestablish(msg)
}

/// A disconnection ends a teleport that was not accepted, and one whose acceptance this end
/// has not sent: after the reconnection the channel is funded and watched as before, and
/// idle; unless updates were held, which go out then, it is ready for payments.
pub proof fn law_disconnect_before_ack_abandons(
    c: ChannelView,
    ack_unsent: bool,
    msg: ChannelReestablish,
)
    requires
        c.wf(),
        c.teleport !is Idle,
        !c.teleport.outlives_disconnect(ack_unsent),
    ensures
        reconnected(c, ack_unsent, msg) is Ok,
        ({
            let after = next(reconnected(c, ack_unsent, msg));
            &&& after.teleport is Idle
            &&& after.funding_txo == c.funding_txo
            &&& after.monitor.funding_txo == c.funding_txo
            &&& after.monitor.pending_funding_txo is None
            &&& after.holding_cell.is_empty()
            &&& c.holding_cell.is_empty() ==> after.can_send()
            &&& !c.holding_cell.is_empty() ==> after.ours_signed == c.holding_cell
                && reconnected(c, ack_unsent, msg)->Ok_0.effects.msgs.last() == c.update_msg(
                c.holding_cell,
            )
        }),
{
    assert(BatchView::empty().then_all(c.holding_cell) =~= c.holding_cell);
    assert(c.ours_signed =~= BatchView::empty());
}

/// A disconnection does not end a teleport that is agreed on: after the reconnection the
/// channel is as before, down to the updates that it holds, and still sends none.
pub proof fn law_disconnect_after_ack_preserves(
    c: ChannelView,
    ack_unsent: bool,
    msg: ChannelReestablish,
)
    requires
        c.wf(),
        c.teleport.outlives_disconnect(ack_unsent),
    ensures
        reconnected(c, ack_unsent, msg) is Ok,
        next(reconnected(c, ack_unsent, msg)) == (ChannelView {
            connection: Connection::Connected,
            ticks: None,
            ..c
        }),
        !next(reconnected(c, ack_unsent, msg)).can_send(),
{
}

/// What a teleport outlives: before the agreement, nothing; after it, every disconnection,
/// but for the end that answers while its acceptance waits to be sent.
pub proof fn law_what_outlives_a_disconnect(teleport: TeleportState, ack_unsent: bool)
    ensures
        !teleport.agreed() ==> !teleport.outlives_disconnect(ack_unsent),
        teleport.agreed() && !ack_unsent ==> teleport.outlives_disconnect(ack_unsent),
        teleport matches TeleportState::Acked { initiator, .. } && !initiator && ack_unsent
            ==> !teleport.outlives_disconnect(ack_unsent),
{
}

/// The channel after a number of timer ticks.
pub open spec fn ticked(c: ChannelView, ticks: nat) -> ChannelView
    decreases ticks,
{
    if ticks == 0 {
        c
    } else {
        ticked(c, (ticks - 1) as nat).on_timer_tick().channel
    }
}

/// A teleport that is agreed on may take any time: however many ticks pass, the peer is not
/// disconnected and the teleport stays as it is.
pub proof fn law_agreed_teleport_never_times_out(c: ChannelView, ticks: nat)
    requires
        c.connection is Connected,
        c.teleport.agreed(),
    ensures
        ticked(c, ticks).on_timer_tick() == Step::to(ChannelView { ticks: None, ..c }),
    decreases ticks,
{
    if ticks > 0 {
        law_agreed_teleport_never_times_out(c, (ticks - 1) as nat);
    }
}

/// A peer that owes an answer is not disconnected at the first tick, and is at the second.
pub proof fn law_unanswered_peer_is_disconnected(c: ChannelView)
    requires
        c.awaits_response(),
        c.ticks is None,
    ensures
        c.on_timer_tick().effects.msgs == Seq::<MessageView>::empty(),
        ticked(c, 1).on_timer_tick().effects.msgs == seq![
            MessageView::DisconnectPeer { node_id: c.counterparty_node_id },
        ],
{
    reveal_with_fuel(ticked, 2);
    assert(ticked(c, 1).on_timer_tick().effects.msgs =~= seq![
        MessageView::DisconnectPeer { node_id: c.counterparty_node_id },
    ]);
}

/// The funding output changes at no step but the switch that ends a teleport, and there it
/// becomes the output that the teleport was agreed on for.
pub proof fn law_only_completion_moves_funding(
    c: ChannelView,
    txo: OutPoint,
    stfu: Stfu,
    init: TeleportInit,
    signed: CommitmentSigned,
    add: UpdateAddHtlc,
    fulfill: UpdateFulfillHtlc,
    digest: Seq<u8>,
    reestablish: ChannelReestablish,
    ack_unsent: bool,
)
    ensures
        c.propose_teleport(txo) matches Ok(step) ==> step.channel.funding_txo == c.funding_txo,
        c.on_stfu(stfu) matches Ok(step) ==> step.channel.funding_txo == c.funding_txo,
        c.on_teleport_init(init) matches Ok(step) ==> step.channel.funding_txo == c.funding_txo,
        c.accept_teleport() matches Ok(step) ==> step.channel.funding_txo == c.funding_txo,
        c.on_teleport_ack() matches Ok(step) ==> step.channel.funding_txo == c.funding_txo,
        c.cancel_teleport() matches Ok(step) ==> step.channel.funding_txo == c.funding_txo,
        c.on_teleport_abort() matches Ok(step) ==> step.channel.funding_txo == c.funding_txo,
        c.complete_teleport() matches Ok(step) ==> step.channel.funding_txo == c.funding_txo,
        c.on_commitment_signed(signed) matches Ok(step) ==> step.channel.funding_txo
            == c.funding_txo,
        c.on_revoke_and_ack() matches Ok(step) ==> step.channel.funding_txo == c.funding_txo,
        c.send_htlc(add.amount_msat, add.payment_hash, add.onion) matches Ok(step)
            ==> step.channel.funding_txo == c.funding_txo,
        c.on_update_add_htlc(add) matches Ok(step) ==> step.channel.funding_txo == c.funding_txo,
        c.claim_htlc(fulfill.htlc_id, fulfill.payment_preimage) matches Ok(step)
            ==> step.channel.funding_txo == c.funding_txo,
        c.on_update_fulfill_htlc(fulfill, digest) matches Ok(step) ==> step.channel.funding_txo
            == c.funding_txo,
        c.on_peer_disconnected(ack_unsent).funding_txo == c.funding_txo,
        c.on_peer_connected().channel.funding_txo == c.funding_txo,
        c.on_channel_reestablish(reestablish) matches Ok(step) ==> step.channel.funding_txo
            == c.funding_txo,
        c.on_timer_tick().channel.funding_txo == c.funding_txo,
        c.on_teleport_complete() matches Ok(step) ==> Some(step.channel.funding_txo)
            == c.teleport.watched(),
        c.on_teleport_complete_ack() matches Ok(step) ==> Some(step.channel.funding_txo)
            == c.teleport.watched(),
{
}

/// The messages of one payment from `a` to `b`, one after the other: the offer with its
/// signature, then revocations and signatures until both ends are committed to the HTLC.
/// Nothing is under way then, and the HTLC is handed on at `b`, exactly as `a` offered it.
pub proof fn law_payment_arrives(
    a: ChannelView,
    b: ChannelView,
    amount_msat: u64,
    payment_hash: PaymentHash,
    onion: RecipientOnionFields,
)
    requires
        a.wf(),
        b.wf(),
        a.can_teleport(),
        b.can_teleport(),
        a.channel_id == b.channel_id,
        a.funding_txo == b.funding_txo,
        a.next_htlc_id < u64::MAX,
    ensures
        ({
            let add = a.next_htlc(amount_msat, payment_hash, onion);
            let signed = CommitmentSigned {
                channel_id: a.channel_id,
                funding_txid: a.funding_txo.txid,
            };
            let a1 = next(a.send_htlc(amount_msat, payment_hash, onion));
            let b1 = next(b.on_update_add_htlc(add));
            let b2 = b1.on_commitment_signed(signed);
            let a2 = a1.on_revoke_and_ack();
            let a3 = next(a2).on_commitment_signed(signed);
            let b3 = next(b2).on_revoke_and_ack();
            let revoked = RevokeAndAck { channel_id: a.channel_id };
            &&& sends(
                b2,
                seq![
                    MessageView::SendRevokeAndAck {
                        node_id: b.counterparty_node_id,
                        msg: revoked,
                    },
                    b.update_msg(BatchView::empty()),
                ],
            )
            &&& sends(a2, seq![])
            &&& sends(
                a3,
                seq![
                    MessageView::SendRevokeAndAck {
                        node_id: a.counterparty_node_id,
                        msg: revoked,
                    },
                ],
            )
            &&& sends(b3, seq![])
            &&& b3->Ok_0.effects.received == seq![add]
            &&& add.channel_id == a.channel_id
            &&& add.htlc_id == a.next_htlc_id
            &&& add.amount_msat == amount_msat
            &&& add.payment_hash == payment_hash
            &&& add.onion == onion
            &&& next(a3).can_teleport()
            &&& next(b3).can_teleport()
            &&& next(a3).outbound_htlcs == a.outbound_htlcs.push(add)
            &&& next(b3).inbound_htlcs == b.inbound_htlcs.push(add)
        }),
{
    let add = a.next_htlc(amount_msat, payment_hash, onion);
    let signed = CommitmentSigned { channel_id: a.channel_id, funding_txid: a.funding_txo.txid };
    let a1 = next(a.send_htlc(amount_msat, payment_hash, onion));
    let b1 = next(b.on_update_add_htlc(add));
    let b2 = b1.on_commitment_signed(signed);
    let a2 = a1.on_revoke_and_ack();
    let a3 = next(a2).on_commitment_signed(signed);
    let b3 = next(b2).on_revoke_and_ack();
    let revoked = RevokeAndAck { channel_id: a.channel_id };
    assert(a1.ours_signed.adds =~= seq![add]);
    assert(b1.theirs_announced.adds =~= seq![add]);
    assert(b2->Ok_0.effects.msgs =~= seq![
        MessageView::SendRevokeAndAck { node_id: b.counterparty_node_id, msg: revoked },
        b.update_msg(BatchView::empty()),
    ]);
    assert(next(b2).theirs_signed.adds =~= seq![add]);
    assert(next(a2).ours_revoked.adds =~= seq![add]);
    assert(a3->Ok_0.effects.msgs =~= seq![
        MessageView::SendRevokeAndAck { node_id: a.counterparty_node_id, msg: revoked },
    ]);
    assert(next(a3).outbound_htlcs =~= a.outbound_htlcs.push(add));
    assert(next(b3).inbound_htlcs =~= b.inbound_htlcs.push(add));
}

/// A refused step leaves the node as it is.
pub proof fn law_refusal_changes_nothing(
    node: NodeView,
    channel_id: ChannelId,
    peer: NodeId,
    step: spec_fn(ChannelView) -> Result<Step, ChannelError>,
)
    ensures
        node.run(channel_id, peer, step).1 is Err ==> node.run(channel_id, peer, step).0 == node,
{
}

/// A step of one channel leaves every other channel as it is.
pub proof fn law_other_channels_stay(
    node: NodeView,
    channel_id: ChannelId,
    peer: NodeId,
    step: spec_fn(ChannelView) -> Result<Step, ChannelError>,
    i: int,
)
    requires
        node.wf(),
        0 <= i < node.channels.len(),
        node.channels[i].channel_id != channel_id,
    ensures
        node.run(channel_id, peer, step).0.channels[i] == node.channels[i],
{
    if node.has(channel_id) {
        assert(node.is_at(node.at(channel_id), channel_id));
    }
}

/// In every well-formed node each channel's monitor takes the channel's funding output for
/// its own, and watches it and, from the peer's signature on it to the switch, the output
/// that the channel is to move to, and nothing else.
pub proof fn law_monitor_follows_funding(node: NodeView, channel_id: ChannelId, txo: OutPoint)
    requires
        node.wf(),
        node.has(channel_id),
    ensures
        node.channel(channel_id).monitor.funding_txo == node.channel(channel_id).funding_txo,
        node.channel(channel_id).monitor.watches(txo) <==> (txo == node.channel(
            channel_id,
        ).funding_txo || Some(txo) == node.channel(channel_id).teleport.watched()),
{
    assert(node.is_at(node.at(channel_id), channel_id));
}

/// In every well-formed node no HTLC update is under way on a channel that teleports, and
/// nothing is held back on a channel that may send.
pub proof fn law_quiescence_is_quiet(node: NodeView, channel_id: ChannelId)
    requires
        node.wf(),
        node.has(channel_id),
    ensures
        node.channel(channel_id).teleport !is Idle ==> node.channel(channel_id).settled(),
        node.channel(channel_id).can_send() ==> node.channel(channel_id).holding_cell.is_empty(),
{
    assert(node.is_at(node.at(channel_id), channel_id));
}

/// An output that a channel's monitor begins to watch is registered at the chain source,
/// with the channel's funding script.
pub proof fn law_new_watch_is_registered(
    node: NodeView,
    channel_id: ChannelId,
    peer: NodeId,
    msg: CommitmentSigned,
    txo: OutPoint,
)
    requires
        node.wf(),
        node.has(channel_id),
    ensures
        ({
            let after = node.run(
                channel_id,
                peer,
                |c: ChannelView| c.on_commitment_signed(msg),
            ).0;
            let monitor = after.channel(channel_id).monitor;
            monitor.watches(txo) && !node.channel(channel_id).monitor.watches(txo)
                ==> after.chain_source.watched_outputs.contains((txo, monitor.funding_script))
                && after.chain_source.watched_txn.contains((txo.txid, monitor.funding_script))
        }),
{
    let c = node.channel(channel_id);
    let (after, result) = node.run(
        channel_id,
        peer,
        |c: ChannelView| c.on_commitment_signed(msg),
    );
    assert(node.is_at(node.at(channel_id), channel_id));
    if result is Ok {
        lemma_positions_kept(node, after, channel_id, next(c.on_commitment_signed(msg)));
    }
}

/// Once a peer is gone, nothing waits to be sent to it, and what waits to be sent to others
/// still does.
pub proof fn law_lost_peer_gets_nothing(node: NodeView, peer: NodeId, msg: MessageView)
    ensures
        node.peer_disconnected(peer).pending_msg_events.contains(msg) <==> (
        node.pending_msg_events.contains(msg) && msg.to() != peer),
{
    let keep = |m: MessageView| m.to() != peer;
    let before = node.pending_msg_events;
    let after = before.filter(keep);
    if after.contains(msg) {
        before.lemma_filter_contains_rev(keep, msg);
        let i = choose|i: int| 0 <= i < after.len() && after[i] == msg;
        before.lemma_filter_pred(keep, i);
    }
    if before.contains(msg) && msg.to() != peer {
        let i = choose|i: int| 0 <= i < before.len() && before[i] == msg;
        before.lemma_filter_contains(keep, i);
    }
}

/// The messages of the claim of an HTLC of `a` by `b`, one after the other: the claim with
/// its signature, then revocations and signatures. The user of `a` learns the preimage;
/// nothing is under way at the end, and the HTLC is gone from both ends.
pub proof fn law_claim_settles(
    a: ChannelView,
    b: ChannelView,
    htlc_id: u64,
    payment_preimage: PaymentPreimage,
    digest: Seq<u8>,
)
    requires
        a.wf(),
        b.wf(),
        a.can_teleport(),
        b.can_teleport(),
        a.channel_id == b.channel_id,
        a.funding_txo == b.funding_txo,
        htlc_position(a.outbound_htlcs, htlc_id) < a.outbound_htlcs.len(),
        htlc_position(b.inbound_htlcs, htlc_id) < b.inbound_htlcs.len(),
        a.outbound_htlcs[htlc_position(a.outbound_htlcs, htlc_id) as int].payment_hash.0@ == digest,
    ensures
        ({
            let i = htlc_position(a.outbound_htlcs, htlc_id) as int;
            let j = htlc_position(b.inbound_htlcs, htlc_id) as int;
            let fulfill = UpdateFulfillHtlc {
                channel_id: b.channel_id,
                htlc_id,
                payment_preimage,
            };
            let signed = CommitmentSigned {
                channel_id: a.channel_id,
                funding_txid: a.funding_txo.txid,
            };
            let b1 = b.claim_htlc(htlc_id, payment_preimage);
            let a1 = a.on_update_fulfill_htlc(fulfill, digest);
            let a2 = next(a1).on_commitment_signed(signed);
            let b2 = next(b1).on_revoke_and_ack();
            let b3 = next(b2).on_commitment_signed(signed);
            let a3 = next(a2).on_revoke_and_ack();
            &&& sends(b1, seq![b.update_msg(BatchView::empty().then_fulfill(fulfill))])
            &&& a1 is Ok
            &&& a1->Ok_0.effects.events == seq![
                Event::PaymentSent {
                    payment_hash: a.outbound_htlcs[i].payment_hash,
                    payment_preimage,
                },
            ]
            &&& a3 is Ok
            &&& b3 is Ok
            &&& a3->Ok_0.effects.received == Seq::<UpdateAddHtlc>::empty()
            &&& next(a3).can_teleport()
            &&& next(b3).can_teleport()
            &&& next(a3).outbound_htlcs == a.outbound_htlcs.remove(i)
            &&& next(b3).inbound_htlcs == b.inbound_htlcs.remove(j)
        }),
{
    let i = htlc_position(a.outbound_htlcs, htlc_id) as int;
    let j = htlc_position(b.inbound_htlcs, htlc_id) as int;
    let fulfill = UpdateFulfillHtlc { channel_id: b.channel_id, htlc_id, payment_preimage };
    let signed = CommitmentSigned { channel_id: a.channel_id, funding_txid: a.funding_txo.txid };
    let b1 = b.claim_htlc(htlc_id, payment_preimage);
    let a1 = a.on_update_fulfill_htlc(fulfill, digest);
    let a2 = next(a1).on_commitment_signed(signed);
    let b2 = next(b1).on_revoke_and_ack();
    let b3 = next(b2).on_commitment_signed(signed);
    let a3 = next(a2).on_revoke_and_ack();
    assert(b1->Ok_0.effects.msgs =~= seq![
        b.update_msg(BatchView::empty().then_fulfill(fulfill)),
    ]);
    assert(next(b1).ours_signed.fulfills =~= seq![fulfill]);
    assert(next(a1).theirs_announced.fulfills =~= seq![fulfill]);
    assert(next(a2).theirs_signed.fulfills =~= seq![fulfill]);
    assert(next(b2).ours_revoked.fulfills =~= seq![fulfill]);
    assert(next(a3).outbound_htlcs =~= a.outbound_htlcs.remove(i));
    assert(next(b3).inbound_htlcs =~= b.inbound_htlcs.remove(j));
    assert(a1->Ok_0.effects.events =~= seq![
        Event::PaymentSent { payment_hash: a.outbound_htlcs[i].payment_hash, payment_preimage },
    ]);
}

/// Between two nodes that have agreed on a teleport, the request to complete it and the two
/// messages that follow move both nodes' channels to the new output. Until the last of them
/// the initiator's channel stays on the current one.
pub proof fn law_nodes_complete(
    initiator: NodeView,
    responder: NodeView,
    channel_id: ChannelId,
    new_funding_txo: OutPoint,
)
    requires
        initiator.wf(),
        responder.wf(),
        share_channel(initiator, responder, channel_id),
        initiator.channel(channel_id).teleport == (TeleportState::Acked {
            new_funding_txo,
            initiator: true,
            commitment_received: true,
        }),
        responder.channel(channel_id).teleport == (TeleportState::Acked {
            new_funding_txo,
            initiator: false,
            commitment_received: true,
        }),
    ensures
        ({
            let (i1, asked) = initiator.run(
                channel_id,
                responder.node_id,
                |c: ChannelView| c.complete_teleport(),
            );
            let (r1, answered) = responder.run(
                channel_id,
                initiator.node_id,
                |c: ChannelView| c.on_teleport_complete(),
            );
            let (i2, heard) = i1.run(
                channel_id,
                responder.node_id,
                |c: ChannelView| c.on_teleport_complete_ack(),
            );
            &&& asked is Ok
            &&& answered is Ok
            &&& heard is Ok
            &&& i1.channel(channel_id).funding_txo == initiator.channel(channel_id).funding_txo
            &&& r1.channel(channel_id).funding_txo == new_funding_txo
            &&& r1.channel(channel_id).monitor.funding_txo == new_funding_txo
            &&& i2.channel(channel_id).funding_txo == new_funding_txo
            &&& i2.channel(channel_id).monitor.funding_txo == new_funding_txo
            &&& i2.channel(channel_id).teleport is Idle
            &&& r1.channel(channel_id).teleport is Idle
        }),
{
    let a = initiator.channel(channel_id);
    let b = responder.channel(channel_id);
    assert(initiator.is_at(initiator.at(channel_id), channel_id));
    assert(responder.is_at(responder.at(channel_id), channel_id));
    law_complete(a, b, new_funding_txo);
    let i1 = initiator.run(
        channel_id,
        responder.node_id,
        |c: ChannelView| c.complete_teleport(),
    ).0;
    let r1 = responder.run(
        channel_id,
        initiator.node_id,
        |c: ChannelView| c.on_teleport_complete(),
    ).0;
    let i2 = i1.run(
        channel_id,
        responder.node_id,
        |c: ChannelView| c.on_teleport_complete_ack(),
    ).0;
    let a1 = next(a.complete_teleport());
    lemma_positions_kept(initiator, i1, channel_id, a1);
    lemma_positions_kept(responder, r1, channel_id, next(b.on_teleport_complete()));
    lemma_positions_kept(i1, i2, channel_id, next(a1.on_teleport_complete_ack()));
}

/// A node notices the loss of a peer on every channel with it.
pub proof fn law_disconnect_reaches_channel(node: NodeView, channel_id: ChannelId, peer: NodeId)
    requires
        node.wf(),
        node.has(channel_id),
        node.channel(channel_id).counterparty_node_id == peer,
    ensures
        node.peer_disconnected(peer).has(channel_id),
        node.peer_disconnected(peer).channel(channel_id) == node.channel(
            channel_id,
        ).on_peer_disconnected(node.ack_unsent(channel_id)),
{
    lemma_same_ids(node, node.peer_disconnected(peer), channel_id);
}

/// A node that has accepted a teleport, and loses its peer before the acceptance is sent,
/// gives the teleport up: its channel is idle, funded and watched as before.
pub proof fn law_unsent_ack_is_abandoned(
    node: NodeView,
    channel_id: ChannelId,
    peer: NodeId,
    new_funding_txo: OutPoint,
)
    requires
        node.wf(),
        node.has(channel_id),
        node.channel(channel_id).counterparty_node_id == peer,
        node.channel(channel_id).connection is Connected,
        node.channel(channel_id).teleport == (TeleportState::InitReceived { new_funding_txo }),
    ensures
        ({
            let (acked, result) = node.run(
                channel_id,
                peer,
                |c: ChannelView| c.accept_teleport(),
            );
            let after = acked.peer_disconnected(peer).channel(channel_id);
            &&& result is Ok
            &&& acked.ack_unsent(channel_id)
            &&& after.teleport is Idle
            &&& after.funding_txo == node.channel(channel_id).funding_txo
            &&& after.monitor == node.channel(channel_id).monitor
        }),
{
    let b = node.channel(channel_id);
    assert(node.is_at(node.at(channel_id), channel_id));
    let acked = node.run(channel_id, peer, |c: ChannelView| c.accept_teleport()).0;
    let channel = next(b.accept_teleport());
    lemma_positions_kept(node, acked, channel_id, channel);
    let k = node.pending_msg_events.len() as int;
    assert(acked.pending_msg_events[k].is_teleport_ack(channel_id));
    law_disconnect_reaches_channel(acked, channel_id, peer);
}

/// A node that has agreed on a teleport keeps it when it loses its peer, unless it answered
/// and its acceptance waits to be sent: the channel is as before but for the connection,
/// with the same teleport, funding, monitor and held updates.
pub proof fn law_agreed_teleport_is_kept(
    node: NodeView,
    channel_id: ChannelId,
    new_funding_txo: OutPoint,
    initiator: bool,
)
    requires
        node.wf(),
        node.has(channel_id),
        initiator || !node.ack_unsent(channel_id),
    ensures
        ({
            let agreed = node_agreed_on(node, channel_id, new_funding_txo, initiator);
            let peer = node.channel(channel_id).counterparty_node_id;
            let after = agreed.peer_disconnected(peer).channel(channel_id);
            &&& agreed.channel(channel_id) == agreed_on(
                node.channel(channel_id),
                new_funding_txo,
                initiator,
            )
            &&& after == (ChannelView {
                connection: Connection::Disconnected,
                ..agreed.channel(channel_id)
            })
        }),
{
    let agreed = node_agreed_on(node, channel_id, new_funding_txo, initiator);
    let c = node.channel(channel_id);
    let i = node.at(channel_id);
    assert(node.is_at(i, channel_id));
    lemma_positions_kept(node, agreed, channel_id, agreed.channels[i]);
    lemma_same_ids(node, agreed.peer_disconnected(c.counterparty_node_id), channel_id);
    assert(agreed.pending_msg_events == node.pending_msg_events);
    assert(agreed.ack_unsent(channel_id) == node.ack_unsent(channel_id));
}

/// A payment that is taken on an agreed teleport arrives after the switch as it was asked for.
/// It is held until the proposing end has switched, goes out then with the signature for the
/// new output, and once both ends are committed to it, it is handed on at the other end with
/// the amount, the hash and the onion that the user gave.
pub proof fn law_held_payment_arrives(
    a: ChannelView,
    b: ChannelView,
    new_funding_txo: OutPoint,
    amount_msat: u64,
    payment_hash: PaymentHash,
    onion: RecipientOnionFields,
)
    requires
        a.wf(),
        b.wf(),
        a.connection is Connected,
        b.connection is Connected,
        a.channel_id == b.channel_id,
        a.holding_cell.is_empty(),
        b.holding_cell.is_empty(),
        a.next_htlc_id < u64::MAX,
        a.teleport == (TeleportState::Acked {
            new_funding_txo,
            initiator: true,
            commitment_received: true,
        }),
        b.teleport == (TeleportState::Acked {
            new_funding_txo,
            initiator: false,
            commitment_received: true,
        }),
    ensures
        ({
            let a1 = a.send_htlc(amount_msat, payment_hash, onion);
            let a2 = next(a1).complete_teleport();
            let b2 = b.on_teleport_complete();
            let a3 = next(a2).on_teleport_complete_ack();
            let updates = a3->Ok_0.effects.msgs[0]->UpdateHTLCs_updates;
            let b3 = next(b2).on_update_add_htlc(updates.update_add_htlcs[0]);
            let b4 = next(b3).on_commitment_signed(updates.commitment_signed[0]);
            let a4 = next(a3).on_revoke_and_ack();
            let signed = b4->Ok_0.effects.msgs[1]->UpdateHTLCs_updates.commitment_signed[0];
            let a5 = next(a4).on_commitment_signed(signed);
            let b5 = next(b4).on_revoke_and_ack();
            let arrived = b5->Ok_0.effects.received;
            &&& sends(a1, seq![])
            &&& a2 is Ok && a2->Ok_0.effects.msgs.len() == 1
            &&& b2 is Ok && b2->Ok_0.effects.msgs.len() == 1
            &&& a3 is Ok && a3->Ok_0.effects.msgs.len() == 1
            &&& a3->Ok_0.effects.msgs[0] is UpdateHTLCs
            &&& updates.update_add_htlcs.len() == 1
            &&& updates.update_fulfill_htlcs.len() == 0
            &&& updates.commitment_signed.len() == 1
            &&& updates.commitment_signed[0].funding_txid == new_funding_txo.txid
            &&& b3 is Ok
            &&& b4 is Ok && b4->Ok_0.effects.msgs.len() == 2
            &&& b4->Ok_0.effects.msgs[0] is SendRevokeAndAck
            &&& b4->Ok_0.effects.msgs[1] is UpdateHTLCs
            &&& a4 is Ok
            &&& a5 is Ok
            &&& b5 is Ok
            &&& arrived.len() == 1
            &&& arrived[0] == updates.update_add_htlcs[0]
            &&& arrived[0].htlc_id == a.next_htlc_id
            &&& arrived[0].amount_msat == amount_msat
            &&& arrived[0].payment_hash == payment_hash
            &&& arrived[0].onion == onion
            &&& next(a5).outbound_htlcs == a.outbound_htlcs.push(arrived[0])
            &&& next(b5).inbound_htlcs == b.inbound_htlcs.push(arrived[0])
            &&& next(a5).inbound_htlcs == a.inbound_htlcs
            &&& next(b5).outbound_htlcs == b.outbound_htlcs
        }),
{
    let a1 = a.send_htlc(amount_msat, payment_hash, onion);
    let a3 = next(next(a1).complete_teleport()).on_teleport_complete_ack();
    let updates = a3->Ok_0.effects.msgs[0]->UpdateHTLCs_updates;
    let add = updates.update_add_htlcs[0];
    let b2 = b.on_teleport_complete();
    let b3 = next(b2).on_update_add_htlc(add);
    let b4 = next(b3).on_commitment_signed(updates.commitment_signed[0]);
    let b5 = next(b4).on_revoke_and_ack();
    let a4 = next(a3).on_revoke_and_ack();
    let signed = b4->Ok_0.effects.msgs[1]->UpdateHTLCs_updates.commitment_signed[0];
    let a5 = next(a4).on_commitment_signed(signed);
    assert(a1->Ok_0.effects.msgs =~= seq![]);
    assert(next(a1).wf());
    assert(next(a3).ours_signed.adds =~= seq![add]);
    assert(next(a4).ours_revoked.adds =~= seq![add]);
    assert(next(b3).theirs_announced.adds =~= seq![add]);
    assert(next(b4).theirs_signed.adds =~= seq![add]);
    assert(next(a5).outbound_htlcs =~= a.outbound_htlcs.push(add));
    assert(next(b5).inbound_htlcs =~= b.inbound_htlcs.push(add));
}

/// A claim that is made while a proposal waits for its answer is not lost when the proposal is
/// declined: it goes out then, behind the claims that were held before it, and the peer that
/// it goes to gets the preimage.
pub proof fn law_held_claim_goes_out_when_declined(
    c: ChannelView,
    htlc_id: u64,
    payment_preimage: PaymentPreimage,
)
    requires
        c.wf(),
        c.connection is Connected,
        c.teleport is InitReceived || c.teleport is InitSent,
        c.claim_htlc(htlc_id, payment_preimage) is Ok,
    ensures
        ({
            let claimed = c.claim_htlc(htlc_id, payment_preimage);
            let declined = if c.teleport is InitReceived {
                next(claimed).cancel_teleport()
            } else {
                next(claimed).on_teleport_abort()
            };
            &&& claimed->Ok_0.effects.msgs.len() == 0
            &&& declined is Ok
            &&& declined->Ok_0.effects.msgs.len() > 0
            &&& declined->Ok_0.effects.msgs.last() matches MessageView::UpdateHTLCs {
                node_id,
                updates,
                ..
            }
            &&& node_id == c.counterparty_node_id
            &&& updates.update_add_htlcs == c.holding_cell.adds
            &&& updates.update_fulfill_htlcs == c.holding_cell.fulfills.push(
                UpdateFulfillHtlc { channel_id: c.channel_id, htlc_id, payment_preimage },
            )
        }),
{
    law_declined_proposal_lets_held_updates_out(next(c.claim_htlc(htlc_id, payment_preimage)));
}

/// What the user can ask of one end of a channel.
pub enum Request {
    ProposeTeleport { new_funding_txo: OutPoint },
    AcceptTeleport,
    CancelTeleport,
    CompleteTeleport,
    SendHtlc { amount_msat: u64, payment_hash: PaymentHash, onion: RecipientOnionFields },
    ClaimHtlc { htlc_id: u64, payment_preimage: PaymentPreimage },
}

/// What the peer can say to one end of a channel.
#[allow(inconsistent_fields)]
pub enum Message {
    Stfu { msg: Stfu },
    TeleportInit { msg: TeleportInit },
    TeleportAck,
    TeleportAbort,
    TeleportComplete,
    TeleportCompleteAck,
    CommitmentSigned { msg: CommitmentSigned },
    RevokeAndAck,
    UpdateAddHtlc { msg: UpdateAddHtlc },
    /// With the digest of the preimage that it gives.
    UpdateFulfillHtlc { msg: UpdateFulfillHtlc, digest: Seq<u8> },
    ChannelReestablish { msg: ChannelReestablish },
}

/// Anything that can happen to one end of a channel.
pub enum Happening {
    Request { request: Request },
    Message { message: Message },
    PeerDisconnected { ack_unsent: bool },
    PeerConnected,
    TimerTick,
}

/// The channel after a step that was tried: as before if the step was refused.
pub open spec fn tried(c: ChannelView, result: Result<Step, ChannelError>) -> ChannelView {
    match result {
        Ok(step) => step.channel,
        Err(_) => c,
    }
}

/// The channel after the user has asked something of it.
#[verifier::opaque]
pub open spec fn requested(c: ChannelView, request: Request) -> ChannelView {
    match request {
        Request::ProposeTeleport { new_funding_txo } => tried(
            c,
            c.propose_teleport(new_funding_txo),
        ),
        Request::AcceptTeleport => tried(c, c.accept_teleport()),
        Request::CancelTeleport => tried(c, c.cancel_teleport()),
        Request::CompleteTeleport => tried(c, c.complete_teleport()),
        Request::SendHtlc { amount_msat, payment_hash, onion } => tried(
            c,
            c.send_htlc(amount_msat, payment_hash, onion),
        ),
        Request::ClaimHtlc { htlc_id, payment_preimage } => tried(
            c,
            c.claim_htlc(htlc_id, payment_preimage),
        ),
    }
}

/// The channel after the peer has said something to it.
#[verifier::opaque]
pub open spec fn received(c: ChannelView, message: Message) -> ChannelView {
    match message {
        Message::Stfu { msg } => tried(c, c.on_stfu(msg)),
        Message::TeleportInit { msg } => tried(c, c.on_teleport_init(msg)),
        Message::TeleportAck => tried(c, c.on_teleport_ack()),
        Message::TeleportAbort => tried(c, c.on_teleport_abort()),
        Message::TeleportComplete => tried(c, c.on_teleport_complete()),
        Message::TeleportCompleteAck => tried(c, c.on_teleport_complete_ack()),
        Message::CommitmentSigned { msg } => tried(c, c.on_commitment_signed(msg)),
        Message::RevokeAndAck => tried(c, c.on_revoke_and_ack()),
        Message::UpdateAddHtlc { msg } => tried(c, c.on_update_add_htlc(msg)),
        Message::UpdateFulfillHtlc { msg, digest } => tried(
            c,
            c.on_update_fulfill_htlc(msg, digest),
        ),
        Message::ChannelReestablish { msg } => tried(c, c.on_channel_reestablish(msg)),
    }
}

/// The channel after something has happened to it.
pub open spec fn happened(c: ChannelView, happening: Happening) -> ChannelView {
    match happening {
        Happening::Request { request } => requested(c, request),
        Happening::Message { message } => received(c, message),
        Happening::PeerDisconnected { ack_unsent } => c.on_peer_disconnected(ack_unsent),
        Happening::PeerConnected => c.on_peer_connected().channel,
        Happening::TimerTick => c.on_timer_tick().channel,
    }
}

/// The channel after a number of things have happened to it, one after the other.
pub open spec fn all_happened(c: ChannelView, happenings: Seq<Happening>) -> ChannelView
    decreases happenings.len(),
{
    if happenings.len() == 0 {
        c
    } else {
        happened(all_happened(c, happenings.drop_last()), happenings.last())
    }
}

/// Whether a channel has the funding script, the identifier and the peer of another state.
pub open spec fn same_channel(before: ChannelView, after: ChannelView) -> bool {
    &&& after.monitor.funding_script == before.monitor.funding_script
    &&& after.channel_id == before.channel_id
    &&& after.counterparty_node_id == before.counterparty_node_id
}

/// No request changes a channel's funding script, its identifier or its peer.
proof fn lemma_request_keeps_script(c: ChannelView, request: Request)
    ensures
        same_channel(c, requested(c, request)),
{
    reveal(requested);
}

/// No message changes a channel's funding script, its identifier or its peer.
proof fn lemma_message_keeps_script(c: ChannelView, message: Message)
    ensures
        same_channel(c, received(c, message)),
{
    reveal(received);
}

/// No step changes a channel's funding script, its identifier or its peer.
pub proof fn law_no_step_changes_script(c: ChannelView, happening: Happening)
    ensures
        same_channel(c, happened(c, happening)),
{
    match happening {
        Happening::Request { request } => lemma_request_keeps_script(c, request),
        Happening::Message { message } => lemma_message_keeps_script(c, message),
        _ => {},
    }
}

/// Whatever happens to a channel, its funding script, its identifier and its peer stay.
pub proof fn law_script_stays(c: ChannelView, happenings: Seq<Happening>)
    ensures
        same_channel(c, all_happened(c, happenings)),
    decreases happenings.len(),
{
    if happenings.len() > 0 {
        law_script_stays(c, happenings.drop_last());
        law_no_step_changes_script(
            all_happened(c, happenings.drop_last()),
            happenings.last(),
        );
    }
}

/// Two ends of a channel that watch for one script do so whatever happens to either: the
/// scripts that their monitors' lists give, each for any output that it watches, are one.
pub proof fn law_ends_watch_one_script(
    a: ChannelView,
    b: ChannelView,
    at_a: Seq<Happening>,
    at_b: Seq<Happening>,
    txo_a: OutPoint,
    txo_b: OutPoint,
    script_a: Seq<u8>,
    script_b: Seq<u8>,
)
    requires
        a.monitor.funding_script == b.monitor.funding_script,
        all_happened(a, at_a).monitor.watches(txo_a),
        all_happened(b, at_b).monitor.watches(txo_b),
        list_gives_script(all_happened(a, at_a).monitor.outputs_to_watch(), txo_a, script_a),
        list_gives_script(all_happened(b, at_b).monitor.outputs_to_watch(), txo_b, script_b),
    ensures
        script_a == script_b,
        script_a == a.monitor.funding_script,
{
    law_script_stays(a, at_a);
    law_script_stays(b, at_b);
    law_monitor_list_is_what_it_watches(all_happened(a, at_a).monitor, txo_a);
    law_monitor_list_is_what_it_watches(all_happened(b, at_b).monitor, txo_b);
}

/// Two nodes that open a channel with one funding output and one script give one answer for
/// the script of that output: the script that the channel was opened with.
pub proof fn law_opened_channel_has_one_script(
    initiator: NodeView,
    responder: NodeView,
    channel_id: ChannelId,
    user_channel_ids: (u128, u128),
    announced: bool,
    funding_txo: OutPoint,
    funding_script: Seq<u8>,
    script: Seq<u8>,
)
    requires
        !initiator.has(channel_id),
        !responder.has(channel_id),
    ensures
        ({
            let i = initiator.with_opened(
                channel_id,
                user_channel_ids.0,
                responder.node_id,
                announced,
                funding_txo,
                funding_script,
            );
            let r = responder.with_opened(
                channel_id,
                user_channel_ids.1,
                initiator.node_id,
                announced,
                funding_txo,
                funding_script,
            );
            &&& watch_one_script(i, r, channel_id)
            &&& i.channel(channel_id).monitor.watches(funding_txo)
            &&& r.channel(channel_id).monitor.watches(funding_txo)
            &&& list_gives_script(
                i.channel(channel_id).monitor.outputs_to_watch(),
                funding_txo,
                script,
            ) <==> script == funding_script
            &&& list_gives_script(
                r.channel(channel_id).monitor.outputs_to_watch(),
                funding_txo,
                script,
            ) <==> script == funding_script
        }),
{
    lemma_opened(
        initiator,
        channel_id,
        user_channel_ids.0,
        responder.node_id,
        announced,
        funding_txo,
        funding_script,
    );
    lemma_opened(
        responder,
        channel_id,
        user_channel_ids.1,
        initiator.node_id,
        announced,
        funding_txo,
        funding_script,
    );
    let monitor = MonitorView { funding_txo, pending_funding_txo: None, funding_script };
    law_monitor_list_is_what_it_watches(monitor, funding_txo);
}

/// Where the two ends of a channel watch for one script, the script of one end clears the
/// other end's watch of an output, and nothing else that the other end has registered.
pub proof fn law_script_of_one_end_clears_the_other(
    initiator: NodeView,
    responder: NodeView,
    channel_id: ChannelId,
    txo: OutPoint,
    other: OutPoint,
    other_script: Seq<u8>,
)
    requires
        watch_one_script(initiator, responder, channel_id),
    ensures
        ({
            let theirs = initiator.channel(channel_id).monitor.funding_script;
            let ours = responder.channel(channel_id).monitor.funding_script;
            let cleared = responder.chain_source.unregister(txo, theirs);
            &&& !cleared.watched_outputs.contains((txo, ours))
            &&& !cleared.watched_txn.contains((txo.txid, ours))
            &&& (other, other_script) != (txo, ours) ==> cleared.watched_outputs.contains(
                (other, other_script),
            ) == responder.chain_source.watched_outputs.contains((other, other_script))
            &&& (other.txid, other_script) != (txo.txid, ours) ==> cleared.watched_txn.contains(
                (other.txid, other_script),
            ) == responder.chain_source.watched_txn.contains((other.txid, other_script))
        }),
{
}

} // verus!
