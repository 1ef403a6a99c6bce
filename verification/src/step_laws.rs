//! What each step of a channel comes to, said of the channel's fields and of what goes out.
//!
//! Each law covers every channel and every input: when the step is taken, which refusal is
//! given otherwise, which fields change, and every message, event and update that follows.
use vstd::prelude::*;
use crate::batch::BatchView;
use crate::model::{htlc_position, ChannelView, Connection, Effects, Step, TeleportState};
use crate::monitor::MonitorView;
use crate::msgs::{
    AnnouncementSignatures, ChannelReady, ChannelReestablish, CommitmentSigned,
    CommitmentUpdateView, Event, MessageView, RecipientOnionFields, RevokeAndAck, Stfu,
    TeleportAbort, TeleportAck, TeleportComplete, TeleportCompleteAck, TeleportInit, UpdateAddHtlc,
    UpdateFulfillHtlc,
};
use crate::types::{
    BitcoinOutPoint, ChannelError, ChannelId, NodeId, OutPoint, PaymentHash, PaymentPreimage,
};

verus! {

/// A new channel is idle, connected and empty, its monitor watches its funding output alone,
/// and its first commitment is number one.
pub proof fn law_new_channel(
    channel_id: ChannelId,
    user_channel_id: u128,
    counterparty_node_id: NodeId,
    announced: bool,
    funding_txo: OutPoint,
    funding_script: Seq<u8>,
)
    ensures
        ({
            let c = ChannelView::opened(
                channel_id,
                user_channel_id,
                counterparty_node_id,
                announced,
                funding_txo,
                funding_script,
            );
            let nothing = BatchView { adds: seq![], fulfills: seq![] };
            &&& c.channel_id == channel_id
            &&& c.user_channel_id == user_channel_id
            &&& c.counterparty_node_id == counterparty_node_id
            &&& c.announced == announced
            &&& c.connection is Connected
            &&& c.teleport is Idle
            &&& c.ticks is None
            &&& c.funding_txo == funding_txo
            &&& c.monitor.funding_txo == funding_txo
            &&& c.monitor.pending_funding_txo is None
            &&& c.monitor.funding_script == funding_script
            &&& c.next_htlc_id == 0
            &&& c.next_commitment_number == 1
            &&& !c.awaiting_raa
            &&& c.holding_cell == nothing
            &&& c.ours_signed == nothing
            &&& c.ours_revoked == nothing
            &&& c.theirs_announced == nothing
            &&& c.theirs_to_sign == nothing
            &&& c.theirs_signed == nothing
            &&& c.outbound_htlcs.len() == 0
            &&& c.inbound_htlcs.len() == 0
        }),
{
}

/// A channel may teleport exactly if a proposal would be taken, and may send exactly if a
/// payment would go out at once rather than be held or refused.
pub proof fn law_readiness_is_what_requests_find(
    c: ChannelView,
    txo: OutPoint,
    amount_msat: u64,
    payment_hash: PaymentHash,
    onion: RecipientOnionFields,
)
    ensures
        c.can_teleport() <==> c.propose_teleport(txo) is Ok,
        c.next_htlc_id < u64::MAX ==> (c.can_send() <==> {
            &&& c.send_htlc(amount_msat, payment_hash, onion) is Ok
            &&& c.send_htlc(amount_msat, payment_hash, onion)->Ok_0.effects.msgs.len() == 1
        }),
{
}

/// A teleport is proposed on a connected channel that no teleport and no HTLC update is under
/// way on: the peer is asked for quiescence, and nothing else happens.
pub proof fn law_proposal_asks_for_quiescence(c: ChannelView, txo: OutPoint)
    ensures
        ({
            let quiet = !c.awaiting_raa && c.ours_signed.adds.len() == 0
                && c.ours_signed.fulfills.len() == 0 && c.ours_revoked.adds.len() == 0
                && c.ours_revoked.fulfills.len() == 0 && c.theirs_announced.adds.len() == 0
                && c.theirs_announced.fulfills.len() == 0 && c.theirs_to_sign.adds.len() == 0
                && c.theirs_to_sign.fulfills.len() == 0 && c.theirs_signed.adds.len() == 0
                && c.theirs_signed.fulfills.len() == 0;
            match c.propose_teleport(txo) {
                Ok(step) => {
                    &&& c.connection is Connected && c.teleport is Idle && quiet
                    &&& step.channel == ChannelView {
                        teleport: TeleportState::AwaitingStfu { new_funding_txo: txo },
                        ticks: None,
                        ..c
                    }
                    &&& step.effects == Effects {
                        msgs: seq![
                            MessageView::SendStfu {
                                node_id: c.counterparty_node_id,
                                msg: Stfu { channel_id: c.channel_id, initiator: true },
                            },
                        ],
                        events: seq![],
                        monitor_updates: 0,
                        received: seq![],
                        registered: None,
                    }
                },
                Err(error) => if c.connection is Connected {
                    error == ChannelError::UnexpectedState && !(c.teleport is Idle && quiet)
                } else {
                    error == ChannelError::PeerDisconnected
                },
            }
        }),
{
    if let Ok(step) = c.propose_teleport(txo) {
        assert(step.effects.msgs =~= seq![
            MessageView::SendStfu {
                node_id: c.counterparty_node_id,
                msg: Stfu { channel_id: c.channel_id, initiator: true },
            },
        ]);
    }
}

/// Quiescence is granted to a peer that asks for it as a teleport would be proposed, and the
/// proposal of the output that the user chose follows when the peer has granted it.
pub proof fn law_quiescence_is_granted_and_used(c: ChannelView, msg: Stfu)
    ensures
        ({
            let quiet = !c.awaiting_raa && c.ours_signed.adds.len() == 0
                && c.ours_signed.fulfills.len() == 0 && c.ours_revoked.adds.len() == 0
                && c.ours_revoked.fulfills.len() == 0 && c.theirs_announced.adds.len() == 0
                && c.theirs_announced.fulfills.len() == 0 && c.theirs_to_sign.adds.len() == 0
                && c.theirs_to_sign.fulfills.len() == 0 && c.theirs_signed.adds.len() == 0
                && c.theirs_signed.fulfills.len() == 0;
            match c.on_stfu(msg) {
                Ok(step) => {
                    &&& c.connection is Connected
                    &&& step.effects.events.len() == 0
                    &&& step.effects.monitor_updates == 0
                    &&& step.effects.received.len() == 0
                    &&& step.effects.registered is None
                    &&& step.effects.msgs.len() == 1
                    &&& if msg.initiator {
                        &&& c.teleport is Idle && quiet
                        &&& step.channel == ChannelView {
                            teleport: TeleportState::Quiescent,
                            ticks: None,
                            ..c
                        }
                        &&& step.effects.msgs[0] == MessageView::SendStfu {
                            node_id: c.counterparty_node_id,
                            msg: Stfu { channel_id: c.channel_id, initiator: false },
                        }
                    } else {
                        &&& c.teleport matches TeleportState::AwaitingStfu { new_funding_txo }
                        &&& step.channel == ChannelView {
                            teleport: TeleportState::InitSent { new_funding_txo },
                            ticks: None,
                            ..c
                        }
                        &&& step.effects.msgs[0] == MessageView::SendTeleportInit {
                            node_id: c.counterparty_node_id,
                            msg: TeleportInit { channel_id: c.channel_id, new_funding_txo },
                        }
                    }
                },
                Err(error) => if c.connection !is Connected {
                    error == ChannelError::PeerDisconnected
                } else {
                    &&& error == ChannelError::UnexpectedState
                    &&& msg.initiator ==> !(c.teleport is Idle && quiet)
                    &&& !msg.initiator ==> c.teleport !is AwaitingStfu
                },
            }
        }),
{
}

/// The event by which the user learns of a proposal names the proposed output, in its
/// transaction and its position, and the channel and the peer that it is about.
pub proof fn law_proposal_is_told(c: ChannelView, msg: TeleportInit)
    ensures
        match c.on_teleport_init(msg) {
            Ok(step) => {
                &&& c.connection is Connected && c.teleport is Quiescent
                &&& step.channel == (ChannelView {
                    teleport: TeleportState::InitReceived { new_funding_txo: msg.new_funding_txo },
                    ticks: None,
                    ..c
                })
                &&& step.effects.msgs.len() == 0
                &&& step.effects.monitor_updates == 0
                &&& step.effects.received.len() == 0
                &&& step.effects.registered is None
                &&& step.effects.events.len() == 1
                &&& step.effects.events[0] matches Event::ChannelTeleport {
                    channel_id,
                    user_channel_id,
                    counterparty_node_id,
                    new_funding_txo: BitcoinOutPoint { txid, vout },
                }
                &&& channel_id == c.channel_id
                &&& user_channel_id == c.user_channel_id
                &&& counterparty_node_id == c.counterparty_node_id
                &&& txid == msg.new_funding_txo.txid
                &&& forall|k: int|
                    0 <= k < 32 ==> #[trigger] txid.0@[k] == msg.new_funding_txo.txid.0@[k]
                &&& vout as int == msg.new_funding_txo.index as int
            },
            Err(error) => if c.connection is Connected {
                error == ChannelError::UnexpectedState && c.teleport !is Quiescent
            } else {
                error == ChannelError::PeerDisconnected
            },
        },
{
}

/// The output that a transaction refers to is the funding output: the same transaction, byte
/// by byte, and the same position.
pub proof fn law_bitcoin_outpoint_is_the_same_output(txo: OutPoint)
    ensures
        txo.bitcoin_outpoint().txid == txo.txid,
        txo.bitcoin_outpoint().txid.0@ == txo.txid.0@,
        txo.bitcoin_outpoint().vout as int == txo.index as int,
{
}

/// A proposal that is there is accepted: the acceptance goes out, and after it a signature on
/// the proposed output's transaction that covers no update. The monitor is as before.
pub proof fn law_acceptance_signs_for_the_proposal(c: ChannelView)
    ensures
        match c.accept_teleport() {
            Ok(step) => {
                &&& c.connection is Connected
                &&& c.teleport matches TeleportState::InitReceived { new_funding_txo }
                &&& step.channel == (ChannelView {
                    teleport: TeleportState::Acked {
                        new_funding_txo,
                        initiator: false,
                        commitment_received: false,
                    },
                    ticks: None,
                    ..c
                })
                &&& step.effects.events.len() == 0
                &&& step.effects.monitor_updates == 0
                &&& step.effects.received.len() == 0
                &&& step.effects.registered is None
                &&& step.effects.msgs.len() == 2
                &&& step.effects.msgs[0] == (MessageView::SendTeleportAck {
                    node_id: c.counterparty_node_id,
                    msg: TeleportAck { channel_id: c.channel_id },
                })
                &&& step.effects.msgs[1] == (MessageView::UpdateHTLCs {
                    node_id: c.counterparty_node_id,
                    channel_id: c.channel_id,
                    updates: CommitmentUpdateView {
                        update_add_htlcs: seq![],
                        update_fulfill_htlcs: seq![],
                        commitment_signed: seq![
                            CommitmentSigned {
                                channel_id: c.channel_id,
                                funding_txid: new_funding_txo.txid,
                            },
                        ],
                    },
                })
            },
            Err(error) => if c.connection is Connected {
                error == ChannelError::UnexpectedState && c.teleport !is InitReceived
            } else {
                error == ChannelError::PeerDisconnected
            },
        },
{
}

/// The proposing end answers an acceptance with its own signature on the proposed output's
/// transaction, which covers no update. The monitor is as before.
pub proof fn law_accepted_proposal_is_signed_for(c: ChannelView)
    ensures
        match c.on_teleport_ack() {
            Ok(step) => {
                &&& c.connection is Connected
                &&& c.teleport matches TeleportState::InitSent { new_funding_txo }
                &&& step.channel == (ChannelView {
                    teleport: TeleportState::Acked {
                        new_funding_txo,
                        initiator: true,
                        commitment_received: false,
                    },
                    ticks: None,
                    ..c
                })
                &&& step.effects.events.len() == 0
                &&& step.effects.monitor_updates == 0
                &&& step.effects.received.len() == 0
                &&& step.effects.registered is None
                &&& step.effects.msgs.len() == 1
                &&& step.effects.msgs[0] == (MessageView::UpdateHTLCs {
                    node_id: c.counterparty_node_id,
                    channel_id: c.channel_id,
                    updates: CommitmentUpdateView {
                        update_add_htlcs: seq![],
                        update_fulfill_htlcs: seq![],
                        commitment_signed: seq![
                            CommitmentSigned {
                                channel_id: c.channel_id,
                                funding_txid: new_funding_txo.txid,
                            },
                        ],
                    },
                })
            },
            Err(error) => if c.connection is Connected {
                error == ChannelError::UnexpectedState && c.teleport !is InitSent
            } else {
                error == ChannelError::PeerDisconnected
            },
        },
{
}

/// The user may let the channel switch at the end that proposed, once the peer has signed on
/// the new output. Nothing changes yet but that the peer is told.
pub proof fn law_completion_is_requested(c: ChannelView)
    ensures
        match c.complete_teleport() {
            Ok(step) => {
                &&& c.connection is Connected
                &&& c.teleport matches TeleportState::Acked {
                    new_funding_txo,
                    initiator,
                    commitment_received,
                }
                &&& initiator && commitment_received
                &&& step.channel == (ChannelView {
                    teleport: TeleportState::CompleteSent { new_funding_txo },
                    ticks: None,
                    ..c
                })
                &&& step.effects.events.len() == 0
                &&& step.effects.monitor_updates == 0
                &&& step.effects.received.len() == 0
                &&& step.effects.registered is None
                &&& step.effects.msgs.len() == 1
                &&& step.effects.msgs[0] == (MessageView::SendTeleportComplete {
                    node_id: c.counterparty_node_id,
                    msg: TeleportComplete { channel_id: c.channel_id },
                })
            },
            Err(error) => if c.connection is Connected {
                &&& error == ChannelError::UnexpectedState
                &&& c.teleport matches TeleportState::Acked { initiator, commitment_received, .. }
                    ==> !(initiator && commitment_received)
            } else {
                error == ChannelError::PeerDisconnected
            },
        },
{
}

/// When a declined proposal ends a channel's quiescence, every update that was held, offers
/// and claims alike, goes out in one message signed for the funding output of before; at the
/// end that declines, after the refusal. These updates are then the ones that the peer has to
/// acknowledge. Nothing else of the channel changes.
pub proof fn law_declined_proposal_lets_held_updates_out(c: ChannelView)
    requires
        c.wf(),
        c.connection is Connected,
        c.teleport is InitReceived || c.teleport is InitSent,
    ensures
        ({
            let declined = c.teleport is InitReceived;
            let result = if declined {
                c.cancel_teleport()
            } else {
                c.on_teleport_abort()
            };
            let held = c.holding_cell.adds.len() > 0 || c.holding_cell.fulfills.len() > 0;
            let first: int = if declined {
                1
            } else {
                0
            };
            &&& result matches Ok(step)
            &&& declined ==> step.effects.msgs.len() > 0 && step.effects.msgs[0]
                == MessageView::SendTeleportAbort {
                node_id: c.counterparty_node_id,
                msg: TeleportAbort { channel_id: c.channel_id },
            }
            &&& step.effects.events.len() == 0
            &&& step.effects.received.len() == 0
            &&& step.effects.registered is None
            &&& step.channel.teleport is Idle
            &&& step.channel.connection is Connected
            &&& if held {
                &&& step.effects.msgs.len() == first + 1
                &&& step.effects.msgs[first] matches MessageView::UpdateHTLCs {
                    node_id,
                    channel_id,
                    updates,
                }
                &&& node_id == c.counterparty_node_id
                &&& channel_id == c.channel_id
                &&& updates.update_add_htlcs == c.holding_cell.adds
                &&& updates.update_fulfill_htlcs == c.holding_cell.fulfills
                &&& updates.commitment_signed.len() == 1
                &&& updates.commitment_signed[0].channel_id == c.channel_id
                &&& updates.commitment_signed[0].funding_txid == c.funding_txo.txid
                &&& step.effects.monitor_updates == 1
                &&& step.channel.ours_signed.adds == c.holding_cell.adds
                &&& step.channel.ours_signed.fulfills == c.holding_cell.fulfills
                &&& step.channel == ChannelView {
                    teleport: TeleportState::Idle,
                    ticks: None,
                    awaiting_raa: true,
                    holding_cell: BatchView { adds: seq![], fulfills: seq![] },
                    ours_signed: c.holding_cell,
                    ..c
                }
            } else {
                &&& step.effects.msgs.len() == first
                &&& step.effects.monitor_updates == 0
                &&& step.channel == ChannelView { teleport: TeleportState::Idle, ticks: None, ..c }
            }
        }),
{
    assert(c.ours_signed.adds + c.holding_cell.adds =~= c.holding_cell.adds);
    assert(c.ours_signed.fulfills + c.holding_cell.fulfills =~= c.holding_cell.fulfills);
    assert(c.theirs_signed.adds + c.theirs_to_sign.adds =~= c.theirs_signed.adds);
    assert(c.theirs_signed.fulfills + c.theirs_to_sign.fulfills =~= c.theirs_signed.fulfills);
    assert(c.theirs_to_sign =~= BatchView { adds: seq![], fulfills: seq![] });
}

/// Only a proposal that waits for an answer is declined, by the end that received it, and
/// only one that was made can be declined by the peer.
pub proof fn law_only_a_waiting_proposal_is_declined(c: ChannelView)
    ensures
        c.connection !is Connected ==> c.cancel_teleport() == Err::<Step, ChannelError>(
            ChannelError::PeerDisconnected,
        ) && c.on_teleport_abort() == Err::<Step, ChannelError>(ChannelError::PeerDisconnected),
        c.connection is Connected && c.teleport !is InitReceived ==> c.cancel_teleport() == Err::<
            Step,
            ChannelError,
        >(ChannelError::UnexpectedState),
        c.connection is Connected && c.teleport !is InitSent ==> c.on_teleport_abort() == Err::<
            Step,
            ChannelError,
        >(ChannelError::UnexpectedState),
{
}

/// The switch changes nothing of a channel but its funding output, the outputs that its
/// monitor watches, the teleport state, and the updates that were held, which go out: the
/// HTLCs of both directions, the identifiers that are given out next, the funding script and
/// all the rest stay.
pub proof fn law_switch_carries_the_channel_over(c: ChannelView, answering: bool)
    requires
        c.wf(),
    ensures
        ({
            let result = if answering {
                c.on_teleport_complete()
            } else {
                c.on_teleport_complete_ack()
            };
            result matches Ok(step) ==> {
                let after = step.channel;
                let held = c.holding_cell.adds.len() > 0 || c.holding_cell.fulfills.len() > 0;
                &&& after.inbound_htlcs == c.inbound_htlcs
                &&& after.outbound_htlcs == c.outbound_htlcs
                &&& after.next_htlc_id == c.next_htlc_id
                &&& after.next_commitment_number == c.next_commitment_number
                &&& after.channel_id == c.channel_id
                &&& after.user_channel_id == c.user_channel_id
                &&& after.counterparty_node_id == c.counterparty_node_id
                &&& after.announced == c.announced
                &&& after.connection is Connected
                &&& after.teleport is Idle
                &&& after.ticks is None
                &&& after.monitor.funding_script == c.monitor.funding_script
                &&& after.monitor.funding_txo == after.funding_txo
                &&& after.monitor.pending_funding_txo is None
                &&& after.awaiting_raa == held
                &&& after.holding_cell.adds.len() == 0
                &&& after.holding_cell.fulfills.len() == 0
                &&& after.ours_signed == c.holding_cell
                &&& after.ours_revoked == c.ours_revoked
                &&& after.theirs_announced == c.theirs_announced
                &&& after.theirs_to_sign == c.theirs_to_sign
                &&& after.theirs_signed == c.theirs_signed
            }
        }),
{
    let nothing = BatchView { adds: seq![], fulfills: seq![] };
    assert(c.ours_signed.adds + c.holding_cell.adds =~= c.holding_cell.adds || c.teleport is Idle);
    assert(c.ours_signed.fulfills + c.holding_cell.fulfills =~= c.holding_cell.fulfills
        || c.teleport is Idle);
    assert(c.theirs_signed.adds + c.theirs_to_sign.adds =~= c.theirs_signed.adds || c.teleport
        is Idle);
    assert(c.theirs_signed.fulfills + c.theirs_to_sign.fulfills =~= c.theirs_signed.fulfills
        || c.teleport is Idle);
    assert(c.teleport !is Idle ==> c.ours_signed =~= nothing && c.theirs_to_sign =~= nothing);
    if c.holding_cell.adds.len() == 0 && c.holding_cell.fulfills.len() == 0 {
        assert(c.holding_cell =~= nothing);
    }
}

/// When the switch comes and what it sends. The answering end switches on the peer's word,
/// once the peer has signed on the new output, and says so; the proposing end switches when
/// it hears of that. The monitor is updated once. Held updates go out last, in one message
/// signed for the new output, and with one update of the monitor more.
pub proof fn law_switch_moves_to_the_agreed_output(c: ChannelView, answering: bool)
    requires
        c.wf(),
    ensures
        ({
            let result = if answering {
                c.on_teleport_complete()
            } else {
                c.on_teleport_complete_ack()
            };
            let agreed: Option<OutPoint> = match c.teleport {
                TeleportState::Acked { new_funding_txo, initiator, commitment_received } => {
                    if answering && !initiator && commitment_received {
                        Some(new_funding_txo)
                    } else {
                        None
                    }
                },
                TeleportState::CompleteSent { new_funding_txo } => if answering {
                    None
                } else {
                    Some(new_funding_txo)
                },
                _ => None,
            };
            let held = c.holding_cell.adds.len() > 0 || c.holding_cell.fulfills.len() > 0;
            let first: int = if answering {
                1
            } else {
                0
            };
            match result {
                Ok(step) => {
                    &&& c.connection is Connected
                    &&& agreed == Some(step.channel.funding_txo)
                    &&& step.effects.events.len() == 0
                    &&& step.effects.received.len() == 0
                    &&& step.effects.registered is None
                    &&& step.effects.monitor_updates == if held {
                        2nat
                    } else {
                        1nat
                    }
                    &&& step.effects.msgs.len() == if held {
                        first + 1
                    } else {
                        first
                    }
                    &&& answering ==> step.effects.msgs[0] == MessageView::SendTeleportCompleteAck {
                        node_id: c.counterparty_node_id,
                        msg: TeleportCompleteAck { channel_id: c.channel_id },
                    }
                    &&& held ==> step.effects.msgs[first] == MessageView::UpdateHTLCs {
                        node_id: c.counterparty_node_id,
                        channel_id: c.channel_id,
                        updates: CommitmentUpdateView {
                            update_add_htlcs: c.holding_cell.adds,
                            update_fulfill_htlcs: c.holding_cell.fulfills,
                            commitment_signed: seq![
                                CommitmentSigned {
                                    channel_id: c.channel_id,
                                    funding_txid: step.channel.funding_txo.txid,
                                },
                            ],
                        },
                    }
                },
                Err(error) => if c.connection is Connected {
                    error == ChannelError::UnexpectedState && agreed is None
                } else {
                    error == ChannelError::PeerDisconnected
                },
            }
        }),
{
}

/// A claim that could be made before the switch can be made after it: the HTLC is still the
/// peer's, and unless held updates went out with the switch its claim goes out at once.
pub proof fn law_claims_outlive_the_switch(
    c: ChannelView,
    answering: bool,
    htlc_id: u64,
    payment_preimage: PaymentPreimage,
)
    requires
        c.wf(),
        c.claim_htlc(htlc_id, payment_preimage) is Ok,
        ({
            let result = if answering {
                c.on_teleport_complete()
            } else {
                c.on_teleport_complete_ack()
            };
            result is Ok
        }),
    ensures
        ({
            let switched = if answering {
                c.on_teleport_complete()
            } else {
                c.on_teleport_complete_ack()
            };
            let claimed = switched->Ok_0.channel.claim_htlc(htlc_id, payment_preimage);
            &&& claimed is Ok
            &&& claimed->Ok_0.channel.inbound_htlcs == c.claim_htlc(
                htlc_id,
                payment_preimage,
            )->Ok_0.channel.inbound_htlcs
            &&& c.holding_cell.adds.len() == 0 && c.holding_cell.fulfills.len() == 0 ==> {
                &&& claimed->Ok_0.effects.msgs.len() == 1
                &&& claimed->Ok_0.effects.msgs[0] matches MessageView::UpdateHTLCs { updates, .. }
                &&& updates.update_fulfill_htlcs == seq![
                    UpdateFulfillHtlc { channel_id: c.channel_id, htlc_id, payment_preimage },
                ]
            }
        }),
{
    law_switch_carries_the_channel_over(c, answering);
    let fulfill = UpdateFulfillHtlc { channel_id: c.channel_id, htlc_id, payment_preimage };
    assert(Seq::<UpdateFulfillHtlc>::empty().push(fulfill) =~= seq![fulfill]);
}

/// The peer's signature on the output that the channel is to move to makes the monitor watch
/// that output too, which is registered with the chain. Any other signature is refused while
/// a teleport is under way.
pub proof fn law_signature_on_the_new_output(c: ChannelView, msg: CommitmentSigned)
    requires
        c.teleport !is Idle,
    ensures
        match c.on_commitment_signed(msg) {
            Ok(step) => {
                &&& c.connection is Connected
                &&& c.teleport matches TeleportState::Acked {
                    new_funding_txo,
                    initiator,
                    commitment_received,
                }
                &&& !commitment_received && msg.funding_txid == new_funding_txo.txid
                &&& step.channel == (ChannelView {
                    teleport: TeleportState::Acked {
                        new_funding_txo,
                        initiator,
                        commitment_received: true,
                    },
                    monitor: MonitorView {
                        funding_txo: c.monitor.funding_txo,
                        pending_funding_txo: Some(new_funding_txo),
                        funding_script: c.monitor.funding_script,
                    },
                    ..c
                })
                &&& step.effects.msgs.len() == 0
                &&& step.effects.events.len() == 0
                &&& step.effects.monitor_updates == 1
                &&& step.effects.received.len() == 0
                &&& step.effects.registered == Some(new_funding_txo)
            },
            Err(error) => if c.connection is Connected {
                &&& error == ChannelError::UnexpectedState
                &&& c.teleport matches TeleportState::Acked {
                    new_funding_txo,
                    commitment_received,
                    ..
                } ==> commitment_received || msg.funding_txid != new_funding_txo.txid
            } else {
                error == ChannelError::PeerDisconnected
            },
        },
{
}

/// A signature for updates on an idle channel. It is taken if it is on the channel's funding
/// transaction and there is something to sign for. The previous commitment is revoked; own
/// offers that the peer had acknowledged are committed to; the peer's updates are signed for
/// at once, unless the peer owes an acknowledgement, and wait for their turn if it does.
pub proof fn law_signature_for_updates(c: ChannelView, msg: CommitmentSigned)
    requires
        c.teleport is Idle,
    ensures
        ({
            let announced = c.theirs_announced.adds.len() > 0 || c.theirs_announced.fulfills.len()
                > 0;
            let revoked = c.ours_revoked.adds.len() > 0 || c.ours_revoked.fulfills.len() > 0;
            let waiting = c.theirs_to_sign.adds.len() > 0 || c.theirs_to_sign.fulfills.len() > 0;
            let to_sign = BatchView {
                adds: c.theirs_to_sign.adds + c.theirs_announced.adds,
                fulfills: c.theirs_to_sign.fulfills + c.theirs_announced.fulfills,
            };
            let nothing = BatchView { adds: seq![], fulfills: seq![] };
            let signs = !c.awaiting_raa && (announced || waiting);
            match c.on_commitment_signed(msg) {
                Ok(step) => {
                    &&& c.connection is Connected
                    &&& msg.funding_txid == c.funding_txo.txid
                    &&& announced || revoked
                    &&& step.channel == ChannelView {
                        next_commitment_number: step.channel.next_commitment_number,
                        outbound_htlcs: c.outbound_htlcs + c.ours_revoked.adds,
                        ours_revoked: nothing,
                        theirs_announced: nothing,
                        theirs_to_sign: if signs {
                            nothing
                        } else {
                            to_sign
                        },
                        theirs_signed: if signs {
                            BatchView {
                                adds: c.theirs_signed.adds + to_sign.adds,
                                fulfills: c.theirs_signed.fulfills + to_sign.fulfills,
                            }
                        } else {
                            c.theirs_signed
                        },
                        awaiting_raa: c.awaiting_raa || signs,
                        ..c
                    }
                    &&& step.channel.next_commitment_number == if c.next_commitment_number
                        < u64::MAX {
                        c.next_commitment_number + 1
                    } else {
                        u64::MAX as int
                    }
                    &&& step.effects.events.len() == 0
                    &&& step.effects.monitor_updates == 1
                    &&& step.effects.received.len() == 0
                    &&& step.effects.registered is None
                    &&& step.effects.msgs.len() == if signs {
                        2int
                    } else {
                        1int
                    }
                    &&& step.effects.msgs[0] == MessageView::SendRevokeAndAck {
                        node_id: c.counterparty_node_id,
                        msg: RevokeAndAck { channel_id: c.channel_id },
                    }
                    &&& signs ==> step.effects.msgs[1] == MessageView::UpdateHTLCs {
                        node_id: c.counterparty_node_id,
                        channel_id: c.channel_id,
                        updates: CommitmentUpdateView {
                            update_add_htlcs: seq![],
                            update_fulfill_htlcs: seq![],
                            commitment_signed: seq![
                                CommitmentSigned {
                                    channel_id: c.channel_id,
                                    funding_txid: c.funding_txo.txid,
                                },
                            ],
                        },
                    }
                },
                Err(error) => if c.connection is Connected {
                    &&& error == ChannelError::UnexpectedState
                    &&& msg.funding_txid != c.funding_txo.txid || !(announced || revoked)
                } else {
                    error == ChannelError::PeerDisconnected
                },
            }
        }),
{
    if let Ok(step) = c.on_commitment_signed(msg) {
        let empty = Seq::<UpdateAddHtlc>::empty();
        let none = Seq::<UpdateFulfillHtlc>::empty();
        assert(c.ours_signed.adds + empty =~= c.ours_signed.adds);
        assert(c.ours_signed.fulfills + none =~= c.ours_signed.fulfills);
        assert(c.ours_signed.then_all(BatchView::empty()) =~= c.ours_signed);
    }
}

/// A revocation is taken if the peer owes one. Own updates that it acknowledges are the ones
/// that the peer is to sign for next; the peer's offers that were signed for are committed to
/// and handed on, in their order. What is held and what waits to be signed for goes out in
/// one message.
pub proof fn law_revocation_moves_updates_on(c: ChannelView)
    ensures
        ({
            let held = c.holding_cell.adds.len() > 0 || c.holding_cell.fulfills.len() > 0;
            let waiting = c.theirs_to_sign.adds.len() > 0 || c.theirs_to_sign.fulfills.len() > 0;
            let signs = held || waiting;
            let nothing = BatchView { adds: seq![], fulfills: seq![] };
            match c.on_revoke_and_ack() {
                Ok(step) => {
                    &&& c.connection is Connected && c.awaiting_raa
                    &&& step.channel == ChannelView {
                        awaiting_raa: signs,
                        ours_revoked: BatchView {
                            adds: c.ours_revoked.adds + c.ours_signed.adds,
                            fulfills: c.ours_revoked.fulfills + c.ours_signed.fulfills,
                        },
                        ours_signed: c.holding_cell,
                        inbound_htlcs: c.inbound_htlcs + c.theirs_signed.adds,
                        theirs_signed: c.theirs_to_sign,
                        theirs_to_sign: nothing,
                        holding_cell: nothing,
                        ..c
                    }
                    &&& step.effects.events.len() == 0
                    &&& step.effects.monitor_updates == 1
                    &&& step.effects.received == c.theirs_signed.adds
                    &&& step.effects.registered is None
                    &&& step.effects.msgs.len() == if signs {
                        1int
                    } else {
                        0int
                    }
                    &&& signs ==> step.effects.msgs[0] == MessageView::UpdateHTLCs {
                        node_id: c.counterparty_node_id,
                        channel_id: c.channel_id,
                        updates: CommitmentUpdateView {
                            update_add_htlcs: c.holding_cell.adds,
                            update_fulfill_htlcs: c.holding_cell.fulfills,
                            commitment_signed: seq![
                                CommitmentSigned {
                                    channel_id: c.channel_id,
                                    funding_txid: c.funding_txo.txid,
                                },
                            ],
                        },
                    }
                },
                Err(error) => if c.connection is Connected {
                    error == ChannelError::UnexpectedState && !c.awaiting_raa
                } else {
                    error == ChannelError::PeerDisconnected
                },
            }
        }),
{
    if let Ok(step) = c.on_revoke_and_ack() {
        let nothing = BatchView { adds: seq![], fulfills: seq![] };
        assert(nothing.then_all(c.holding_cell) =~= c.holding_cell);
        assert(nothing.then_all(c.theirs_to_sign) =~= c.theirs_to_sign);
        assert(step.channel.ours_signed =~= c.holding_cell);
        assert(step.channel.theirs_signed =~= c.theirs_to_sign);
        assert(step.channel.theirs_to_sign =~= nothing);
    }
}

/// The HTLC that a payment becomes has the amount, the hash and the onion that were asked
/// for, and the channel's next identifier, which is used up. On a channel that takes updates
/// it goes out at once, alone and signed for; on any other it is held behind those that are
/// held already, and nothing goes out.
pub proof fn law_payment_is_offered_as_requested(
    c: ChannelView,
    amount_msat: u64,
    payment_hash: PaymentHash,
    onion: RecipientOnionFields,
)
    ensures
        ({
            let idle = c.teleport is Idle && !c.awaiting_raa;
            match c.send_htlc(amount_msat, payment_hash, onion) {
                Ok(step) => {
                    &&& c.connection is Connected && c.next_htlc_id < u64::MAX
                    &&& step.channel.next_htlc_id == c.next_htlc_id + 1
                    &&& step.effects.events.len() == 0
                    &&& step.effects.received.len() == 0
                    &&& step.effects.registered is None
                    &&& if idle {
                        &&& step.effects.monitor_updates == 1
                        &&& step.effects.msgs.len() == 1
                        &&& step.effects.msgs[0] matches MessageView::UpdateHTLCs {
                            node_id,
                            channel_id,
                            updates,
                        }
                        &&& node_id == c.counterparty_node_id
                        &&& channel_id == c.channel_id
                        &&& updates.update_fulfill_htlcs.len() == 0
                        &&& updates.commitment_signed == seq![
                            CommitmentSigned {
                                channel_id: c.channel_id,
                                funding_txid: c.funding_txo.txid,
                            },
                        ]
                        &&& updates.update_add_htlcs.len() == 1
                        &&& updates.update_add_htlcs[0].channel_id == c.channel_id
                        &&& updates.update_add_htlcs[0].htlc_id == c.next_htlc_id
                        &&& updates.update_add_htlcs[0].amount_msat == amount_msat
                        &&& updates.update_add_htlcs[0].payment_hash == payment_hash
                        &&& updates.update_add_htlcs[0].onion.payment_secret == onion.payment_secret
                        &&& updates.update_add_htlcs[0].onion.total_mpp_amount_msat
                            == onion.total_mpp_amount_msat
                        &&& step.channel == ChannelView {
                            next_htlc_id: (c.next_htlc_id + 1) as u64,
                            awaiting_raa: true,
                            ours_signed: BatchView {
                                adds: c.ours_signed.adds.push(updates.update_add_htlcs[0]),
                                fulfills: c.ours_signed.fulfills,
                            },
                            theirs_to_sign: BatchView { adds: seq![], fulfills: seq![] },
                            theirs_signed: BatchView {
                                adds: c.theirs_signed.adds + c.theirs_to_sign.adds,
                                fulfills: c.theirs_signed.fulfills + c.theirs_to_sign.fulfills,
                            },
                            ..c
                        }
                    } else {
                        let held = step.channel.holding_cell.adds;
                        let add = held.last();
                        &&& step.effects.monitor_updates == 0
                        &&& step.effects.msgs.len() == 0
                        &&& held == c.holding_cell.adds.push(add)
                        &&& add.channel_id == c.channel_id
                        &&& add.htlc_id == c.next_htlc_id
                        &&& add.amount_msat == amount_msat
                        &&& add.payment_hash == payment_hash
                        &&& add.onion.payment_secret == onion.payment_secret
                        &&& add.onion.total_mpp_amount_msat == onion.total_mpp_amount_msat
                        &&& step.channel == ChannelView {
                            next_htlc_id: (c.next_htlc_id + 1) as u64,
                            holding_cell: BatchView {
                                adds: held,
                                fulfills: c.holding_cell.fulfills,
                            },
                            ..c
                        }
                    }
                },
                Err(error) => if c.connection is Connected {
                    error == ChannelError::HtlcIdsExhausted && c.next_htlc_id == u64::MAX
                } else {
                    error == ChannelError::PeerDisconnected
                },
            }
        }),
{
    if let Ok(step) = c.send_htlc(amount_msat, payment_hash, onion) {
        if c.teleport is Idle && !c.awaiting_raa {
            let adds = step.effects.msgs[0]->UpdateHTLCs_updates.update_add_htlcs;
            assert(adds.len() == 1);
            assert(step.channel.ours_signed.adds =~= c.ours_signed.adds.push(adds[0]));
            assert(step.channel.ours_signed.fulfills =~= c.ours_signed.fulfills);
        } else {
            let held = step.channel.holding_cell.adds;
            assert(held =~= c.holding_cell.adds.push(held.last()));
        }
    }
}

/// An offer of the peer is taken as it is, behind those that the peer has made already, unless
/// a teleport is under way.
pub proof fn law_offer_is_taken(c: ChannelView, msg: UpdateAddHtlc)
    ensures
        match c.on_update_add_htlc(msg) {
            Ok(step) => {
                &&& c.connection is Connected && c.teleport is Idle
                &&& step.channel == (ChannelView {
                    theirs_announced: BatchView {
                        adds: c.theirs_announced.adds.push(msg),
                        fulfills: c.theirs_announced.fulfills,
                    },
                    ..c
                })
                &&& step.effects.msgs.len() == 0
                &&& step.effects.events.len() == 0
                &&& step.effects.monitor_updates == 0
                &&& step.effects.received.len() == 0
                &&& step.effects.registered is None
            },
            Err(error) => if c.connection is Connected {
                error == ChannelError::UnexpectedState && c.teleport !is Idle
            } else {
                error == ChannelError::PeerDisconnected
            },
        },
{
}

/// The position of the first HTLC with an identifier.
proof fn lemma_htlc_position(htlcs: Seq<UpdateAddHtlc>, htlc_id: u64, i: int)
    requires
        0 <= i <= htlcs.len(),
        i < htlcs.len() ==> htlcs[i].htlc_id == htlc_id,
        forall|k: int| 0 <= k < i ==> (#[trigger] htlcs[k]).htlc_id != htlc_id,
    ensures
        htlc_position(htlcs, htlc_id) == i,
    decreases i,
{
    if i > 0 {
        assert(htlcs[0].htlc_id != htlc_id);
        assert forall|k: int| 0 <= k < i - 1 implies (#[trigger] htlcs.drop_first()[k]).htlc_id
            != htlc_id by {
            assert(htlcs[k + 1].htlc_id != htlc_id);
        }
        lemma_htlc_position(htlcs.drop_first(), htlc_id, i - 1);
    }
}

/// A claim of an HTLC that the peer has on the channel: the first with that identifier is
/// gone, the monitor learns of it, and the claim, which names the HTLC and gives the preimage,
/// goes out at once, alone and signed for, if the channel takes updates; otherwise it is held
/// behind those that are held already, whatever state the channel is in.
pub proof fn law_claim_gives_the_preimage(
    c: ChannelView,
    htlc_id: u64,
    payment_preimage: PaymentPreimage,
    i: int,
)
    requires
        0 <= i < c.inbound_htlcs.len(),
        c.inbound_htlcs[i].htlc_id == htlc_id,
        forall|k: int| 0 <= k < i ==> (#[trigger] c.inbound_htlcs[k]).htlc_id != htlc_id,
    ensures
        ({
            let fulfill = UpdateFulfillHtlc {
                channel_id: c.channel_id,
                htlc_id,
                payment_preimage,
            };
            let sends = c.connection is Connected && c.teleport is Idle && !c.awaiting_raa;
            &&& c.claim_htlc(htlc_id, payment_preimage) matches Ok(step)
            &&& step.effects.events.len() == 0
            &&& step.effects.monitor_updates == 1
            &&& step.effects.received.len() == 0
            &&& step.effects.registered is None
            &&& if sends {
                &&& step.effects.msgs == seq![
                    MessageView::UpdateHTLCs {
                        node_id: c.counterparty_node_id,
                        channel_id: c.channel_id,
                        updates: CommitmentUpdateView {
                            update_add_htlcs: seq![],
                            update_fulfill_htlcs: seq![fulfill],
                            commitment_signed: seq![
                                CommitmentSigned {
                                    channel_id: c.channel_id,
                                    funding_txid: c.funding_txo.txid,
                                },
                            ],
                        },
                    },
                ]
                &&& step.channel == ChannelView {
                    inbound_htlcs: c.inbound_htlcs.remove(i),
                    awaiting_raa: true,
                    ours_signed: BatchView {
                        adds: c.ours_signed.adds,
                        fulfills: c.ours_signed.fulfills.push(fulfill),
                    },
                    theirs_to_sign: BatchView { adds: seq![], fulfills: seq![] },
                    theirs_signed: BatchView {
                        adds: c.theirs_signed.adds + c.theirs_to_sign.adds,
                        fulfills: c.theirs_signed.fulfills + c.theirs_to_sign.fulfills,
                    },
                    ..c
                }
            } else {
                &&& step.effects.msgs.len() == 0
                &&& step.channel == ChannelView {
                    inbound_htlcs: c.inbound_htlcs.remove(i),
                    holding_cell: BatchView {
                        adds: c.holding_cell.adds,
                        fulfills: c.holding_cell.fulfills.push(fulfill),
                    },
                    ..c
                }
            }
        }),
{
    lemma_htlc_position(c.inbound_htlcs, htlc_id, i);
    let fulfill = UpdateFulfillHtlc { channel_id: c.channel_id, htlc_id, payment_preimage };
    let step = c.claim_htlc(htlc_id, payment_preimage)->Ok_0;
    if c.connection is Connected && c.teleport is Idle && !c.awaiting_raa {
        assert(Seq::<UpdateFulfillHtlc>::empty().push(fulfill) =~= seq![fulfill]);
        assert(step.channel.ours_signed.adds =~= c.ours_signed.adds);
        assert(step.channel.ours_signed.fulfills =~= c.ours_signed.fulfills.push(fulfill));
        assert(step.effects.msgs.len() == 1);
        assert(step.effects.msgs =~= seq![step.effects.msgs[0]]);
    }
}

/// What the peer has not got on the channel cannot be claimed.
pub proof fn law_unknown_htlc_is_not_claimed(
    c: ChannelView,
    htlc_id: u64,
    payment_preimage: PaymentPreimage,
)
    requires
        forall|k: int|
            0 <= k < c.inbound_htlcs.len() ==> (#[trigger] c.inbound_htlcs[k]).htlc_id != htlc_id,
    ensures
        c.claim_htlc(htlc_id, payment_preimage) == Err::<Step, ChannelError>(
            ChannelError::UnexpectedState,
        ),
{
    lemma_htlc_position(c.inbound_htlcs, htlc_id, c.inbound_htlcs.len() as int);
}

/// A claim by the peer of an own HTLC. It is taken if the preimage is that of the HTLC's hash:
/// the first HTLC with that identifier is gone, and the user learns which payment was claimed
/// and with which preimage. Otherwise, or while a teleport is under way, it is refused.
pub proof fn law_claim_is_checked_and_told(
    c: ChannelView,
    msg: UpdateFulfillHtlc,
    digest: Seq<u8>,
    i: int,
)
    requires
        c.connection is Connected,
        0 <= i <= c.outbound_htlcs.len(),
        i < c.outbound_htlcs.len() ==> c.outbound_htlcs[i].htlc_id == msg.htlc_id,
        forall|k: int| 0 <= k < i ==> (#[trigger] c.outbound_htlcs[k]).htlc_id != msg.htlc_id,
    ensures
        ({
            let unlocks = i < c.outbound_htlcs.len() && c.outbound_htlcs[i].payment_hash.0@
                == digest;
            match c.on_update_fulfill_htlc(msg, digest) {
                Ok(step) => {
                    &&& c.teleport is Idle && unlocks
                    &&& step.channel == ChannelView {
                        outbound_htlcs: c.outbound_htlcs.remove(i),
                        theirs_announced: BatchView {
                            adds: c.theirs_announced.adds,
                            fulfills: c.theirs_announced.fulfills.push(msg),
                        },
                        ..c
                    }
                    &&& step.effects.msgs.len() == 0
                    &&& step.effects.monitor_updates == 0
                    &&& step.effects.received.len() == 0
                    &&& step.effects.registered is None
                    &&& step.effects.events.len() == 1
                    &&& step.effects.events[0] matches Event::PaymentSent {
                        payment_hash,
                        payment_preimage,
                    }
                    &&& payment_hash == c.outbound_htlcs[i].payment_hash
                    &&& payment_preimage == msg.payment_preimage
                },
                Err(error) => {
                    &&& error == ChannelError::UnexpectedState
                    &&& c.teleport !is Idle || !unlocks
                },
            }
        }),
{
    lemma_htlc_position(c.outbound_htlcs, msg.htlc_id, i);
}

/// Nothing is claimed by a peer that is not connected.
pub proof fn law_lost_peer_claims_nothing(c: ChannelView, msg: UpdateFulfillHtlc, digest: Seq<u8>)
    requires
        c.connection !is Connected,
    ensures
        c.on_update_fulfill_htlc(msg, digest) == Err::<Step, ChannelError>(
            ChannelError::PeerDisconnected,
        ),
{
}

/// What the loss of the peer does. A teleport is kept by the end that proposed it from the
/// acceptance on, and by the end that answered once its acceptance was sent; any other is
/// given up, and the monitor forgets the output that it was for. Everything else of the
/// channel stays: its HTLCs, its updates under way and those that are held.
pub proof fn law_lost_peer_ends_what_is_not_agreed(c: ChannelView, ack_unsent: bool)
    ensures
        ({
            let after = c.on_peer_disconnected(ack_unsent);
            let kept = match c.teleport {
                TeleportState::Acked { initiator, .. } => initiator || !ack_unsent,
                TeleportState::CompleteSent { .. } => true,
                _ => false,
            };
            &&& kept ==> after == ChannelView {
                connection: Connection::Disconnected,
                ticks: None,
                ..c
            }
            &&& !kept ==> after == ChannelView {
                connection: Connection::Disconnected,
                ticks: None,
                teleport: TeleportState::Idle,
                monitor: MonitorView {
                    funding_txo: c.monitor.funding_txo,
                    pending_funding_txo: None,
                    funding_script: c.monitor.funding_script,
                },
                ..c
            }
        }),
{
}

/// A peer that comes back is sent one `channel_reestablish`, which names the channel and its
/// next commitment; a peer that was not lost is sent nothing.
pub proof fn law_returned_peer_is_greeted(c: ChannelView)
    ensures
        ({
            let step = c.on_peer_connected();
            &&& step.effects.events.len() == 0
            &&& step.effects.monitor_updates == 0
            &&& step.effects.received.len() == 0
            &&& step.effects.registered is None
            &&& c.connection is Disconnected ==> {
                &&& step.channel == ChannelView { connection: Connection::Reestablishing, ..c }
                &&& step.effects.msgs == seq![
                    MessageView::SendChannelReestablish {
                        node_id: c.counterparty_node_id,
                        msg: ChannelReestablish {
                            channel_id: c.channel_id,
                            next_local_commitment_number: c.next_commitment_number,
                        },
                    },
                ]
            }
            &&& c.connection !is Disconnected ==> step.channel == c && step.effects.msgs.len() == 0
        }),
{
    assert(c.connection is Disconnected ==> c.on_peer_connected().effects.msgs =~= seq![
        MessageView::SendChannelReestablish {
            node_id: c.counterparty_node_id,
            msg: ChannelReestablish {
                channel_id: c.channel_id,
                next_local_commitment_number: c.next_commitment_number,
            },
        },
    ]);
}

/// The resumption of a channel. The channel's readiness is sent again, and its announcement if
/// it is announced, while both ends are at their first commitment. A teleport that outlived
/// the disconnection goes on and nothing that is held goes out; otherwise all that is held
/// goes out last, in one message, unless the peer owes an acknowledgement.
pub proof fn law_resumption(c: ChannelView, msg: ChannelReestablish)
    ensures
        ({
            let fresh = c.next_commitment_number == 1 && msg.next_local_commitment_number == 1;
            let held = c.holding_cell.adds.len() > 0 || c.holding_cell.fulfills.len() > 0;
            let lets_out = held && c.teleport is Idle && !c.awaiting_raa;
            let first: int = if fresh && c.announced {
                2
            } else if fresh {
                1
            } else {
                0
            };
            match c.on_channel_reestablish(msg) {
                Ok(step) => {
                    &&& c.connection is Reestablishing
                    &&& step.effects.events.len() == 0
                    &&& step.effects.received.len() == 0
                    &&& step.effects.registered is None
                    &&& fresh ==> step.effects.msgs[0] == MessageView::SendChannelReady {
                        node_id: c.counterparty_node_id,
                        msg: ChannelReady { channel_id: c.channel_id },
                    }
                    &&& fresh && c.announced ==> step.effects.msgs[1]
                        == MessageView::SendAnnouncementSignatures {
                        node_id: c.counterparty_node_id,
                        msg: AnnouncementSignatures { channel_id: c.channel_id },
                    }
                    &&& if lets_out {
                        &&& step.effects.monitor_updates == 1
                        &&& step.effects.msgs.len() == first + 1
                        &&& step.effects.msgs[first] == MessageView::UpdateHTLCs {
                            node_id: c.counterparty_node_id,
                            channel_id: c.channel_id,
                            updates: CommitmentUpdateView {
                                update_add_htlcs: c.holding_cell.adds,
                                update_fulfill_htlcs: c.holding_cell.fulfills,
                                commitment_signed: seq![
                                    CommitmentSigned {
                                        channel_id: c.channel_id,
                                        funding_txid: c.funding_txo.txid,
                                    },
                                ],
                            },
                        }
                        &&& step.channel == ChannelView {
                            connection: Connection::Connected,
                            ticks: None,
                            awaiting_raa: true,
                            holding_cell: BatchView { adds: seq![], fulfills: seq![] },
                            ours_signed: BatchView {
                                adds: c.ours_signed.adds + c.holding_cell.adds,
                                fulfills: c.ours_signed.fulfills + c.holding_cell.fulfills,
                            },
                            theirs_to_sign: BatchView { adds: seq![], fulfills: seq![] },
                            theirs_signed: BatchView {
                                adds: c.theirs_signed.adds + c.theirs_to_sign.adds,
                                fulfills: c.theirs_signed.fulfills + c.theirs_to_sign.fulfills,
                            },
                            ..c
                        }
                    } else {
                        &&& step.effects.monitor_updates == 0
                        &&& step.effects.msgs.len() == first
                        &&& step.channel == ChannelView {
                            connection: Connection::Connected,
                            ticks: None,
                            ..c
                        }
                    }
                },
                Err(error) => match c.connection {
                    Connection::Disconnected => error == ChannelError::PeerDisconnected,
                    Connection::Connected => error == ChannelError::UnexpectedState,
                    Connection::Reestablishing => false,
                },
            }
        }),
{
}

/// A tick of the timer. It counts while the channel is being resumed, and on a connected
/// channel from the request for quiescence to the acceptance; from the second tick on the peer
/// is disconnected. At any other time the count starts anew. Nothing else changes.
pub proof fn law_tick(c: ChannelView)
    ensures
        ({
            let step = c.on_timer_tick();
            let counts = c.connection is Reestablishing || c.connection is Connected && (c.teleport
                is AwaitingStfu || c.teleport is Quiescent || c.teleport is InitSent
                || c.teleport is InitReceived);
            let late = counts && (c.ticks matches Some(n) && n >= 1);
            &&& step.effects.events.len() == 0
            &&& step.effects.monitor_updates == 0
            &&& step.effects.received.len() == 0
            &&& step.effects.registered is None
            &&& step.channel == ChannelView { ticks: step.channel.ticks, ..c }
            &&& !counts ==> step.channel.ticks is None
            &&& counts && !late ==> step.channel.ticks == Some(1usize)
            &&& late ==> step.channel.ticks == Some(2usize)
            &&& !late ==> step.effects.msgs.len() == 0
            &&& late ==> step.effects.msgs == seq![
                MessageView::DisconnectPeer { node_id: c.counterparty_node_id },
            ]
        }),
{
    let step = c.on_timer_tick();
    if step.effects.msgs.len() == 1 {
        assert(step.effects.msgs =~= seq![step.effects.msgs[0]]);
    }
}

} // verus!
