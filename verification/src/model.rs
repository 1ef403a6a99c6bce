//! One end of a channel as a state machine: its states, and what each request, message and
//! disturbance does to them.
//!
//! A teleport runs through these states, the initiator's on the left:
//!
//! ```text
//! Idle                                     Idle
//! AwaitingStfu       -- stfu -->           Quiescent
//! InitSent           <-- stfu --
//!                    -- teleport_init -->  InitReceived
//! Acked              <-- teleport_ack --   Acked
//!                    <- commitment_signed ->
//! CompleteSent       -- complete -->       Idle, on the new funding output
//! Idle, on the new   <-- complete_ack --
//! funding output
//! ```
//!
//! In every state but `Idle` the channel sends no HTLC updates of its own: they wait in the
//! holding cell and go out when the channel is `Idle` again.
use vstd::prelude::*;
use crate::batch::BatchView;
use crate::monitor::MonitorView;
use crate::msgs::{
    AnnouncementSignatures, ChannelReady, ChannelReestablish, CommitmentSigned, CommitmentUpdateView,
    Event, MessageView, RecipientOnionFields, RevokeAndAck, Stfu, TeleportAbort, TeleportAck,
    TeleportComplete, TeleportCompleteAck, TeleportInit, UpdateAddHtlc, UpdateFulfillHtlc,
};
use crate::types::{ChannelError, ChannelId, NodeId, OutPoint, PaymentHash, PaymentPreimage, Txid};

verus! {

/// The number of timer ticks after which a peer that owes an answer is disconnected.
pub const DISCONNECT_PEER_AWAITING_RESPONSE_TICKS: usize = 2;

/// How far a teleport has come on one end of the channel.
#[derive(Clone, Copy, Debug)]
pub enum TeleportState {
    /// No teleport: the channel takes HTLC updates.
    Idle,
    /// Asked the peer for quiescence in order to propose a teleport.
    AwaitingStfu { new_funding_txo: OutPoint },
    /// Granted quiescence to the peer, whose proposal is to come.
    Quiescent,
    /// Proposed a teleport.
    InitSent { new_funding_txo: OutPoint },
    /// Received a proposal, which the user is to accept or to cancel.
    InitReceived { new_funding_txo: OutPoint },
    /// The proposal was accepted.
    Acked {
        new_funding_txo: OutPoint,
        /// Whether this end made the proposal.
        initiator: bool,
        /// Whether the peer has signed a commitment on the new funding output.
        commitment_received: bool,
    },
    /// Told the peer to switch to the new funding output.
    CompleteSent { new_funding_txo: OutPoint },
}

/// Whether the peer can be talked to.
#[derive(Clone, Copy, Debug)]
pub enum Connection {
    Connected,
    Disconnected,
    /// Connected again, and waiting for the peer's `channel_reestablish`.
    Reestablishing,
}

/// One end of a channel.
#[verifier::ext_equal]
pub struct ChannelView {
    pub channel_id: ChannelId,
    pub user_channel_id: u128,
    pub counterparty_node_id: NodeId,
    pub announced: bool,
    pub connection: Connection,
    pub teleport: TeleportState,
    /// The timer ticks seen since the peer owes an answer.
    pub ticks: Option<usize>,
    pub funding_txo: OutPoint,
    pub monitor: MonitorView,
    pub next_htlc_id: u64,
    pub next_commitment_number: u64,
    /// Whether the peer owes a `revoke_and_ack`.
    pub awaiting_raa: bool,
    /// Own updates that are held back.
    pub holding_cell: BatchView,
    /// Own updates that were signed for, and that the peer has not acknowledged.
    pub ours_signed: BatchView,
    /// Own updates that the peer has acknowledged and is to sign for.
    pub ours_revoked: BatchView,
    /// The peer's updates that it has not signed for.
    pub theirs_announced: BatchView,
    /// The peer's updates that were acknowledged and are to be signed for.
    pub theirs_to_sign: BatchView,
    /// The peer's updates that were signed for, and that the peer has not acknowledged.
    pub theirs_signed: BatchView,
    /// Own HTLCs that both ends are committed to and that are not claimed.
    pub outbound_htlcs: Seq<UpdateAddHtlc>,
    /// The peer's HTLCs that both ends are committed to and that are not claimed.
    pub inbound_htlcs: Seq<UpdateAddHtlc>,
}

/// What a step does outside of the channel.
#[verifier::ext_equal]
pub struct Effects {
    /// The messages to send, in order.
    pub msgs: Seq<MessageView>,
    /// What the user is told.
    pub events: Seq<Event>,
    /// How many updates of the monitor are to be persisted.
    pub monitor_updates: nat,
    /// The HTLCs that have become ready to be processed.
    pub received: Seq<UpdateAddHtlc>,
    /// An output that the monitor watches from now on.
    pub registered: Option<OutPoint>,
}

/// A step of the channel: its next state and what happens besides.
#[verifier::ext_equal]
pub struct Step {
    pub channel: ChannelView,
    pub effects: Effects,
}

impl Effects {
    /// Nothing happens.
    pub open spec fn none() -> Effects {
        Effects {
            msgs: Seq::empty(),
            events: Seq::empty(),
            monitor_updates: 0,
            received: Seq::empty(),
            registered: None,
        }
    }
}

impl Step {
    /// The channel changes and nothing else happens.
    pub open spec fn to(channel: ChannelView) -> Step {
        Step { channel, effects: Effects::none() }
    }

    /// The step, which also sends a message after those that it sends already.
    pub open spec fn say(self, msg: MessageView) -> Step {
        Step { effects: Effects { msgs: self.effects.msgs.push(msg), ..self.effects }, ..self }
    }

    /// The step, which also updates the monitor.
    pub open spec fn persist(self) -> Step {
        Step {
            effects: Effects { monitor_updates: self.effects.monitor_updates + 1, ..self.effects },
            ..self
        }
    }

    /// The step, which also tells the user something.
    pub open spec fn tell(self, event: Event) -> Step {
        Step { effects: Effects { events: self.effects.events.push(event), ..self.effects }, ..self }
    }

    /// The step, after which the channel signs for all that it has to sign for and for own
    /// updates.
    pub open spec fn commit(self, own: BatchView) -> Step {
        Step { channel: self.channel.committed(own), ..self }.say(self.channel.update_msg(own))
    }

    /// The step, after which held updates go out if the channel takes updates.
    pub open spec fn release(self) -> Step {
        let channel = self.channel;
        if channel.can_send() && !channel.holding_cell.is_empty() {
            Step {
                channel: ChannelView { holding_cell: BatchView::empty(), ..channel },
                ..self
            }.commit(channel.holding_cell).persist()
        } else {
            self
        }
    }
}

impl TeleportState {
    /// The output that the monitor watches besides the funding output.
    pub open spec fn watched(self) -> Option<OutPoint> {
        match self {
            TeleportState::Acked { new_funding_txo, commitment_received: true, .. } => Some(
                new_funding_txo,
            ),
            TeleportState::CompleteSent { new_funding_txo } => Some(new_funding_txo),
            _ => None,
        }
    }

    /// Whether a proposal was accepted, and the channel has not switched yet.
    pub open spec fn agreed(self) -> bool {
        self is Acked || self is CompleteSent
    }

    /// Whether the teleport outlives a disconnection. One that was not accepted does not.
    /// One that this end has accepted does, unless its acceptance was not even sent.
    pub open spec fn outlives_disconnect(self, ack_unsent: bool) -> bool {
        match self {
            TeleportState::Acked { initiator, .. } => initiator || !ack_unsent,
            TeleportState::CompleteSent { .. } => true,
            _ => false,
        }
    }
}

impl ChannelView {
    /// A new channel.
    pub open spec fn opened(
        channel_id: ChannelId,
        user_channel_id: u128,
        counterparty_node_id: NodeId,
        announced: bool,
        funding_txo: OutPoint,
        funding_script: Seq<u8>,
    ) -> ChannelView {
        ChannelView {
            channel_id,
            user_channel_id,
            counterparty_node_id,
            announced,
            connection: Connection::Connected,
            teleport: TeleportState::Idle,
            ticks: None,
            funding_txo,
            monitor: MonitorView { funding_txo, pending_funding_txo: None, funding_script },
            next_htlc_id: 0,
            next_commitment_number: 1,
            awaiting_raa: false,
            holding_cell: BatchView::empty(),
            ours_signed: BatchView::empty(),
            ours_revoked: BatchView::empty(),
            theirs_announced: BatchView::empty(),
            theirs_to_sign: BatchView::empty(),
            theirs_signed: BatchView::empty(),
            outbound_htlcs: Seq::empty(),
            inbound_htlcs: Seq::empty(),
        }
    }

    /// Whether no HTLC update is under way.
    pub open spec fn settled(self) -> bool {
        &&& !self.awaiting_raa
        &&& self.ours_signed.is_empty()
        &&& self.ours_revoked.is_empty()
        &&& self.theirs_announced.is_empty()
        &&& self.theirs_to_sign.is_empty()
        &&& self.theirs_signed.is_empty()
    }

    /// Whether own HTLC updates may be sent.
    pub open spec fn can_send(self) -> bool {
        self.connection is Connected && self.teleport is Idle && !self.awaiting_raa
    }

    /// Whether a teleport may start.
    pub open spec fn can_teleport(self) -> bool {
        self.connection is Connected && self.teleport is Idle && self.settled()
    }

    /// What holds of every channel: the monitor follows the channel's funding output, and
    /// watches the new one as well from the peer's commitment on it to the switch; no HTLC
    /// update is under way during a teleport; nothing is held back without a reason.
    pub open spec fn wf(self) -> bool {
        &&& self.monitor.funding_txo == self.funding_txo
        &&& self.monitor.pending_funding_txo == self.teleport.watched()
        &&& self.teleport !is Idle ==> self.settled()
        &&& !self.awaiting_raa ==> {
            &&& self.ours_signed.is_empty()
            &&& self.theirs_to_sign.is_empty()
            &&& self.theirs_signed.is_empty()
        }
        &&& self.can_send() ==> self.holding_cell.is_empty()
        &&& self.ticks matches Some(n) ==> n <= DISCONNECT_PEER_AWAITING_RESPONSE_TICKS
    }

    /// The channel in another teleport state; the peer owes nothing any more.
    pub open spec fn in_state(self, teleport: TeleportState) -> ChannelView {
        ChannelView { teleport, ticks: None, ..self }
    }

    /// The channel on another funding output, with no teleport under way.
    pub open spec fn promoted(self, txo: OutPoint) -> ChannelView {
        ChannelView {
            funding_txo: txo,
            monitor: MonitorView { funding_txo: txo, pending_funding_txo: None, ..self.monitor },
            ..self.in_state(TeleportState::Idle)
        }
    }

    /// The channel after it has signed for the peer's updates that it has to sign for and
    /// for own updates.
    pub open spec fn committed(self, own: BatchView) -> ChannelView {
        ChannelView {
            awaiting_raa: true,
            ours_signed: self.ours_signed.then_all(own),
            theirs_to_sign: BatchView::empty(),
            theirs_signed: self.theirs_signed.then_all(self.theirs_to_sign),
            ..self
        }
    }

    /// A signature on the given funding transaction, with the updates that it covers.
    pub open spec fn signature_msg(self, own: BatchView, funding_txid: Txid) -> MessageView {
        MessageView::UpdateHTLCs {
            node_id: self.counterparty_node_id,
            channel_id: self.channel_id,
            updates: CommitmentUpdateView {
                update_add_htlcs: own.adds,
                update_fulfill_htlcs: own.fulfills,
                commitment_signed: seq![
                    CommitmentSigned { channel_id: self.channel_id, funding_txid },
                ],
            },
        }
    }

    /// Own updates, with the signature on the current funding transaction.
    pub open spec fn update_msg(self, own: BatchView) -> MessageView {
        self.signature_msg(own, self.funding_txo.txid)
    }

    /// The event by which the user learns of a proposal.
    pub open spec fn teleport_event(self, new_funding_txo: OutPoint) -> Event {
        Event::ChannelTeleport {
            channel_id: self.channel_id,
            user_channel_id: self.user_channel_id,
            counterparty_node_id: self.counterparty_node_id,
            new_funding_txo: new_funding_txo.bitcoin_outpoint(),
        }
    }

    /// The user asks for a teleport: quiescence comes first.
    pub open spec fn propose_teleport(self, new_funding_txo: OutPoint) -> Result<Step, ChannelError> {
        if self.connection !is Connected {
            Err(ChannelError::PeerDisconnected)
        } else if !self.can_teleport() {
            Err(ChannelError::UnexpectedState)
        } else {
            Ok(
                Step::to(self.in_state(TeleportState::AwaitingStfu { new_funding_txo })).say(
                    MessageView::SendStfu {
                        node_id: self.counterparty_node_id,
                        msg: Stfu { channel_id: self.channel_id, initiator: true },
                    },
                ),
            )
        }
    }

    /// The peer asks for quiescence, which is granted, or grants it, on which the proposal
    /// is made.
    pub open spec fn on_stfu(self, msg: Stfu) -> Result<Step, ChannelError> {
        if self.connection !is Connected {
            Err(ChannelError::PeerDisconnected)
        } else if msg.initiator && self.can_teleport() {
            Ok(
                Step::to(self.in_state(TeleportState::Quiescent)).say(
                    MessageView::SendStfu {
                        node_id: self.counterparty_node_id,
                        msg: Stfu { channel_id: self.channel_id, initiator: false },
                    },
                ),
            )
        } else {
            match self.teleport {
                TeleportState::AwaitingStfu { new_funding_txo } if !msg.initiator => Ok(
                    Step::to(self.in_state(TeleportState::InitSent { new_funding_txo })).say(
                        MessageView::SendTeleportInit {
                            node_id: self.counterparty_node_id,
                            msg: TeleportInit { channel_id: self.channel_id, new_funding_txo },
                        },
                    ),
                ),
                _ => Err(ChannelError::UnexpectedState),
            }
        }
    }

    /// The peer proposes a teleport: the user is told.
    pub open spec fn on_teleport_init(self, msg: TeleportInit) -> Result<Step, ChannelError> {
        if self.connection !is Connected {
            Err(ChannelError::PeerDisconnected)
        } else if self.teleport !is Quiescent {
            Err(ChannelError::UnexpectedState)
        } else {
            Ok(
                Step::to(
                    self.in_state(
                        TeleportState::InitReceived { new_funding_txo: msg.new_funding_txo },
                    ),
                ).tell(self.teleport_event(msg.new_funding_txo)),
            )
        }
    }

    /// The user accepts the peer's proposal: the acceptance goes out, and a signature on the
    /// new funding output.
    pub open spec fn accept_teleport(self) -> Result<Step, ChannelError> {
        if self.connection !is Connected {
            Err(ChannelError::PeerDisconnected)
        } else {
            match self.teleport {
                TeleportState::InitReceived { new_funding_txo } => Ok(
                    Step::to(
                        self.in_state(
                            TeleportState::Acked {
                                new_funding_txo,
                                initiator: false,
                                commitment_received: false,
                            },
                        ),
                    ).say(
                        MessageView::SendTeleportAck {
                            node_id: self.counterparty_node_id,
                            msg: TeleportAck { channel_id: self.channel_id },
                        },
                    ).say(self.signature_msg(BatchView::empty(), new_funding_txo.txid)),
                ),
                _ => Err(ChannelError::UnexpectedState),
            }
        }
    }

    /// The peer has accepted: a signature on the new funding output goes out.
    pub open spec fn on_teleport_ack(self) -> Result<Step, ChannelError> {
        if self.connection !is Connected {
            Err(ChannelError::PeerDisconnected)
        } else {
            match self.teleport {
                TeleportState::InitSent { new_funding_txo } => Ok(
                    Step::to(
                        self.in_state(
                            TeleportState::Acked {
                                new_funding_txo,
                                initiator: true,
                                commitment_received: false,
                            },
                        ),
                    ).say(self.signature_msg(BatchView::empty(), new_funding_txo.txid)),
                ),
                _ => Err(ChannelError::UnexpectedState),
            }
        }
    }

    /// The user cancels the peer's proposal: the channel takes updates again.
    pub open spec fn cancel_teleport(self) -> Result<Step, ChannelError> {
        if self.connection !is Connected {
            Err(ChannelError::PeerDisconnected)
        } else if self.teleport !is InitReceived {
            Err(ChannelError::UnexpectedState)
        } else {
            Ok(
                Step::to(self.in_state(TeleportState::Idle)).say(
                    MessageView::SendTeleportAbort {
                        node_id: self.counterparty_node_id,
                        msg: TeleportAbort { channel_id: self.channel_id },
                    },
                ).release(),
            )
        }
    }

    /// The peer has declined: the channel takes updates again.
    pub open spec fn on_teleport_abort(self) -> Result<Step, ChannelError> {
        if self.connection !is Connected {
            Err(ChannelError::PeerDisconnected)
        } else if self.teleport !is InitSent {
            Err(ChannelError::UnexpectedState)
        } else {
            Ok(Step::to(self.in_state(TeleportState::Idle)).release())
        }
    }

    /// The user lets the channel switch, once both ends have signed for it.
    pub open spec fn complete_teleport(self) -> Result<Step, ChannelError> {
        if self.connection !is Connected {
            Err(ChannelError::PeerDisconnected)
        } else {
            match self.teleport {
                TeleportState::Acked {
                    new_funding_txo,
                    initiator: true,
                    commitment_received: true,
                } => Ok(
                    Step::to(self.in_state(TeleportState::CompleteSent { new_funding_txo })).say(
                        MessageView::SendTeleportComplete {
                            node_id: self.counterparty_node_id,
                            msg: TeleportComplete { channel_id: self.channel_id },
                        },
                    ),
                ),
                _ => Err(ChannelError::UnexpectedState),
            }
        }
    }

    /// The peer lets the channel switch: it does, and says so.
    pub open spec fn on_teleport_complete(self) -> Result<Step, ChannelError> {
        if self.connection !is Connected {
            Err(ChannelError::PeerDisconnected)
        } else {
            match self.teleport {
                TeleportState::Acked {
                    new_funding_txo,
                    initiator: false,
                    commitment_received: true,
                } => Ok(
                    Step::to(self.promoted(new_funding_txo)).say(
                        MessageView::SendTeleportCompleteAck {
                            node_id: self.counterparty_node_id,
                            msg: TeleportCompleteAck { channel_id: self.channel_id },
                        },
                    ).persist().release(),
                ),
                _ => Err(ChannelError::UnexpectedState),
            }
        }
    }

    /// The peer has switched: this end does too.
    pub open spec fn on_teleport_complete_ack(self) -> Result<Step, ChannelError> {
        if self.connection !is Connected {
            Err(ChannelError::PeerDisconnected)
        } else {
            match self.teleport {
                TeleportState::CompleteSent { new_funding_txo } => Ok(
                    Step::to(self.promoted(new_funding_txo)).persist().release(),
                ),
                _ => Err(ChannelError::UnexpectedState),
            }
        }
    }

    /// The peer has signed on the output that the channel is to move to: the monitor
    /// watches it from now on.
    pub open spec fn on_teleport_commitment(self, msg: CommitmentSigned) -> Result<
        Step,
        ChannelError,
    > {
        match self.teleport {
            TeleportState::Acked {
                new_funding_txo,
                initiator,
                commitment_received: false,
            } if msg.funding_txid == new_funding_txo.txid => {
                let channel = ChannelView {
                    teleport: TeleportState::Acked {
                        new_funding_txo,
                        initiator,
                        commitment_received: true,
                    },
                    monitor: MonitorView {
                        pending_funding_txo: Some(new_funding_txo),
                        ..self.monitor
                    },
                    ..self
                };
                let step = Step::to(channel).persist();
                Ok(
                    Step {
                        effects: Effects { registered: Some(new_funding_txo), ..step.effects },
                        ..step
                    },
                )
            },
            _ => Err(ChannelError::UnexpectedState),
        }
    }

    /// The peer has signed for updates: its previous commitment is revoked, and its own
    /// updates are signed for as soon as the peer owes no `revoke_and_ack`.
    pub open spec fn on_update_commitment(self, msg: CommitmentSigned) -> Result<
        Step,
        ChannelError,
    > {
        if msg.funding_txid != self.funding_txo.txid {
            Err(ChannelError::UnexpectedState)
        } else if self.theirs_announced.is_empty() && self.ours_revoked.is_empty() {
            Err(ChannelError::UnexpectedState)
        } else {
            let channel = ChannelView {
                next_commitment_number: if self.next_commitment_number < u64::MAX {
                    (self.next_commitment_number + 1) as u64
                } else {
                    u64::MAX
                },
                outbound_htlcs: self.outbound_htlcs + self.ours_revoked.adds,
                ours_revoked: BatchView::empty(),
                theirs_to_sign: self.theirs_to_sign.then_all(self.theirs_announced),
                theirs_announced: BatchView::empty(),
                ..self
            };
            let step = Step::to(channel).persist().say(
                MessageView::SendRevokeAndAck {
                    node_id: self.counterparty_node_id,
                    msg: RevokeAndAck { channel_id: self.channel_id },
                },
            );
            if !channel.awaiting_raa && !channel.theirs_to_sign.is_empty() {
                Ok(step.commit(BatchView::empty()))
            } else {
                Ok(step)
            }
        }
    }

    /// The peer has signed a commitment.
    pub open spec fn on_commitment_signed(self, msg: CommitmentSigned) -> Result<
        Step,
        ChannelError,
    > {
        if self.connection !is Connected {
            Err(ChannelError::PeerDisconnected)
        } else if self.teleport is Idle {
            self.on_update_commitment(msg)
        } else {
            self.on_teleport_commitment(msg)
        }
    }

    /// The peer has revoked its previous commitment: updates that it had to acknowledge move
    /// on, and what waits to be signed for, or is held, goes out.
    pub open spec fn on_revoke_and_ack(self) -> Result<Step, ChannelError> {
        if self.connection !is Connected {
            Err(ChannelError::PeerDisconnected)
        } else if !self.awaiting_raa {
            Err(ChannelError::UnexpectedState)
        } else {
            let channel = ChannelView {
                awaiting_raa: false,
                ours_revoked: self.ours_revoked.then_all(self.ours_signed),
                ours_signed: BatchView::empty(),
                inbound_htlcs: self.inbound_htlcs + self.theirs_signed.adds,
                theirs_signed: BatchView::empty(),
                holding_cell: BatchView::empty(),
                ..self
            };
            let step = Step::to(channel).persist();
            let step = Step {
                effects: Effects { received: self.theirs_signed.adds, ..step.effects },
                ..step
            };
            if !self.holding_cell.is_empty() || !self.theirs_to_sign.is_empty() {
                Ok(step.commit(self.holding_cell))
            } else {
                Ok(step)
            }
        }
    }

    /// An HTLC of the given contents, under the next identifier.
    pub open spec fn next_htlc(
        self,
        amount_msat: u64,
        payment_hash: PaymentHash,
        onion: RecipientOnionFields,
    ) -> UpdateAddHtlc {
        UpdateAddHtlc {
            channel_id: self.channel_id,
            htlc_id: self.next_htlc_id,
            amount_msat,
            payment_hash,
            onion,
        }
    }

    /// The user offers an HTLC: it goes out at once, or waits in the holding cell.
    pub open spec fn send_htlc(
        self,
        amount_msat: u64,
        payment_hash: PaymentHash,
        onion: RecipientOnionFields,
    ) -> Result<Step, ChannelError> {
        if self.connection !is Connected {
            Err(ChannelError::PeerDisconnected)
        } else if self.next_htlc_id == u64::MAX {
            Err(ChannelError::HtlcIdsExhausted)
        } else {
            let add = self.next_htlc(amount_msat, payment_hash, onion);
            let channel = ChannelView { next_htlc_id: (self.next_htlc_id + 1) as u64, ..self };
            if self.can_send() {
                Ok(Step::to(channel).commit(BatchView::empty().then_add(add)).persist())
            } else {
                Ok(
                    Step::to(
                        ChannelView { holding_cell: self.holding_cell.then_add(add), ..channel },
                    ),
                )
            }
        }
    }

    /// The peer offers an HTLC.
    pub open spec fn on_update_add_htlc(self, msg: UpdateAddHtlc) -> Result<Step, ChannelError> {
        if self.connection !is Connected {
            Err(ChannelError::PeerDisconnected)
        } else if self.teleport !is Idle {
            Err(ChannelError::UnexpectedState)
        } else {
            Ok(
                Step::to(
                    ChannelView { theirs_announced: self.theirs_announced.then_add(msg), ..self },
                ),
            )
        }
    }

    /// The user claims an HTLC of the peer: the claim goes out at once, or waits in the
    /// holding cell; the monitor learns the preimage either way.
    pub open spec fn claim_htlc(self, htlc_id: u64, payment_preimage: PaymentPreimage) -> Result<
        Step,
        ChannelError,
    > {
        let i = htlc_position(self.inbound_htlcs, htlc_id) as int;
        if i >= self.inbound_htlcs.len() {
            Err(ChannelError::UnexpectedState)
        } else {
            let fulfill = UpdateFulfillHtlc {
                channel_id: self.channel_id,
                htlc_id,
                payment_preimage,
            };
            let channel = ChannelView { inbound_htlcs: self.inbound_htlcs.remove(i), ..self };
            if self.can_send() {
                Ok(Step::to(channel).commit(BatchView::empty().then_fulfill(fulfill)).persist())
            } else {
                Ok(
                    Step::to(
                        ChannelView {
                            holding_cell: self.holding_cell.then_fulfill(fulfill),
                            ..channel
                        },
                    ).persist(),
                )
            }
        }
    }

    /// The peer claims an HTLC with a preimage whose digest is `digest`: the user is told.
    pub open spec fn on_update_fulfill_htlc(self, msg: UpdateFulfillHtlc, digest: Seq<u8>) -> Result<
        Step,
        ChannelError,
    > {
        let i = htlc_position(self.outbound_htlcs, msg.htlc_id) as int;
        if self.connection !is Connected {
            Err(ChannelError::PeerDisconnected)
        } else if self.teleport !is Idle || i >= self.outbound_htlcs.len() {
            Err(ChannelError::UnexpectedState)
        } else if self.outbound_htlcs[i].payment_hash.0@ != digest {
            Err(ChannelError::UnexpectedState)
        } else {
            Ok(
                Step::to(
                    ChannelView {
                        outbound_htlcs: self.outbound_htlcs.remove(i),
                        theirs_announced: self.theirs_announced.then_fulfill(msg),
                        ..self
                    },
                ).tell(
                    Event::PaymentSent {
                        payment_hash: self.outbound_htlcs[i].payment_hash,
                        payment_preimage: msg.payment_preimage,
                    },
                ),
            )
        }
    }

    /// The peer is gone. A teleport that does not outlive this is given up; the channel
    /// takes updates again once it is reestablished. HTLC updates under way stay as they are.
    pub open spec fn on_peer_disconnected(self, ack_unsent: bool) -> ChannelView {
        let kept = self.teleport.outlives_disconnect(ack_unsent);
        ChannelView {
            connection: Connection::Disconnected,
            ticks: None,
            teleport: if kept {
                self.teleport
            } else {
                TeleportState::Idle
            },
            monitor: if kept {
                self.monitor
            } else {
                MonitorView { pending_funding_txo: None, ..self.monitor }
            },
            ..self
        }
    }

    /// The peer is back.
    pub open spec fn on_peer_connected(self) -> Step {
        if self.connection is Disconnected {
            Step::to(ChannelView { connection: Connection::Reestablishing, ..self }).say(
                MessageView::SendChannelReestablish {
                    node_id: self.counterparty_node_id,
                    msg: ChannelReestablish {
                        channel_id: self.channel_id,
                        next_local_commitment_number: self.next_commitment_number,
                    },
                },
            )
        } else {
            Step::to(self)
        }
    }

    /// The peer resumes the channel. While neither end has moved past the first commitment,
    /// the channel's readiness and its announcement are sent again. Held updates go out
    /// unless a teleport is still under way.
    pub open spec fn on_channel_reestablish(self, msg: ChannelReestablish) -> Result<
        Step,
        ChannelError,
    > {
        match self.connection {
            Connection::Disconnected => Err(ChannelError::PeerDisconnected),
            Connection::Connected => Err(ChannelError::UnexpectedState),
            Connection::Reestablishing => {
                let step = Step::to(
                    ChannelView { connection: Connection::Connected, ticks: None, ..self },
                );
                let fresh = self.next_commitment_number == 1 && msg.next_local_commitment_number
                    == 1;
                let step = if fresh {
                    step.say(
                        MessageView::SendChannelReady {
                            node_id: self.counterparty_node_id,
                            msg: ChannelReady { channel_id: self.channel_id },
                        },
                    )
                } else {
                    step
                };
                let step = if fresh && self.announced {
                    step.say(
                        MessageView::SendAnnouncementSignatures {
                            node_id: self.counterparty_node_id,
                            msg: AnnouncementSignatures { channel_id: self.channel_id },
                        },
                    )
                } else {
                    step
                };
                Ok(step.release())
            },
        }
    }

    /// Whether the channel waits for a move of the peer or of the user that may not take
    /// long. An accepted teleport may.
    pub open spec fn awaits_response(self) -> bool {
        match self.connection {
            Connection::Disconnected => false,
            Connection::Reestablishing => true,
            Connection::Connected => self.teleport !is Idle && !self.teleport.agreed(),
        }
    }

    /// Time passes.
    pub open spec fn on_timer_tick(self) -> Step {
        if !self.awaits_response() {
            Step::to(ChannelView { ticks: None, ..self })
        } else {
            let seen: int = match self.ticks {
                Some(n) => n + 1,
                None => 1,
            };
            if seen < DISCONNECT_PEER_AWAITING_RESPONSE_TICKS {
                Step::to(ChannelView { ticks: Some(seen as usize), ..self })
            } else {
                Step::to(
                    ChannelView { ticks: Some(DISCONNECT_PEER_AWAITING_RESPONSE_TICKS), ..self },
                ).say(MessageView::DisconnectPeer { node_id: self.counterparty_node_id })
            }
        }
    }
}

/// The position of the first HTLC with the given identifier, or their number if none has it.
pub open spec fn htlc_position(htlcs: Seq<UpdateAddHtlc>, htlc_id: u64) -> nat
    decreases htlcs.len(),
{
    if htlcs.len() == 0 || htlcs[0].htlc_id == htlc_id {
        0
    } else {
        1 + htlc_position(htlcs.drop_first(), htlc_id)
    }
}

} // verus!
