//! One end of a channel.
use vstd::prelude::*;
use crate::batch::Batch;
use crate::model::{
    htlc_position, ChannelView, Connection, Effects, Step, TeleportState,
    DISCONNECT_PEER_AWAITING_RESPONSE_TICKS,
};
use crate::monitor::ChannelMonitor;
use crate::msgs::{
    messages, AnnouncementSignatures, ChannelReady, ChannelReestablish, CommitmentSigned,
    CommitmentUpdate, Event, MessageSendEvent, RecipientOnionFields, RevokeAndAck, Stfu,
    TeleportAbort, TeleportAck, TeleportComplete, TeleportCompleteAck, TeleportInit, UpdateAddHtlc,
    UpdateFulfillHtlc,
};
use crate::types::{
    bytes_equal, ChannelError, ChannelId, NodeId, OutPoint, PaymentHash, PaymentPreimage, ScriptBuf,
    Txid,
};

verus! {

/// What a step of a channel asks of its node.
pub struct Outcome {
    pub msgs: Vec<MessageSendEvent>,
    pub events: Vec<Event>,
    pub monitor_updates: usize,
    pub received: Vec<UpdateAddHtlc>,
    pub registered: Option<OutPoint>,
}

impl View for Outcome {
    type V = Effects;

    open spec fn view(&self) -> Effects {
        Effects {
            msgs: messages(self.msgs@),
            events: self.events@,
            monitor_updates: self.monitor_updates as nat,
            received: self.received@,
            registered: self.registered,
        }
    }
}

impl Outcome {
    fn none() -> (outcome: Self)
        ensures
            outcome@ == Effects::none(),
            outcome.monitor_updates == 0,
    {
        let outcome = Outcome {
            msgs: Vec::new(),
            events: Vec::new(),
            monitor_updates: 0,
            received: Vec::new(),
            registered: None,
        };
        assert(outcome@ =~= Effects::none());
        outcome
    }

    fn say(&mut self, msg: MessageSendEvent)
        ensures
            final(self)@ == (Effects { msgs: old(self)@.msgs.push(msg@), ..old(self)@ }),
            final(self).monitor_updates == old(self).monitor_updates,
    {
        self.msgs.push(msg);
        assert(messages(self.msgs@) =~= messages(old(self).msgs@).push(msg@));
    }
}

/// Whether an outcome and the channel's next state are those of the expected step, or the
/// expected refusal was given and the channel is as before.
pub open spec fn performs(
    expected: Result<Step, ChannelError>,
    before: ChannelView,
    after: ChannelView,
    outcome: Result<Outcome, ChannelError>,
) -> bool {
    match expected {
        Ok(step) => outcome is Ok && outcome->Ok_0@ == step.effects && after == step.channel,
        Err(error) => outcome == Err::<Outcome, ChannelError>(error) && after == before,
    }
}

/// One end of a channel. Each of its methods takes one step of [`ChannelView`].
pub struct Channel {
    channel_id: ChannelId,
    user_channel_id: u128,
    counterparty_node_id: NodeId,
    announced: bool,
    connection: Connection,
    teleport: TeleportState,
    ticks: Option<usize>,
    funding_txo: OutPoint,
    monitor: ChannelMonitor,
    next_htlc_id: u64,
    next_commitment_number: u64,
    awaiting_raa: bool,
    holding_cell: Batch,
    ours_signed: Batch,
    ours_revoked: Batch,
    theirs_announced: Batch,
    theirs_to_sign: Batch,
    theirs_signed: Batch,
    outbound_htlcs: Vec<UpdateAddHtlc>,
    inbound_htlcs: Vec<UpdateAddHtlc>,
}

impl View for Channel {
    type V = ChannelView;

    closed spec fn view(&self) -> ChannelView {
        ChannelView {
            channel_id: self.channel_id,
            user_channel_id: self.user_channel_id,
            counterparty_node_id: self.counterparty_node_id,
            announced: self.announced,
            connection: self.connection,
            teleport: self.teleport,
            ticks: self.ticks,
            funding_txo: self.funding_txo,
            monitor: self.monitor@,
            next_htlc_id: self.next_htlc_id,
            next_commitment_number: self.next_commitment_number,
            awaiting_raa: self.awaiting_raa,
            holding_cell: self.holding_cell@,
            ours_signed: self.ours_signed@,
            ours_revoked: self.ours_revoked@,
            theirs_announced: self.theirs_announced@,
            theirs_to_sign: self.theirs_to_sign@,
            theirs_signed: self.theirs_signed@,
            outbound_htlcs: self.outbound_htlcs@,
            inbound_htlcs: self.inbound_htlcs@,
        }
    }
}

/// The position of the first HTLC with the given identifier, if any has it.
fn find_htlc(htlcs: &Vec<UpdateAddHtlc>, htlc_id: u64) -> (i: usize)
    ensures
        i == htlc_position(htlcs@, htlc_id),
        i <= htlcs.len(),
{
    let mut i: usize = 0;
    assert(htlcs@.skip(0) =~= htlcs@);
    while i < htlcs.len()
        invariant
            i <= htlcs.len(),
            htlc_position(htlcs@, htlc_id) == i + htlc_position(htlcs@.skip(i as int), htlc_id),
        decreases htlcs.len() - i,
    {
        if htlcs[i].htlc_id == htlc_id {
            return i;
        }
        assert(htlcs@.skip(i as int).drop_first() =~= htlcs@.skip(i + 1));
        i = i + 1;
    }
    i
}

impl Channel {
    /// A new channel.
    pub fn new(
        channel_id: ChannelId,
        user_channel_id: u128,
        counterparty_node_id: NodeId,
        announced: bool,
        funding_txo: OutPoint,
        funding_script: ScriptBuf,
    ) -> (channel: Self)
        ensures
            channel@ == ChannelView::opened(
                channel_id,
                user_channel_id,
                counterparty_node_id,
                announced,
                funding_txo,
                funding_script@,
            ),
            channel@.wf(),
    {
        Channel {
            channel_id,
            user_channel_id,
            counterparty_node_id,
            announced,
            connection: Connection::Connected,
            teleport: TeleportState::Idle,
            ticks: None,
            funding_txo,
            monitor: ChannelMonitor::new(funding_txo, funding_script),
            next_htlc_id: 0,
            next_commitment_number: 1,
            awaiting_raa: false,
            holding_cell: Batch::new(),
            ours_signed: Batch::new(),
            ours_revoked: Batch::new(),
            theirs_announced: Batch::new(),
            theirs_to_sign: Batch::new(),
            theirs_signed: Batch::new(),
            outbound_htlcs: Vec::new(),
            inbound_htlcs: Vec::new(),
        }
    }

    pub fn channel_id(&self) -> (id: ChannelId)
        ensures
            id == self@.channel_id,
    {
        self.channel_id
    }

    pub fn user_channel_id(&self) -> (id: u128)
        ensures
            id == self@.user_channel_id,
    {
        self.user_channel_id
    }

    pub fn counterparty_node_id(&self) -> (id: NodeId)
        ensures
            id == self@.counterparty_node_id,
    {
        self.counterparty_node_id
    }

    pub fn funding_txo(&self) -> (txo: OutPoint)
        ensures
            txo == self@.funding_txo,
    {
        self.funding_txo
    }

    pub fn monitor(&self) -> (monitor: &ChannelMonitor)
        ensures
            monitor@ == self@.monitor,
    {
        &self.monitor
    }

    fn is_connected(&self) -> (r: bool)
        ensures
            r == (self@.connection is Connected),
    {
        matches!(self.connection, Connection::Connected)
    }

    fn is_idle(&self) -> (r: bool)
        ensures
            r == (self@.teleport is Idle),
    {
        matches!(self.teleport, TeleportState::Idle)
    }

    fn can_send(&self) -> (r: bool)
        ensures
            r == self@.can_send(),
    {
        self.is_connected() && self.is_idle() && !self.awaiting_raa
    }

    fn can_teleport(&self) -> (r: bool)
        ensures
            r == self@.can_teleport(),
    {
        self.can_send() && self.ours_signed.is_empty() && self.ours_revoked.is_empty()
            && self.theirs_announced.is_empty() && self.theirs_to_sign.is_empty()
            && self.theirs_signed.is_empty()
    }

    /// Enters another teleport state.
    fn enter(&mut self, teleport: TeleportState)
        ensures
            final(self)@ == old(self)@.in_state(teleport),
    {
        self.teleport = teleport;
        self.ticks = None;
    }

    /// A signature on the given funding transaction, with the updates that it covers.
    fn signature(&self, own: Batch, funding_txid: Txid) -> (msg: MessageSendEvent)
        ensures
            msg@ == self@.signature_msg(own@, funding_txid),
    {
        let mut commitment_signed: Vec<CommitmentSigned> = Vec::new();
        commitment_signed.push(CommitmentSigned { channel_id: self.channel_id, funding_txid });
        let updates = CommitmentUpdate {
            update_add_htlcs: own.adds,
            update_fulfill_htlcs: own.fulfills,
            commitment_signed,
        };
        assert(updates@.commitment_signed =~= seq![
            CommitmentSigned { channel_id: self.channel_id, funding_txid },
        ]);
        MessageSendEvent::UpdateHTLCs {
            node_id: self.counterparty_node_id,
            channel_id: self.channel_id,
            updates,
        }
    }

    /// Signs for what is to be signed for and for own updates.
    fn commit(&mut self, own: Batch) -> (msg: MessageSendEvent)
        ensures
            msg@ == old(self)@.update_msg(own@),
            final(self)@ == old(self)@.committed(own@),
    {
        let mut signed = own.copy();
        let msg = self.signature(own, self.funding_txo.txid);
        self.awaiting_raa = true;
        self.ours_signed.append(&mut signed);
        self.theirs_signed.append(&mut self.theirs_to_sign);
        msg
    }

    /// Lets held updates go out if the channel takes updates.
    fn release(&mut self, outcome: &mut Outcome)
        requires
            old(outcome).monitor_updates < usize::MAX,
        ensures
            (Step { channel: final(self)@, effects: final(outcome)@ }) == (Step {
                channel: old(self)@,
                effects: old(outcome)@,
            }).release(),
    {
        if self.can_send() && !self.holding_cell.is_empty() {
            let held = self.holding_cell.take();
            let msg = self.commit(held);
            outcome.say(msg);
            outcome.monitor_updates = outcome.monitor_updates + 1;
        }
    }

    /// See [`ChannelView::propose_teleport`].
    pub fn propose_teleport(&mut self, new_funding_txo: OutPoint) -> (outcome: Result<
        Outcome,
        ChannelError,
    >)
        requires
            old(self)@.wf(),
        ensures
            performs(
                old(self)@.propose_teleport(new_funding_txo),
                old(self)@,
                final(self)@,
                outcome,
            ),
            final(self)@.wf(),
    {
        if !self.is_connected() {
            return Err(ChannelError::PeerDisconnected);
        }
        if !self.can_teleport() {
            return Err(ChannelError::UnexpectedState);
        }
        let mut outcome = Outcome::none();
        outcome.say(
            MessageSendEvent::SendStfu {
                node_id: self.counterparty_node_id,
                msg: Stfu { channel_id: self.channel_id, initiator: true },
            },
        );
        self.enter(TeleportState::AwaitingStfu { new_funding_txo });
        Ok(outcome)
    }

    /// See [`ChannelView::on_stfu`].
    pub fn on_stfu(&mut self, msg: &Stfu) -> (outcome: Result<Outcome, ChannelError>)
        requires
            old(self)@.wf(),
        ensures
            performs(old(self)@.on_stfu(*msg), old(self)@, final(self)@, outcome),
            final(self)@.wf(),
    {
        if !self.is_connected() {
            return Err(ChannelError::PeerDisconnected);
        }
        let mut outcome = Outcome::none();
        if msg.initiator && self.can_teleport() {
            outcome.say(
                MessageSendEvent::SendStfu {
                    node_id: self.counterparty_node_id,
                    msg: Stfu { channel_id: self.channel_id, initiator: false },
                },
            );
            self.enter(TeleportState::Quiescent);
            return Ok(outcome);
        }
        match self.teleport {
            TeleportState::AwaitingStfu { new_funding_txo } => {
                if msg.initiator {
                    return Err(ChannelError::UnexpectedState);
                }
                outcome.say(
                    MessageSendEvent::SendTeleportInit {
                        node_id: self.counterparty_node_id,
                        msg: TeleportInit { channel_id: self.channel_id, new_funding_txo },
                    },
                );
                self.enter(TeleportState::InitSent { new_funding_txo });
                Ok(outcome)
            },
            _ => Err(ChannelError::UnexpectedState),
        }
    }

    /// See [`ChannelView::on_teleport_init`].
    pub fn on_teleport_init(&mut self, msg: &TeleportInit) -> (outcome: Result<
        Outcome,
        ChannelError,
    >)
        requires
            old(self)@.wf(),
        ensures
            performs(old(self)@.on_teleport_init(*msg), old(self)@, final(self)@, outcome),
            final(self)@.wf(),
    {
        if !self.is_connected() {
            return Err(ChannelError::PeerDisconnected);
        }
        match self.teleport {
            TeleportState::Quiescent => {
                let mut outcome = Outcome::none();
                outcome.events.push(
                    Event::ChannelTeleport {
                        channel_id: self.channel_id,
                        user_channel_id: self.user_channel_id,
                        counterparty_node_id: self.counterparty_node_id,
                        new_funding_txo: msg.new_funding_txo.into_bitcoin_outpoint(),
                    },
                );
                self.enter(TeleportState::InitReceived { new_funding_txo: msg.new_funding_txo });
                Ok(outcome)
            },
            _ => Err(ChannelError::UnexpectedState),
        }
    }

    /// See [`ChannelView::accept_teleport`].
    pub fn accept_teleport(&mut self) -> (outcome: Result<Outcome, ChannelError>)
        requires
            old(self)@.wf(),
        ensures
            performs(old(self)@.accept_teleport(), old(self)@, final(self)@, outcome),
            final(self)@.wf(),
    {
        if !self.is_connected() {
            return Err(ChannelError::PeerDisconnected);
        }
        match self.teleport {
            TeleportState::InitReceived { new_funding_txo } => {
                let mut outcome = Outcome::none();
                outcome.say(
                    MessageSendEvent::SendTeleportAck {
                        node_id: self.counterparty_node_id,
                        msg: TeleportAck { channel_id: self.channel_id },
                    },
                );
                let signature = self.signature(Batch::new(), new_funding_txo.txid);
                outcome.say(signature);
                self.enter(
                    TeleportState::Acked {
                        new_funding_txo,
                        initiator: false,
                        commitment_received: false,
                    },
                );
                Ok(outcome)
            },
            _ => Err(ChannelError::UnexpectedState),
        }
    }

    /// See [`ChannelView::on_teleport_ack`].
    pub fn on_teleport_ack(&mut self) -> (outcome: Result<Outcome, ChannelError>)
        requires
            old(self)@.wf(),
        ensures
            performs(old(self)@.on_teleport_ack(), old(self)@, final(self)@, outcome),
            final(self)@.wf(),
    {
        if !self.is_connected() {
            return Err(ChannelError::PeerDisconnected);
        }
        match self.teleport {
            TeleportState::InitSent { new_funding_txo } => {
                let mut outcome = Outcome::none();
                let signature = self.signature(Batch::new(), new_funding_txo.txid);
                outcome.say(signature);
                self.enter(
                    TeleportState::Acked {
                        new_funding_txo,
                        initiator: true,
                        commitment_received: false,
                    },
                );
                Ok(outcome)
            },
            _ => Err(ChannelError::UnexpectedState),
        }
    }

    /// See [`ChannelView::cancel_teleport`].
    pub fn cancel_teleport(&mut self) -> (outcome: Result<Outcome, ChannelError>)
        requires
            old(self)@.wf(),
        ensures
            performs(old(self)@.cancel_teleport(), old(self)@, final(self)@, outcome),
            final(self)@.wf(),
    {
        if !self.is_connected() {
            return Err(ChannelError::PeerDisconnected);
        }
        match self.teleport {
            TeleportState::InitReceived { .. } => {
                let mut outcome = Outcome::none();
                outcome.say(
                    MessageSendEvent::SendTeleportAbort {
                        node_id: self.counterparty_node_id,
                        msg: TeleportAbort { channel_id: self.channel_id },
                    },
                );
                self.enter(TeleportState::Idle);
                self.release(&mut outcome);
                Ok(outcome)
            },
            _ => Err(ChannelError::UnexpectedState),
        }
    }

    /// See [`ChannelView::on_teleport_abort`].
    pub fn on_teleport_abort(&mut self) -> (outcome: Result<Outcome, ChannelError>)
        requires
            old(self)@.wf(),
        ensures
            performs(old(self)@.on_teleport_abort(), old(self)@, final(self)@, outcome),
            final(self)@.wf(),
    {
        if !self.is_connected() {
            return Err(ChannelError::PeerDisconnected);
        }
        match self.teleport {
            TeleportState::InitSent { .. } => {
                let mut outcome = Outcome::none();
                self.enter(TeleportState::Idle);
                self.release(&mut outcome);
                Ok(outcome)
            },
            _ => Err(ChannelError::UnexpectedState),
        }
    }

    /// See [`ChannelView::complete_teleport`].
    pub fn complete_teleport(&mut self) -> (outcome: Result<Outcome, ChannelError>)
        requires
            old(self)@.wf(),
        ensures
            performs(old(self)@.complete_teleport(), old(self)@, final(self)@, outcome),
            final(self)@.wf(),
    {
        if !self.is_connected() {
            return Err(ChannelError::PeerDisconnected);
        }
        match self.teleport {
            TeleportState::Acked {
                new_funding_txo,
                initiator: true,
                commitment_received: true,
            } => {
                let mut outcome = Outcome::none();
                outcome.say(
                    MessageSendEvent::SendTeleportComplete {
                        node_id: self.counterparty_node_id,
                        msg: TeleportComplete { channel_id: self.channel_id },
                    },
                );
                self.enter(TeleportState::CompleteSent { new_funding_txo });
                Ok(outcome)
            },
            _ => Err(ChannelError::UnexpectedState),
        }
    }

    /// Switches to another funding output.
    fn promote(&mut self, txo: OutPoint)
        ensures
            final(self)@ == old(self)@.promoted(txo),
    {
        self.funding_txo = txo;
        self.monitor.promote(txo);
        self.enter(TeleportState::Idle);
    }

    /// See [`ChannelView::on_teleport_complete`].
    pub fn on_teleport_complete(&mut self) -> (outcome: Result<Outcome, ChannelError>)
        requires
            old(self)@.wf(),
        ensures
            performs(old(self)@.on_teleport_complete(), old(self)@, final(self)@, outcome),
            final(self)@.wf(),
    {
        if !self.is_connected() {
            return Err(ChannelError::PeerDisconnected);
        }
        match self.teleport {
            TeleportState::Acked {
                new_funding_txo,
                initiator: false,
                commitment_received: true,
            } => {
                let mut outcome = Outcome::none();
                outcome.say(
                    MessageSendEvent::SendTeleportCompleteAck {
                        node_id: self.counterparty_node_id,
                        msg: TeleportCompleteAck { channel_id: self.channel_id },
                    },
                );
                outcome.monitor_updates = 1;
                self.promote(new_funding_txo);
                self.release(&mut outcome);
                Ok(outcome)
            },
            _ => Err(ChannelError::UnexpectedState),
        }
    }

    /// See [`ChannelView::on_teleport_complete_ack`].
    pub fn on_teleport_complete_ack(&mut self) -> (outcome: Result<Outcome, ChannelError>)
        requires
            old(self)@.wf(),
        ensures
            performs(old(self)@.on_teleport_complete_ack(), old(self)@, final(self)@, outcome),
            final(self)@.wf(),
    {
        if !self.is_connected() {
            return Err(ChannelError::PeerDisconnected);
        }
        match self.teleport {
            TeleportState::CompleteSent { new_funding_txo } => {
                let mut outcome = Outcome::none();
                outcome.monitor_updates = 1;
                self.promote(new_funding_txo);
                self.release(&mut outcome);
                Ok(outcome)
            },
            _ => Err(ChannelError::UnexpectedState),
        }
    }

    fn on_teleport_commitment(&mut self, msg: &CommitmentSigned) -> (outcome: Result<
        Outcome,
        ChannelError,
    >)
        requires
            old(self)@.wf(),
        ensures
            performs(old(self)@.on_teleport_commitment(*msg), old(self)@, final(self)@, outcome),
            final(self)@.wf(),
    {
        match self.teleport {
            TeleportState::Acked {
                new_funding_txo,
                initiator,
                commitment_received: false,
            } => {
                if msg.funding_txid != new_funding_txo.txid {
                    return Err(ChannelError::UnexpectedState);
                }
                let mut outcome = Outcome::none();
                outcome.monitor_updates = 1;
                outcome.registered = Some(new_funding_txo);
                self.monitor.watch_pending(new_funding_txo);
                self.teleport = TeleportState::Acked {
                    new_funding_txo,
                    initiator,
                    commitment_received: true,
                };
                Ok(outcome)
            },
            _ => Err(ChannelError::UnexpectedState),
        }
    }

    fn on_update_commitment(&mut self, msg: &CommitmentSigned) -> (outcome: Result<
        Outcome,
        ChannelError,
    >)
        requires
            old(self)@.wf(),
            old(self)@.teleport is Idle,
        ensures
            performs(old(self)@.on_update_commitment(*msg), old(self)@, final(self)@, outcome),
            final(self)@.wf(),
    {
        if msg.funding_txid != self.funding_txo.txid {
            return Err(ChannelError::UnexpectedState);
        }
        if self.theirs_announced.is_empty() && self.ours_revoked.is_empty() {
            return Err(ChannelError::UnexpectedState);
        }
        let mut outcome = Outcome::none();
        outcome.monitor_updates = 1;
        outcome.say(
            MessageSendEvent::SendRevokeAndAck {
                node_id: self.counterparty_node_id,
                msg: RevokeAndAck { channel_id: self.channel_id },
            },
        );
        if self.next_commitment_number < u64::MAX {
            self.next_commitment_number = self.next_commitment_number + 1;
        }
        let mut ours = self.ours_revoked.take();
        self.outbound_htlcs.append(&mut ours.adds);
        self.theirs_to_sign.append(&mut self.theirs_announced);
        if !self.awaiting_raa && !self.theirs_to_sign.is_empty() {
            let update = self.commit(Batch::new());
            outcome.say(update);
        }
        Ok(outcome)
    }

    /// See [`ChannelView::on_commitment_signed`].
    pub fn on_commitment_signed(&mut self, msg: &CommitmentSigned) -> (outcome: Result<
        Outcome,
        ChannelError,
    >)
        requires
            old(self)@.wf(),
        ensures
            performs(old(self)@.on_commitment_signed(*msg), old(self)@, final(self)@, outcome),
            final(self)@.wf(),
    {
        if !self.is_connected() {
            return Err(ChannelError::PeerDisconnected);
        }
        if self.is_idle() {
            self.on_update_commitment(msg)
        } else {
            self.on_teleport_commitment(msg)
        }
    }

    /// See [`ChannelView::on_revoke_and_ack`].
    pub fn on_revoke_and_ack(&mut self) -> (outcome: Result<Outcome, ChannelError>)
        requires
            old(self)@.wf(),
        ensures
            performs(old(self)@.on_revoke_and_ack(), old(self)@, final(self)@, outcome),
            final(self)@.wf(),
    {
        if !self.is_connected() {
            return Err(ChannelError::PeerDisconnected);
        }
        if !self.awaiting_raa {
            return Err(ChannelError::UnexpectedState);
        }
        let mut outcome = Outcome::none();
        outcome.monitor_updates = 1;
        self.awaiting_raa = false;
        self.ours_revoked.append(&mut self.ours_signed);
        let mut theirs = self.theirs_signed.take();
        let received = theirs.copy();
        outcome.received = received.adds;
        self.inbound_htlcs.append(&mut theirs.adds);
        let held = self.holding_cell.take();
        if !held.is_empty() || !self.theirs_to_sign.is_empty() {
            let update = self.commit(held);
            outcome.say(update);
        }
        Ok(outcome)
    }

    /// See [`ChannelView::send_htlc`].
    pub fn send_htlc(
        &mut self,
        amount_msat: u64,
        payment_hash: PaymentHash,
        onion: RecipientOnionFields,
    ) -> (outcome: Result<Outcome, ChannelError>)
        requires
            old(self)@.wf(),
        ensures
            performs(
                old(self)@.send_htlc(amount_msat, payment_hash, onion),
                old(self)@,
                final(self)@,
                outcome,
            ),
            final(self)@.wf(),
    {
        if !self.is_connected() {
            return Err(ChannelError::PeerDisconnected);
        }
        if self.next_htlc_id == u64::MAX {
            return Err(ChannelError::HtlcIdsExhausted);
        }
        let add = UpdateAddHtlc {
            channel_id: self.channel_id,
            htlc_id: self.next_htlc_id,
            amount_msat,
            payment_hash,
            onion,
        };
        self.next_htlc_id = self.next_htlc_id + 1;
        let mut outcome = Outcome::none();
        if self.can_send() {
            let mut own = Batch::new();
            own.adds.push(add);
            let update = self.commit(own);
            outcome.say(update);
            outcome.monitor_updates = 1;
        } else {
            self.holding_cell.adds.push(add);
        }
        Ok(outcome)
    }

    /// See [`ChannelView::on_update_add_htlc`].
    pub fn on_update_add_htlc(&mut self, msg: &UpdateAddHtlc) -> (outcome: Result<
        Outcome,
        ChannelError,
    >)
        requires
            old(self)@.wf(),
        ensures
            performs(old(self)@.on_update_add_htlc(*msg), old(self)@, final(self)@, outcome),
            final(self)@.wf(),
    {
        if !self.is_connected() {
            return Err(ChannelError::PeerDisconnected);
        }
        if !self.is_idle() {
            return Err(ChannelError::UnexpectedState);
        }
        self.theirs_announced.adds.push(*msg);
        Ok(Outcome::none())
    }

    /// See [`ChannelView::claim_htlc`].
    pub fn claim_htlc(&mut self, htlc_id: u64, payment_preimage: PaymentPreimage) -> (outcome: Result<
        Outcome,
        ChannelError,
    >)
        requires
            old(self)@.wf(),
        ensures
            performs(
                old(self)@.claim_htlc(htlc_id, payment_preimage),
                old(self)@,
                final(self)@,
                outcome,
            ),
            final(self)@.wf(),
    {
        let i: usize = find_htlc(&self.inbound_htlcs, htlc_id);
        if i >= self.inbound_htlcs.len() {
            return Err(ChannelError::UnexpectedState);
        }
        let fulfill = UpdateFulfillHtlc { channel_id: self.channel_id, htlc_id, payment_preimage };
        self.inbound_htlcs.remove(i);
        let mut outcome = Outcome::none();
        outcome.monitor_updates = 1;
        if self.can_send() {
            let mut own = Batch::new();
            own.fulfills.push(fulfill);
            let update = self.commit(own);
            outcome.say(update);
        } else {
            self.holding_cell.fulfills.push(fulfill);
        }
        Ok(outcome)
    }

    /// See [`ChannelView::on_update_fulfill_htlc`].
    pub fn on_update_fulfill_htlc(&mut self, msg: &UpdateFulfillHtlc, digest: PaymentHash) -> (outcome:
        Result<Outcome, ChannelError>)
        requires
            old(self)@.wf(),
        ensures
            performs(
                old(self)@.on_update_fulfill_htlc(*msg, digest.0@),
                old(self)@,
                final(self)@,
                outcome,
            ),
            final(self)@.wf(),
    {
        if !self.is_connected() {
            return Err(ChannelError::PeerDisconnected);
        }
        let i: usize = find_htlc(&self.outbound_htlcs, msg.htlc_id);
        if !self.is_idle() || i >= self.outbound_htlcs.len() {
            return Err(ChannelError::UnexpectedState);
        }
        if !bytes_equal(&self.outbound_htlcs[i].payment_hash.0, &digest.0) {
            return Err(ChannelError::UnexpectedState);
        }
        let htlc = self.outbound_htlcs.remove(i);
        self.theirs_announced.fulfills.push(*msg);
        let mut outcome = Outcome::none();
        outcome.events.push(
            Event::PaymentSent {
                payment_hash: htlc.payment_hash,
                payment_preimage: msg.payment_preimage,
            },
        );
        Ok(outcome)
    }

    /// See [`ChannelView::on_peer_disconnected`].
    pub fn on_peer_disconnected(&mut self, ack_unsent: bool)
        requires
            old(self)@.wf(),
        ensures
            final(self)@ == old(self)@.on_peer_disconnected(ack_unsent),
            final(self)@.wf(),
    {
        let kept = match self.teleport {
            TeleportState::Acked { initiator, .. } => initiator || !ack_unsent,
            TeleportState::CompleteSent { .. } => true,
            _ => false,
        };
        self.connection = Connection::Disconnected;
        self.ticks = None;
        if !kept {
            self.teleport = TeleportState::Idle;
            self.monitor.drop_pending();
        }
    }

    /// See [`ChannelView::on_peer_connected`].
    pub fn on_peer_connected(&mut self) -> (outcome: Outcome)
        requires
            old(self)@.wf(),
        ensures
            (Step { channel: final(self)@, effects: outcome@ }) == old(self)@.on_peer_connected(),
            final(self)@.wf(),
    {
        let mut outcome = Outcome::none();
        match self.connection {
            Connection::Disconnected => {
                self.connection = Connection::Reestablishing;
                outcome.say(
                    MessageSendEvent::SendChannelReestablish {
                        node_id: self.counterparty_node_id,
                        msg: ChannelReestablish {
                            channel_id: self.channel_id,
                            next_local_commitment_number: self.next_commitment_number,
                        },
                    },
                );
            },
            _ => {},
        }
        outcome
    }

    /// See [`ChannelView::on_channel_reestablish`].
    pub fn on_channel_reestablish(&mut self, msg: &ChannelReestablish) -> (outcome: Result<
        Outcome,
        ChannelError,
    >)
        requires
            old(self)@.wf(),
        ensures
            performs(old(self)@.on_channel_reestablish(*msg), old(self)@, final(self)@, outcome),
            final(self)@.wf(),
    {
        match self.connection {
            Connection::Disconnected => Err(ChannelError::PeerDisconnected),
            Connection::Connected => Err(ChannelError::UnexpectedState),
            Connection::Reestablishing => {
                let mut outcome = Outcome::none();
                self.connection = Connection::Connected;
                self.ticks = None;
                if self.next_commitment_number == 1 && msg.next_local_commitment_number == 1 {
                    outcome.say(
                        MessageSendEvent::SendChannelReady {
                            node_id: self.counterparty_node_id,
                            msg: ChannelReady { channel_id: self.channel_id },
                        },
                    );
                    if self.announced {
                        outcome.say(
                            MessageSendEvent::SendAnnouncementSignatures {
                                node_id: self.counterparty_node_id,
                                msg: AnnouncementSignatures { channel_id: self.channel_id },
                            },
                        );
                    }
                }
                self.release(&mut outcome);
                Ok(outcome)
            },
        }
    }

    /// See [`ChannelView::on_timer_tick`].
    pub fn on_timer_tick(&mut self) -> (outcome: Outcome)
        requires
            old(self)@.wf(),
        ensures
            (Step { channel: final(self)@, effects: outcome@ }) == old(self)@.on_timer_tick(),
            final(self)@.wf(),
    {
        let awaits_response = match self.connection {
            Connection::Disconnected => false,
            Connection::Reestablishing => true,
            Connection::Connected => match self.teleport {
                TeleportState::Idle => false,
                TeleportState::Acked { .. } => false,
                TeleportState::CompleteSent { .. } => false,
                _ => true,
            },
        };
        let mut outcome = Outcome::none();
        if !awaits_response {
            self.ticks = None;
            return outcome;
        }
        let seen: usize = match self.ticks {
            Some(n) => n + 1,
            None => 1,
        };
        if seen < DISCONNECT_PEER_AWAITING_RESPONSE_TICKS {
            self.ticks = Some(seen);
        } else {
            self.ticks = Some(DISCONNECT_PEER_AWAITING_RESPONSE_TICKS);
            outcome.say(MessageSendEvent::DisconnectPeer { node_id: self.counterparty_node_id });
        }
        outcome
    }
}

} // verus!
