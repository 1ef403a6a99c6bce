//! Identifiers, outpoints, scripts and errors.
use vstd::prelude::*;

verus! {

/// Whether two byte arrays hold the same bytes.
pub fn bytes_equal<const N: usize>(a: &[u8; N], b: &[u8; N]) -> (r: bool)
    ensures
        r == (*a == *b),
        r == (a@ == b@),
{
    let mut i: usize = 0;
    while i < N
        invariant
            i <= N,
            forall|j: int| 0 <= j < i ==> a[j] == b[j],
        decreases N - i,
    {
        if a[i] != b[i] {
            return false;
        }
        i = i + 1;
    }
    assert(*a =~= *b);
    true
}

/// A transaction id, in the byte order in which it is hashed.
#[derive(Clone, Copy, Debug, Eq)]
pub struct Txid(pub [u8; 32]);

impl PartialEq for Txid {
    fn eq(&self, other: &Self) -> (r: bool) {
        bytes_equal(&self.0, &other.0)
    }
}

impl vstd::std_specs::cmp::PartialEqSpecImpl for Txid {
    open spec fn obeys_eq_spec() -> bool {
        true
    }

    open spec fn eq_spec(&self, other: &Self) -> bool {
        *self == *other
    }
}

/// The identifier of a channel.
#[derive(Clone, Copy, Debug, Eq)]
pub struct ChannelId(pub [u8; 32]);

impl PartialEq for ChannelId {
    fn eq(&self, other: &Self) -> (r: bool) {
        bytes_equal(&self.0, &other.0)
    }
}

impl vstd::std_specs::cmp::PartialEqSpecImpl for ChannelId {
    open spec fn obeys_eq_spec() -> bool {
        true
    }

    open spec fn eq_spec(&self, other: &Self) -> bool {
        *self == *other
    }
}

/// The identifier of a node: its serialized public key.
#[derive(Clone, Copy, Debug, Eq)]
pub struct NodeId(pub [u8; 33]);

impl PartialEq for NodeId {
    fn eq(&self, other: &Self) -> (r: bool) {
        bytes_equal(&self.0, &other.0)
    }
}

impl vstd::std_specs::cmp::PartialEqSpecImpl for NodeId {
    open spec fn obeys_eq_spec() -> bool {
        true
    }

    open spec fn eq_spec(&self, other: &Self) -> bool {
        *self == *other
    }
}

/// The identifier by which a sender knows a payment.
#[derive(Clone, Copy, Debug, Eq)]
pub struct PaymentId(pub [u8; 32]);

impl PartialEq for PaymentId {
    fn eq(&self, other: &Self) -> (r: bool) {
        bytes_equal(&self.0, &other.0)
    }
}

impl vstd::std_specs::cmp::PartialEqSpecImpl for PaymentId {
    open spec fn obeys_eq_spec() -> bool {
        true
    }

    open spec fn eq_spec(&self, other: &Self) -> bool {
        *self == *other
    }
}

/// The hash that an HTLC is locked to.
#[derive(Clone, Copy, Debug, PartialEq, Eq)]
pub struct PaymentHash(pub [u8; 32]);

/// The preimage that unlocks an HTLC.
#[derive(Clone, Copy, Debug, PartialEq, Eq)]
pub struct PaymentPreimage(pub [u8; 32]);

/// The secret by which the recipient of a payment recognises its sender.
#[derive(Clone, Copy, Debug, PartialEq, Eq)]
pub struct PaymentSecret(pub [u8; 32]);

/// A funding output: a transaction and the position of one of its outputs.
#[derive(Clone, Copy, Debug, Eq)]
pub struct OutPoint {
    pub txid: Txid,
    pub index: u16,
}

impl PartialEq for OutPoint {
    fn eq(&self, other: &Self) -> (r: bool) {
        self.txid == other.txid && self.index == other.index
    }
}

impl vstd::std_specs::cmp::PartialEqSpecImpl for OutPoint {
    open spec fn obeys_eq_spec() -> bool {
        true
    }

    open spec fn eq_spec(&self, other: &Self) -> bool {
        *self == *other
    }
}

/// An output as transactions refer to it, with a 32-bit position.
#[derive(Clone, Copy, Debug, PartialEq, Eq)]
pub struct BitcoinOutPoint {
    pub txid: Txid,
    pub vout: u32,
}

impl OutPoint {
    /// The same output with its position widened to 32 bits.
    pub open spec fn bitcoin_outpoint(self) -> BitcoinOutPoint {
        BitcoinOutPoint { txid: self.txid, vout: self.index as u32 }
    }

    /// Converts to the form in which transactions refer to outputs.
    pub fn into_bitcoin_outpoint(self) -> (outpoint: BitcoinOutPoint)
        ensures
            outpoint == self.bitcoin_outpoint(),
    {
        BitcoinOutPoint { txid: self.txid, vout: self.index as u32 }
    }
}

/// An output script, as its serialized bytes.
#[derive(Debug, PartialEq, Eq)]
pub struct ScriptBuf {
    bytes: Vec<u8>,
}

impl View for ScriptBuf {
    type V = Seq<u8>;

    closed spec fn view(&self) -> Seq<u8> {
        self.bytes@
    }
}

impl Clone for ScriptBuf {
    fn clone(&self) -> (copy: Self)
        ensures
            copy@ == self@,
    {
        let bytes: Vec<u8> = self.bytes.clone();
        assert(bytes@ =~= self.bytes@);
        ScriptBuf { bytes }
    }
}

impl ScriptBuf {
    /// The script with the given serialization.
    pub fn from_bytes(bytes: Vec<u8>) -> (script: Self)
        ensures
            script@ == bytes@,
    {
        ScriptBuf { bytes }
    }

    /// The script's serialization.
    pub fn as_bytes(&self) -> (bytes: &Vec<u8>)
        ensures
            bytes@ == self@,
    {
        &self.bytes
    }

    /// Whether the two scripts have the same serialization.
    pub fn same_as(&self, other: &ScriptBuf) -> (r: bool)
        ensures
            r == (self@ == other@),
    {
        if self.bytes.len() != other.bytes.len() {
            return false;
        }
        let mut i: usize = 0;
        while i < self.bytes.len()
            invariant
                i <= self.bytes.len(),
                self.bytes.len() == other.bytes.len(),
                forall|j: int| 0 <= j < i ==> self.bytes[j] == other.bytes[j],
            decreases self.bytes.len() - i,
        {
            if self.bytes[i] != other.bytes[i] {
                assert(self.bytes@[i as int] != other.bytes@[i as int]);
                return false;
            }
            i = i + 1;
        }
        assert(self.bytes@ =~= other.bytes@);
        true
    }
}

/// Why a request or a message was refused. A refusal changes nothing.
#[derive(Clone, Copy, Debug, PartialEq, Eq)]
pub enum ChannelError {
    /// The node has no such channel with that peer.
    ChannelUnavailable,
    /// The channel's peer is not connected, or the channel is not reestablished yet.
    PeerDisconnected,
    /// The channel's state does not admit the request or the message.
    UnexpectedState,
    /// The channel has given out every HTLC identifier.
    HtlcIdsExhausted,
}

} // verus!
