//! What a node has asked to be told about the chain.
use vstd::prelude::*;
use crate::types::{OutPoint, ScriptBuf, Txid};

verus! {

/// The transactions and outputs that are watched on the chain.
pub struct ChainSource {
    watched_txn: Vec<(Txid, ScriptBuf)>,
    watched_outputs: Vec<(OutPoint, ScriptBuf)>,
}

/// The contents of a [`ChainSource`].
#[verifier::ext_equal]
pub struct ChainSourceView {
    pub watched_txn: Set<(Txid, Seq<u8>)>,
    pub watched_outputs: Set<(OutPoint, Seq<u8>)>,
}

/// The pairs of a list, each script as its bytes.
pub open spec fn pairs<T>(list: Seq<(T, ScriptBuf)>) -> Set<(T, Seq<u8>)> {
    Set::new(
        |pair: (T, Seq<u8>)|
            exists|i: int|
                0 <= i < list.len() && (#[trigger] list[i]).0 == pair.0 && list[i].1@ == pair.1,
    )
}

/// A pair more in the list is a pair more in the set.
proof fn lemma_pairs_push<T>(list: Seq<(T, ScriptBuf)>, item: (T, ScriptBuf))
    ensures
        pairs(list.push(item)) == pairs(list).insert((item.0, item.1@)),
{
    let after = list.push(item);
    assert forall|pair: (T, Seq<u8>)| pairs(after).contains(pair) == pairs(list).insert(
        (item.0, item.1@),
    ).contains(pair) by {
        if pairs(list).contains(pair) {
            let i = choose|i: int|
                0 <= i < list.len() && (#[trigger] list[i]).0 == pair.0 && list[i].1@ == pair.1;
            assert(after[i] == list[i]);
        }
        if pair == (item.0, item.1@) {
            assert(after[list.len() as int] == item);
        }
        if pairs(after).contains(pair) {
            let i = choose|i: int|
                0 <= i < after.len() && (#[trigger] after[i]).0 == pair.0 && after[i].1@ == pair.1;
            if i < list.len() {
                assert(after[i] == list[i]);
            }
        }
    }
    assert(pairs(after) =~= pairs(list).insert((item.0, item.1@)));
}

impl ChainSourceView {
    /// Nothing is watched.
    pub open spec fn empty() -> ChainSourceView {
        ChainSourceView { watched_txn: Set::empty(), watched_outputs: Set::empty() }
    }

    /// An output is watched, and its transaction.
    pub open spec fn register(self, outpoint: OutPoint, script: Seq<u8>) -> ChainSourceView {
        ChainSourceView {
            watched_txn: self.watched_txn.insert((outpoint.txid, script)),
            watched_outputs: self.watched_outputs.insert((outpoint, script)),
        }
    }

    /// Neither an output nor its transaction is watched any more.
    pub open spec fn unregister(self, outpoint: OutPoint, script: Seq<u8>) -> ChainSourceView {
        ChainSourceView {
            watched_txn: self.watched_txn.remove((outpoint.txid, script)),
            watched_outputs: self.watched_outputs.remove((outpoint, script)),
        }
    }
}

impl View for ChainSource {
    type V = ChainSourceView;

    closed spec fn view(&self) -> ChainSourceView {
        ChainSourceView {
            watched_txn: pairs(self.watched_txn@),
            watched_outputs: pairs(self.watched_outputs@),
        }
    }
}

impl ChainSource {
    /// Nothing is watched.
    pub fn new() -> (source: Self)
        ensures
            source@ == ChainSourceView::empty(),
    {
        let source = ChainSource { watched_txn: Vec::new(), watched_outputs: Vec::new() };
        assert(source@ =~= ChainSourceView::empty());
        source
    }

    /// Watches an output, and its transaction.
    pub fn register(&mut self, outpoint: OutPoint, script_pubkey: &ScriptBuf)
        ensures
            final(self)@ == old(self)@.register(outpoint, script_pubkey@),
    {
        let txn: (Txid, ScriptBuf) = (outpoint.txid, script_pubkey.clone());
        let output: (OutPoint, ScriptBuf) = (outpoint, script_pubkey.clone());
        proof {
            lemma_pairs_push(self.watched_txn@, txn);
            lemma_pairs_push(self.watched_outputs@, output);
        }
        self.watched_txn.push(txn);
        self.watched_outputs.push(output);
    }

    /// Stops to watch an output, and its transaction.
    pub fn remove_watched_txn_and_outputs(&mut self, outpoint: OutPoint, script_pubkey: ScriptBuf)
        ensures
            final(self)@ == old(self)@.unregister(outpoint, script_pubkey@),
    {
        let ghost script = script_pubkey@;
        let mut txn: Vec<(Txid, ScriptBuf)> = Vec::new();
        let mut i: usize = 0;
        assert(pairs(txn@) =~= pairs(self.watched_txn@.take(0)).remove((outpoint.txid, script)));
        while i < self.watched_txn.len()
            invariant
                i <= self.watched_txn.len(),
                *self == *old(self),
                script == script_pubkey@,
                pairs(txn@) == pairs(self.watched_txn@.take(i as int)).remove(
                    (outpoint.txid, script),
                ),
            decreases self.watched_txn.len() - i,
        {
            let txid: Txid = self.watched_txn[i].0;
            let item: (Txid, ScriptBuf) = (txid, self.watched_txn[i].1.clone());
            proof {
                let seen = self.watched_txn@.take(i as int);
                let next = self.watched_txn@[i as int];
                lemma_pairs_push(seen, next);
                lemma_pairs_push(txn@, item);
                assert(self.watched_txn@.take(i + 1) =~= seen.push(next));
            }
            if !(txid == outpoint.txid && item.1.same_as(&script_pubkey)) {
                txn.push(item);
            }
            assert(pairs(txn@) =~= pairs(self.watched_txn@.take(i + 1)).remove(
                (outpoint.txid, script),
            ));
            i = i + 1;
        }
        assert(self.watched_txn@.take(i as int) =~= self.watched_txn@);

        let mut outputs: Vec<(OutPoint, ScriptBuf)> = Vec::new();
        let mut j: usize = 0;
        assert(pairs(outputs@) =~= pairs(self.watched_outputs@.take(0)).remove((outpoint, script)));
        while j < self.watched_outputs.len()
            invariant
                j <= self.watched_outputs.len(),
                *self == *old(self),
                script == script_pubkey@,
                pairs(outputs@) == pairs(self.watched_outputs@.take(j as int)).remove(
                    (outpoint, script),
                ),
            decreases self.watched_outputs.len() - j,
        {
            let txo: OutPoint = self.watched_outputs[j].0;
            let item: (OutPoint, ScriptBuf) = (txo, self.watched_outputs[j].1.clone());
            proof {
                let seen = self.watched_outputs@.take(j as int);
                let next = self.watched_outputs@[j as int];
                lemma_pairs_push(seen, next);
                lemma_pairs_push(outputs@, item);
                assert(self.watched_outputs@.take(j + 1) =~= seen.push(next));
            }
            if !(txo == outpoint && item.1.same_as(&script_pubkey)) {
                outputs.push(item);
            }
            assert(pairs(outputs@) =~= pairs(self.watched_outputs@.take(j + 1)).remove(
                (outpoint, script),
            ));
            j = j + 1;
        }
        assert(self.watched_outputs@.take(j as int) =~= self.watched_outputs@);

        self.watched_txn = txn;
        self.watched_outputs = outputs;
    }

    /// Whether an output with the given script is watched.
    pub fn watches_output(&self, outpoint: OutPoint, script_pubkey: &ScriptBuf) -> (r: bool)
        ensures
            r == self@.watched_outputs.contains((outpoint, script_pubkey@)),
    {
        let mut i: usize = 0;
        while i < self.watched_outputs.len()
            invariant
                i <= self.watched_outputs.len(),
                forall|k: int|
                    0 <= k < i ==> !((#[trigger] self.watched_outputs@[k]).0 == outpoint
                        && self.watched_outputs@[k].1@ == script_pubkey@),
            decreases self.watched_outputs.len() - i,
        {
            if self.watched_outputs[i].0 == outpoint && self.watched_outputs[i].1.same_as(
                script_pubkey,
            ) {
                assert(self.watched_outputs@[i as int].0 == outpoint);
                return true;
            }
            i = i + 1;
        }
        false
    }

    /// Whether a transaction with the given script is watched.
    pub fn watches_txn(&self, txid: Txid, script_pubkey: &ScriptBuf) -> (r: bool)
        ensures
            r == self@.watched_txn.contains((txid, script_pubkey@)),
    {
        let mut i: usize = 0;
        while i < self.watched_txn.len()
            invariant
                i <= self.watched_txn.len(),
                forall|k: int|
                    0 <= k < i ==> !((#[trigger] self.watched_txn@[k]).0 == txid
                        && self.watched_txn@[k].1@ == script_pubkey@),
            decreases self.watched_txn.len() - i,
        {
            if self.watched_txn[i].0 == txid && self.watched_txn[i].1.same_as(script_pubkey) {
                assert(self.watched_txn@[i as int].0 == txid);
                return true;
            }
            i = i + 1;
        }
        false
    }
}

} // verus!
