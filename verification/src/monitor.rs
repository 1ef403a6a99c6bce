//! The watcher of a channel's funding outputs.
use vstd::prelude::*;
use crate::types::{OutPoint, ScriptBuf, Txid};

verus! {

/// The outputs of one transaction that are to be watched: positions with scripts.
pub open spec fn output_list(outputs: Seq<(u32, ScriptBuf)>) -> Seq<(u32, Seq<u8>)> {
    outputs.map_values(|output: (u32, ScriptBuf)| (output.0, output.1@))
}

/// The outputs to be watched, transaction by transaction.
pub open spec fn watch_list(
    watched: Seq<(Txid, Vec<(u32, ScriptBuf)>)>,
) -> Seq<(Txid, Seq<(u32, Seq<u8>)>)> {
    watched.map_values(|entry: (Txid, Vec<(u32, ScriptBuf)>)| (entry.0, output_list(entry.1@)))
}

/// Whether one of the outputs stands at position `vout`.
pub open spec fn lists_vout(outputs: Seq<(u32, Seq<u8>)>, vout: u32) -> bool {
    exists|j: int| 0 <= j < outputs.len() && (#[trigger] outputs[j]).0 == vout
}

/// Whether an entry holds the given output.
pub open spec fn entry_holds(entry: (Txid, Seq<(u32, Seq<u8>)>), txo: OutPoint) -> bool {
    entry.0 == txo.txid && lists_vout(entry.1, txo.index as u32)
}

/// Whether the list holds the given output.
pub open spec fn list_watches(list: Seq<(Txid, Seq<(u32, Seq<u8>)>)>, txo: OutPoint) -> bool {
    exists|i: int| 0 <= i < list.len() && entry_holds(#[trigger] list[i], txo)
}

/// Whether `script` is the first that `outputs` lists for position `vout`.
pub open spec fn first_script(outputs: Seq<(u32, Seq<u8>)>, vout: u32, script: Seq<u8>) -> bool {
    exists|j: int|
        {
            &&& 0 <= j < outputs.len()
            &&& #[trigger] outputs[j] == (vout, script)
            &&& forall|k: int| 0 <= k < j ==> (#[trigger] outputs[k]).0 != vout
        }
}

/// Whether `script` is the one that the list's first entry with the given output gives it.
pub open spec fn list_gives_script(
    list: Seq<(Txid, Seq<(u32, Seq<u8>)>)>,
    txo: OutPoint,
    script: Seq<u8>,
) -> bool {
    exists|i: int|
        {
            &&& 0 <= i < list.len()
            &&& entry_holds(#[trigger] list[i], txo)
            &&& first_script(list[i].1, txo.index as u32, script)
            &&& forall|k: int| 0 <= k < i ==> !entry_holds(#[trigger] list[k], txo)
        }
}

/// Whether one of the outputs stands at position `vout`.
fn has_vout(outputs: &Vec<(u32, ScriptBuf)>, vout: u32) -> (r: bool)
    ensures
        r == lists_vout(output_list(outputs@), vout),
{
    let mut j: usize = 0;
    while j < outputs.len()
        invariant
            j <= outputs.len(),
            forall|k: int| 0 <= k < j ==> (#[trigger] output_list(outputs@)[k]).0 != vout,
        decreases outputs.len() - j,
    {
        if outputs[j].0 == vout {
            assert(output_list(outputs@)[j as int].0 == vout);
            return true;
        }
        j = j + 1;
    }
    false
}

/// Whether the given output is among those to be watched.
pub fn watches_output(watched: &Vec<(Txid, Vec<(u32, ScriptBuf)>)>, txo: OutPoint) -> (r: bool)
    ensures
        r == list_watches(watch_list(watched@), txo),
{
    let mut i: usize = 0;
    while i < watched.len()
        invariant
            i <= watched.len(),
            forall|k: int| 0 <= k < i ==> !entry_holds(#[trigger] watch_list(watched@)[k], txo),
        decreases watched.len() - i,
    {
        assert(watch_list(watched@)[i as int] == (
            watched@[i as int].0,
            output_list(watched@[i as int].1@),
        ));
        if watched[i].0 == txo.txid && has_vout(&watched[i].1, txo.index as u32) {
            return true;
        }
        i = i + 1;
    }
    false
}

/// The first script listed for position `vout`.
fn script_at(outputs: &Vec<(u32, ScriptBuf)>, vout: u32) -> (script: Option<ScriptBuf>)
    ensures
        script is Some == lists_vout(output_list(outputs@), vout),
        script matches Some(s) ==> first_script(output_list(outputs@), vout, s@),
{
    let mut j: usize = 0;
    while j < outputs.len()
        invariant
            j <= outputs.len(),
            forall|k: int| 0 <= k < j ==> (#[trigger] output_list(outputs@)[k]).0 != vout,
        decreases outputs.len() - j,
    {
        if outputs[j].0 == vout {
            assert(output_list(outputs@)[j as int] == (vout, outputs@[j as int].1@));
            return Some(outputs[j].1.clone());
        }
        j = j + 1;
    }
    None
}

/// The script of the given output, from the first entry that holds it.
pub fn watched_script(watched: &Vec<(Txid, Vec<(u32, ScriptBuf)>)>, txo: OutPoint) -> (script: Option<
    ScriptBuf,
>)
    ensures
        script is Some == list_watches(watch_list(watched@), txo),
        script matches Some(s) ==> list_gives_script(watch_list(watched@), txo, s@),
{
    let mut i: usize = 0;
    while i < watched.len()
        invariant
            i <= watched.len(),
            forall|k: int| 0 <= k < i ==> !entry_holds(#[trigger] watch_list(watched@)[k], txo),
        decreases watched.len() - i,
    {
        assert(watch_list(watched@)[i as int] == (
            watched@[i as int].0,
            output_list(watched@[i as int].1@),
        ));
        if watched[i].0 == txo.txid && has_vout(&watched[i].1, txo.index as u32) {
            return script_at(&watched[i].1, txo.index as u32);
        }
        i = i + 1;
    }
    None
}

/// Watches a channel's funding output and, while a teleport is under way, the output that
/// the channel is to move to. Both are locked by the same script.
pub struct ChannelMonitor {
    funding_txo: OutPoint,
    pending_funding_txo: Option<OutPoint>,
    funding_script: ScriptBuf,
}

/// The contents of a [`ChannelMonitor`].
pub struct MonitorView {
    pub funding_txo: OutPoint,
    pub pending_funding_txo: Option<OutPoint>,
    pub funding_script: Seq<u8>,
}

impl MonitorView {
    /// Whether the monitor watches the given output.
    pub open spec fn watches(self, txo: OutPoint) -> bool {
        txo == self.funding_txo || Some(txo) == self.pending_funding_txo
    }

    /// An output at its position, with the script that locks it.
    pub open spec fn watched_output(self, txo: OutPoint) -> (u32, Seq<u8>) {
        (txo.index as u32, self.funding_script)
    }

    /// The outputs to be watched: the funding output first, and outputs of one transaction
    /// together.
    pub open spec fn outputs_to_watch(self) -> Seq<(Txid, Seq<(u32, Seq<u8>)>)> {
        let current = (self.funding_txo.txid, seq![self.watched_output(self.funding_txo)]);
        match self.pending_funding_txo {
            None => seq![current],
            Some(pending) => if pending == self.funding_txo {
                seq![current]
            } else if pending.txid == self.funding_txo.txid {
                seq![(current.0, current.1.push(self.watched_output(pending)))]
            } else {
                seq![current, (pending.txid, seq![self.watched_output(pending)])]
            },
        }
    }
}

impl View for ChannelMonitor {
    type V = MonitorView;

    closed spec fn view(&self) -> MonitorView {
        MonitorView {
            funding_txo: self.funding_txo,
            pending_funding_txo: self.pending_funding_txo,
            funding_script: self.funding_script@,
        }
    }
}

impl ChannelMonitor {
    /// A monitor of one funding output.
    pub fn new(funding_txo: OutPoint, funding_script: ScriptBuf) -> (monitor: Self)
        ensures
            monitor@ == (MonitorView {
                funding_txo,
                pending_funding_txo: None,
                funding_script: funding_script@,
            }),
    {
        ChannelMonitor { funding_txo, pending_funding_txo: None, funding_script }
    }

    /// The output that the channel is funded by.
    pub fn get_funding_txo(&self) -> (txo: OutPoint)
        ensures
            txo == self@.funding_txo,
    {
        self.funding_txo
    }

    /// The script that locks the channel's funding outputs.
    pub fn funding_script(&self) -> (script: &ScriptBuf)
        ensures
            script@ == self@.funding_script,
    {
        &self.funding_script
    }

    /// The outputs to be watched, transaction by transaction.
    pub fn get_outputs_to_watch(&self) -> (watched: Vec<(Txid, Vec<(u32, ScriptBuf)>)>)
        ensures
            watch_list(watched@) == self@.outputs_to_watch(),
    {
        let mut outputs: Vec<(u32, ScriptBuf)> = Vec::new();
        outputs.push((self.funding_txo.index as u32, self.funding_script.clone()));
        assert(output_list(outputs@) =~= seq![self@.watched_output(self.funding_txo)]);
        let mut watched: Vec<(Txid, Vec<(u32, ScriptBuf)>)> = Vec::new();
        if let Some(pending) = self.pending_funding_txo {
            if pending != self.funding_txo {
                if pending.txid == self.funding_txo.txid {
                    outputs.push((pending.index as u32, self.funding_script.clone()));
                    assert(output_list(outputs@) =~= seq![
                        self@.watched_output(self.funding_txo),
                    ].push(self@.watched_output(pending)));
                    watched.push((self.funding_txo.txid, outputs));
                } else {
                    let mut more: Vec<(u32, ScriptBuf)> = Vec::new();
                    more.push((pending.index as u32, self.funding_script.clone()));
                    assert(output_list(more@) =~= seq![self@.watched_output(pending)]);
                    watched.push((self.funding_txo.txid, outputs));
                    watched.push((pending.txid, more));
                }
                assert(watch_list(watched@) =~= self@.outputs_to_watch());
                return watched;
            }
        }
        watched.push((self.funding_txo.txid, outputs));
        assert(watch_list(watched@) =~= self@.outputs_to_watch());
        watched
    }

    /// Starts to watch the output that the channel is to move to.
    pub fn watch_pending(&mut self, txo: OutPoint)
        ensures
            final(self)@ == (MonitorView { pending_funding_txo: Some(txo), ..old(self)@ }),
    {
        self.pending_funding_txo = Some(txo);
    }

    /// Forgets the output that the channel was to move to.
    pub fn drop_pending(&mut self)
        ensures
            final(self)@ == (MonitorView { pending_funding_txo: None, ..old(self)@ }),
    {
        self.pending_funding_txo = None;
    }

    /// Takes `txo` for the channel's funding output and watches nothing else any more.
    pub fn promote(&mut self, txo: OutPoint)
        ensures
            final(self)@ == (MonitorView {
                funding_txo: txo,
                pending_funding_txo: None,
                ..old(self)@
            }),
    {
        self.funding_txo = txo;
        self.pending_funding_txo = None;
    }
}

/// A monitor's list holds exactly the outputs that the monitor watches, each with the
/// channel's funding script.
pub proof fn law_monitor_list_is_what_it_watches(monitor: MonitorView, txo: OutPoint)
    ensures
        list_watches(monitor.outputs_to_watch(), txo) == monitor.watches(txo),
        forall|script: Seq<u8>|
            monitor.watches(txo) ==> (#[trigger] list_gives_script(
                monitor.outputs_to_watch(),
                txo,
                script,
            ) <==> script == monitor.funding_script),
{
    let list = monitor.outputs_to_watch();
    let vout = txo.index as u32;
    assert(list[0].1[0] == monitor.watched_output(monitor.funding_txo));
    if let Some(pending) = monitor.pending_funding_txo {
        if pending != monitor.funding_txo {
            if pending.txid == monitor.funding_txo.txid {
                assert(list[0].1[1] == monitor.watched_output(pending));
            } else {
                assert(list[1].1[0] == monitor.watched_output(pending));
            }
        }
    }
    if monitor.watches(txo) {
        let i: int = if entry_holds(list[0], txo) { 0 } else { 1 };
        assert(entry_holds(list[i], txo));
        let j: int = if list[i].1[0].0 == vout { 0 } else { 1 };
        assert(list[i].1[j] == (vout, monitor.funding_script));
        assert(first_script(list[i].1, vout, monitor.funding_script));
        assert(list_gives_script(list, txo, monitor.funding_script));
    }
}

} // verus!
