//! `GET /v1/nodes`: the current snapshot of the peer registry.

use vstd::prelude::*;

use crate::registry::PeerRegistry;
use crate::types::{copy_texts, texts};

verus! {

/// One live peer as the node listing reports it.
pub struct NodeSnapshot {
    pub peer_id: String,
    pub models: Vec<String>,
    pub max_concurrent_jobs: u32,
    pub multiaddrs: Vec<String>,
    pub last_seen_ms: u64,
}

/// List every registered peer, in the registry's order.
pub fn list_nodes(reg: &PeerRegistry) -> (r: Vec<NodeSnapshot>)
    requires
        reg.wf(),
    ensures
        r@.len() == reg.listing().len(),
        forall|i: int| 0 <= i < r@.len() ==> {
            let n = #[trigger] r@[i];
            let e = reg.listing()[i];
            &&& n.peer_id@ == e.0
            &&& texts(n.models@) == e.1.capabilities.models
            &&& n.max_concurrent_jobs == e.1.capabilities.max_concurrent_jobs
            &&& texts(n.multiaddrs@) == e.1.multiaddrs
            &&& n.last_seen_ms == e.1.last_seen_ms
        },
{
    let snapshot = reg.snapshot();
    let mut r: Vec<NodeSnapshot> = Vec::new();
    let mut i: usize = 0;
    while i < snapshot.len()
        invariant
            i <= snapshot@.len(),
            snapshot@.len() == reg.listing().len(),
            forall|k: int| 0 <= k < snapshot@.len() ==> (#[trigger] snapshot@[k]).0@ == reg.listing()[k].0
                && snapshot@[k].1.view() == reg.listing()[k].1,
            r@.len() == i,
            forall|k: int| 0 <= k < i ==> {
                let n = #[trigger] r@[k];
                let e = reg.listing()[k];
                &&& n.peer_id@ == e.0
                &&& texts(n.models@) == e.1.capabilities.models
                &&& n.max_concurrent_jobs == e.1.capabilities.max_concurrent_jobs
                &&& texts(n.multiaddrs@) == e.1.multiaddrs
                &&& n.last_seen_ms == e.1.last_seen_ms
            },
        decreases snapshot@.len() - i,
    {
        let entry = &snapshot[i].1;
        r.push(NodeSnapshot {
            peer_id: snapshot[i].0.clone(),
            models: copy_texts(&entry.capabilities.models),
            max_concurrent_jobs: entry.capabilities.max_concurrent_jobs,
            multiaddrs: copy_texts(&entry.multiaddrs),
            last_seen_ms: entry.last_seen_ms,
        });
        i = i + 1;
    }
    r
}

} // verus!
