//! The local workers a peer has discovered over mDNS.

use vstd::prelude::*;

verus! {

/// A local worker discovered over mDNS.
#[derive(Clone, Debug)]
pub struct LocalWorkerPeer {}

/// The local workers discovered over mDNS, by instance name.
#[derive(Debug)]
pub struct LocalPeerWorkerManager {
    map: Vec<(String, LocalWorkerPeer)>,
}

impl View for LocalPeerWorkerManager {
    type V = Seq<Seq<char>>;

    /// The instance names of the known local workers.
    closed spec fn view(&self) -> Seq<Seq<char>> {
        self.map@.map_values(|e: (String, LocalWorkerPeer)| e.0@)
    }
}

impl LocalPeerWorkerManager {
    /// No local worker known yet.
    pub fn new() -> (m: LocalPeerWorkerManager)
        ensures
            m@.len() == 0,
    {
        LocalPeerWorkerManager { map: Vec::new() }
    }
}

} // verus!
