//! How a client chooses one peer among those it knows.

use vstd::prelude::*;

verus! {

/// `rand::Rng::gen_range` on `rand::thread_rng()`: a number drawn from
/// `0..len`. The contract claims that it lies in that range and no more; that
/// the draw is uniform is the word of `rand`. The call panics on an empty
/// range, which `requires` leaves out, and where the system gives the
/// generator of the thread nothing to start from.
#[verifier::external_body]
fn random_index(len: usize) -> (index: usize)
    requires
        len > 0,
    ensures
        index < len,
{
    rand::Rng::gen_range(&mut rand::thread_rng(), 0..len)
}

/// Whether `peer` is a sound answer to a selection among `peers`: nothing for
/// the empty list, and a member of the list otherwise.
pub open spec fn is_selection(peers: Seq<String>, peer: Option<&String>) -> bool {
    match peer {
        None => peers.len() == 0,
        Some(chosen) => exists|i: int| 0 <= i < peers.len() && peers[i] == *chosen,
    }
}

/// What [`select`] returns: nothing for the empty list, else the peer at
/// `draw` modulo the length of the list.
pub open spec fn spec_select(peers: Seq<String>, draw: int) -> Option<String> {
    if peers.len() == 0 {
        None
    } else {
        Some(peers[draw % (peers.len() as int)])
    }
}

/// The peer that a draw selects: the one at the place of the draw, counted
/// round the list.
pub fn select(peers: &[String], draw: usize) -> (peer: Option<&String>)
    ensures
        is_selection(peers@, peer),
        match peer {
            None => spec_select(peers@, draw as int) is None,
            Some(chosen) => spec_select(peers@, draw as int) == Some(*chosen),
        },
{
    let len = peers.len();
    if len == 0 {
        None
    } else {
        let index = draw % len;
        Some(&peers[index])
    }
}

/// A policy of selection.
pub trait LoadBalance {
    /// Selects one of `peers`, or nothing where there is none.
    fn get_peer<'a>(&self, peers: &'a [String]) -> (peer: Option<&'a String>)
        ensures
            is_selection(peers@, peer),
    ;
}

/// Whether `peer` is what some draw below the length of `peers` selects, or
/// nothing where there is no peer to draw.
pub open spec fn is_drawn(peers: Seq<String>, peer: Option<&String>) -> bool {
    match peer {
        None => peers.len() == 0,
        Some(chosen) => exists|draw: int|
            0 <= draw < peers.len() && #[trigger] spec_select(peers, draw) == Some(*chosen),
    }
}

/// Selects uniformly at random, anew at every call.
#[derive(Clone, Copy, Debug, Default, PartialEq, Eq)]
pub struct Random;

impl LoadBalance for Random {
    /// Draws a place in the list and selects the peer there, as [`select`]
    /// does for the draw.
    fn get_peer<'a>(&self, peers: &'a [String]) -> (peer: Option<&'a String>)
        ensures
            is_drawn(peers@, peer),
    {
        let len = peers.len();
        if len == 0 {
            select(peers, 0)
        } else {
            let draw = random_index(len);
            select(peers, draw)
        }
    }
}

/// The policies that a client can be built with.
#[derive(Clone, Copy, Debug, PartialEq, Eq)]
pub enum Loadbalancer {
    Random(Random),
}

impl Default for Loadbalancer {
    fn default() -> (balancer: Loadbalancer)
        ensures
            balancer == Loadbalancer::Random(Random),
    {
        Loadbalancer::Random(Random)
    }
}

impl LoadBalance for Loadbalancer {
    fn get_peer<'a>(&self, peers: &'a [String]) -> (peer: Option<&'a String>)
        ensures
            is_drawn(peers@, peer),
    {
        match self {
            Loadbalancer::Random(random) => random.get_peer(peers),
        }
    }
}

/// A selection is made among the peers of one moment: it finds nothing if
/// and only if there is no peer then, and what it finds is one of them.
pub proof fn lemma_selection_is_member(peers: Seq<String>, peer: Option<&String>)
    requires
        is_selection(peers, peer),
    ensures
        peers.len() == 0 <==> peer is None,
        peer is Some ==> peers.contains(*peer->Some_0),
{
}

/// Peers are replaced as a whole, so a reader finds the list of before or
/// the list of after. What it then selects is a member of one of the two,
/// and it selects nothing only where the list that it found is empty.
pub proof fn lemma_selection_across_replacement(
    before: Seq<String>,
    after: Seq<String>,
    found: Seq<String>,
    peer: Option<&String>,
)
    requires
        found == before || found == after,
        is_selection(found, peer),
    ensures
        match peer {
            Some(chosen) => before.contains(*chosen) || after.contains(*chosen),
            None => before.len() == 0 || after.len() == 0,
        },
{
}

} // verus!
