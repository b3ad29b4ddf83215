//! Control-plane messages: placement auctions and addressed commands, with
//! the client-side rules for aggregating auction replies and correlating
//! acknowledgements.

use vstd::prelude::*;
use vstd::string::*;

use crate::errors::LatticeError;

verus! {

/// A request sent out to all listening hosts on the bus to launch a given
/// capability provider with the set of constraints. Constraints are labeled
/// exact-match pairs with unique keys; an empty list means no filtering.
#[derive(Debug, Clone, PartialEq, Eq)]
pub struct ProviderAuctionRequest {
    pub provider_ref: String,
    pub binding_name: String,
    pub constraints: Vec<(String, String)>,
}

impl ProviderAuctionRequest {
    /// Creates a new auction request for the provider stored at the given
    /// registry reference with the given constraints.
    pub fn new(
        provider_ref: &str,
        binding_name: &str,
        constraints: Vec<(String, String)>,
    ) -> (r: ProviderAuctionRequest)
        ensures
            r.provider_ref@ == provider_ref@,
            r.binding_name@ == binding_name@,
            r.constraints == constraints,
    {
        ProviderAuctionRequest {
            provider_ref: String::from_str(provider_ref),
            binding_name: String::from_str(binding_name),
            constraints,
        }
    }
}

/// The response submitted by a host that confirms that it has sufficient
/// resources and meets the constraints specified in the request to launch the
/// indicated provider. Only ever a positive assertion: a host that cannot
/// satisfy the request stays silent.
#[derive(Debug, Clone, PartialEq, Eq)]
pub struct ProviderAuctionResponse {
    pub host_id: String,
    pub provider_ref: String,
}

/// A request sent out to all listening hosts on the bus to launch a given
/// actor with a set of given constraints.
#[derive(Debug, Clone, PartialEq, Eq)]
pub struct LaunchAuctionRequest {
    pub actor_id: String,
    pub revision: u32,
    pub constraints: Vec<(String, String)>,
}

impl LaunchAuctionRequest {
    /// Creates a new auction request for the given actor revision with the
    /// given constraints.
    pub fn new(actor: &str, revision: u32, constraints: Vec<(String, String)>) -> (r:
        LaunchAuctionRequest)
        ensures
            r.actor_id@ == actor@,
            r.revision == revision,
            r.constraints == constraints,
    {
        LaunchAuctionRequest { actor_id: String::from_str(actor), revision, constraints }
    }
}

/// The response submitted by a host that confirms that it has sufficient
/// resources and meets the constraints specified in the request.
#[derive(Debug, Clone, PartialEq, Eq)]
pub struct LaunchAuctionResponse {
    pub host_id: String,
}

/// A command sent to a specific host instructing it to load and start a given
/// actor.
#[derive(Debug, Clone, PartialEq, Eq)]
pub struct LaunchCommand {
    pub actor_id: String,
    pub revision: u32,
}

/// A command sent to a specific host to shut down a given actor.
#[derive(Debug, Clone, PartialEq, Eq)]
pub struct TerminateCommand {
    pub actor_id: String,
}

/// A command sent to a specific host instructing it to load and start a given
/// provider.
#[derive(Debug, Clone, PartialEq, Eq)]
pub struct LaunchProviderCommand {
    pub provider_ref: String,
    pub binding_name: String,
}

/// A command sent to a specific host to terminate a given provider.
#[derive(Debug, Clone, PartialEq, Eq)]
pub struct TerminateProviderCommand {
    pub provider_ref: String,
}

/// Acknowledgement of a launch command: the addressed host echoes the actor
/// it was asked to launch.
#[derive(Debug, Clone, PartialEq, Eq)]
pub struct LaunchAck {
    pub actor_id: String,
    pub host: String,
}

/// Acknowledgement of a provider launch command.
#[derive(Debug, Clone, PartialEq, Eq)]
pub struct ProviderLaunchAck {
    pub provider_ref: String,
    pub host: String,
}


/// A launch acknowledgement correlates to its command when it echoes the
/// same actor and was answered by the host that was addressed, never by a
/// third party.
pub open spec fn ack_correlates(actor_id: Seq<char>, host_id: Seq<char>, ack: LaunchAck) -> bool {
    ack.actor_id@ == actor_id && ack.host@ == host_id
}

/// Decides the outcome of an addressed launch command from what the window
/// produced: no reply within the window is a timeout; a reply whose target or
/// host differs from the request is an acknowledgement mismatch and is never
/// retried; a correlated reply is the acknowledgement itself.
pub fn launch_outcome(actor_id: &str, host_id: &str, reply: Option<LaunchAck>) -> (r: Result<
    LaunchAck,
    LatticeError,
>)
    ensures
        match reply {
            None => r == Err::<LaunchAck, LatticeError>(LatticeError::Timeout),
            Some(ack) => if ack_correlates(actor_id@, host_id@, ack) {
                r == Ok::<LaunchAck, LatticeError>(ack)
            } else {
                r == Err::<LaunchAck, LatticeError>(LatticeError::AckMismatch(ack))
            },
        },
{
    match reply {
        None => Err(LatticeError::Timeout),
        Some(ack) => {
            let target = String::from_str(actor_id);
            let host = String::from_str(host_id);
            if ack.actor_id == target && ack.host == host {
                Ok(ack)
            } else {
                Err(LatticeError::AckMismatch(ack))
            }
        },
    }
}

/// Client-side state of one fan-out collection window: the replies that
/// arrived before the deadline, in arrival order. For an auction these are
/// only ever positive assertions - a host that cannot satisfy the request
/// stays silent - and the collector neither ranks nor filters them: winner
/// selection is the caller's responsibility.
pub struct AuctionCollector<R> {
    /// The replies collected so far, in arrival order.
    pub responses: Vec<R>,
    /// Whether the deadline has passed; a closed window takes no more
    /// replies.
    pub closed: bool,
}

impl<R> AuctionCollector<R> {
    /// Opens a collection window with no replies.
    pub fn new() -> (r: Self)
        ensures
            r.responses@ == Seq::<R>::empty(),
            !r.closed,
    {
        AuctionCollector { responses: Vec::new(), closed: false }
    }

    /// Records one reply that arrived inside the window.
    pub fn on_reply(&mut self, resp: R)
        requires
            !old(self).closed,
        ensures
            final(self).responses@ == old(self).responses@.push(resp),
            !final(self).closed,
    {
        self.responses.push(resp);
    }

    /// Closes the window when the deadline elapses; what accumulated is the
    /// result, and a host that never replied is simply absent.
    pub fn on_deadline(&mut self)
        ensures
            final(self).responses == old(self).responses,
            final(self).closed,
    {
        self.closed = true;
    }

    /// Hands the collected replies to the caller, in arrival order.
    pub fn into_responses(self) -> (r: Vec<R>)
        ensures
            r == self.responses,
    {
        self.responses
    }
}

/// How many collected replies name the given host.
pub open spec fn host_count(rs: Seq<LaunchAuctionResponse>, h: Seq<char>) -> nat
    decreases rs.len(),
{
    if rs.len() == 0 {
        0
    } else {
        (if rs[0].host_id@ == h {
            1nat
        } else {
            0nat
        }) + host_count(rs.drop_first(), h)
    }
}

/// No two collected replies name the same host.
pub open spec fn distinct_hosts(rs: Seq<LaunchAuctionResponse>) -> bool {
    forall|i: int, j: int|
        0 <= i < j < rs.len() ==> rs[i].host_id@ != rs[j].host_id@
}

/// Auction aggregation: when each replying host replies at most once, the
/// collected result holds exactly one entry for every host that replied
/// within the window and none for a host that stayed silent.
pub proof fn lemma_auction_aggregation(replies: Seq<LaunchAuctionResponse>, h: Seq<char>)
    requires
        distinct_hosts(replies),
    ensures
        host_count(replies, h) == if exists|i: int|
            0 <= i < replies.len() && #[trigger] replies[i].host_id@ == h {
            1nat
        } else {
            0nat
        },
    decreases replies.len(),
{
    if replies.len() == 0 {
    } else {
        let rest = replies.drop_first();
        assert forall|i: int, j: int| 0 <= i < j < rest.len() implies rest[i].host_id@
            != rest[j].host_id@ by {
            assert(rest[i] == replies[i + 1]);
            assert(rest[j] == replies[j + 1]);
        }
        lemma_auction_aggregation(rest, h);
        if replies[0].host_id@ == h {
            assert(!(exists|i: int| 0 <= i < rest.len() && #[trigger] rest[i].host_id@ == h)) by {
                if exists|i: int| 0 <= i < rest.len() && #[trigger] rest[i].host_id@ == h {
                    let i = choose|i: int| 0 <= i < rest.len() && #[trigger] rest[i].host_id@ == h;
                    assert(rest[i] == replies[i + 1]);
                    assert(replies[0].host_id@ != replies[i + 1].host_id@);
                }
            }
            assert(host_count(rest, h) == 0);
            assert(exists|i: int| 0 <= i < replies.len() && #[trigger] replies[i].host_id@ == h);
        } else {
            if exists|i: int| 0 <= i < rest.len() && #[trigger] rest[i].host_id@ == h {
                let i = choose|i: int| 0 <= i < rest.len() && #[trigger] rest[i].host_id@ == h;
                assert(replies[i + 1].host_id@ == h);
                assert(exists|k: int| 0 <= k < replies.len() && #[trigger] replies[k].host_id@
                    == h);
            }
            if exists|i: int| 0 <= i < replies.len() && #[trigger] replies[i].host_id@ == h {
                let i = choose|i: int| 0 <= i < replies.len() && #[trigger] replies[i].host_id@
                    == h;
                assert(i != 0);
                assert(rest[i - 1] == replies[i]);
                assert(exists|k: int| 0 <= k < rest.len() && #[trigger] rest[k].host_id@ == h);
            }
        }
    }
}

} // verus!
