//! The swarm event reactor: a pure reaction table.
//!
//! The orchestrator's loop hands every observed transport or protocol event
//! here, one at a time. The reactor owns the node's mutable policy state —
//! the persisted record and the DHT mode — decides synchronously, and
//! returns what the surrounding application must carry out: switch the DHT
//! mode, persist the state, follow a peer, extend the routing table. The
//! one computational path is an inbound topic message: decode the envelope,
//! verify the operator signature, decode the command, dispatch it through
//! the registry; any defect drops the message with a warning.

use vstd::prelude::*;

use crate::codec::{command_decoding, decode_command, payload_decoding};
use crate::commands::{CommandHandler, ExecOutcome};
use crate::crypto::{signature_ok, DILITHIUM_PUBLIC_KEY_LEN};
use crate::payload::Payload;
use crate::text::lower_of;

verus! {

/// Whether this node answers and stores DHT records (server) or only
/// queries (client). Confirmed public reachability turns a node into a
/// server; losing it turns the node back into a client.
#[derive(Clone, Copy, PartialEq, Eq, Structural, Debug)]
pub enum DhtMode {
    Client,
    Server,
}

/// One observed swarm event, reduced to the plain values the reaction
/// table reads. Addresses and peer identifiers travel in their canonical
/// text form; an inbound topic message travels as its raw bytes.
pub enum NodeEvent {
    /// A local listen address was bound.
    NewListenAddr { address: String },
    /// An address of this node was confirmed reachable from outside.
    ExternalAddrConfirmed,
    /// A previously confirmed external address expired.
    ExternalAddrExpired,
    /// A peer was observed under a new external address; `address` is the
    /// peer's full address with its identifier suffixed.
    NewExternalAddrOfPeer { address: String },
    /// An outbound dial failed at the transport level on these addresses.
    OutgoingConnectionError { failed_addresses: Vec<String> },
    /// A peer advertised its identity: its identifier and listen addresses.
    PeerInfoReceived { peer_id: String, addresses: Vec<String> },
    /// A message arrived on the swarm's topic.
    Message { data: Vec<u8> },
    /// Port mapping obtained an external address.
    PortMappingNewExternalAddr { address: String },
    /// No port-mapping capable gateway was found; reachability probing
    /// remains the fallback.
    PortMappingGatewayNotFound,
    /// The gateway found is not routable; likewise non-fatal.
    PortMappingNonRoutableGateway,
    /// Anything else is ignored.
    Other,
}

/// How an inbound topic message fared.
pub enum DispatchOutcome {
    /// The bytes do not decode as a payload envelope; dropped.
    NotAPayload,
    /// The signature does not verify under the operator public key;
    /// dropped.
    BadSignature,
    /// The verified body does not decode as a command word list; dropped.
    NotACommand,
    /// The command went to the registry with this result.
    Dispatched(ExecOutcome),
}

/// What the application must carry out after one event.
pub struct Reaction {
    /// Switch the DHT between client and server mode.
    pub set_dht_mode: Option<DhtMode>,
    /// Persist the (changed) node state.
    pub persist: bool,
    /// Mark this peer as an always-connected explicit topic peer.
    pub peer_to_follow: Option<String>,
    /// Add these addresses of that peer to the DHT routing table.
    pub routing_addresses: Vec<String>,
    /// The fate of an inbound topic message.
    pub dispatch: Option<DispatchOutcome>,
}

impl Reaction {
    /// A reaction that asks for nothing.
    fn nothing() -> (r: Reaction)
        ensures
            r.set_dht_mode is None,
            !r.persist,
            r.peer_to_follow is None,
            r.routing_addresses@.len() == 0,
            r.dispatch is None,
    {
        Reaction {
            set_dht_mode: None,
            persist: false,
            peer_to_follow: None,
            routing_addresses: Vec::new(),
            dispatch: None,
        }
    }
}

/// The address book after observing a peer under `addr`: appended, unless
/// already known.
pub open spec fn book_with(book: Seq<Seq<char>>, addr: Seq<char>) -> Seq<Seq<char>> {
    if book.contains(addr) {
        book
    } else {
        book.push(addr)
    }
}

/// The address book after a failed dial: every entry among the failed
/// addresses is pruned.
pub open spec fn book_without(book: Seq<Seq<char>>, failed: Seq<Seq<char>>) -> Seq<Seq<char>> {
    book.filter(|a: Seq<char>| !failed.contains(a))
}

/// What the registry's dispatch must report for the word list `words`: the
/// no-call outcomes exactly when nothing is registered to run, the
/// missing-argument failure exactly when a registered name arrives with no
/// further words, and otherwise the handler's own completion or failure.
pub open spec fn exec_outcome_ok(
    handler: CommandHandler,
    words: Seq<Seq<char>>,
    o: ExecOutcome,
) -> bool {
    &&& (o is Empty <==> words.len() == 0)
    &&& (words.len() > 0 ==> ((o is Unregistered) <==> !handler.registered(lower_of(words[0]))))
    &&& (words.len() > 0 && handler.registered(lower_of(words[0])) ==> ((o matches
    ExecOutcome::Failed(e) && e is MissingScript) <==> words.len() == 1))
    &&& (words.len() >= 2 && handler.registered(lower_of(words[0])) ==> (o is Completed || (
    o matches ExecOutcome::Failed(e) && e is ScriptFailed)))
}

/// What handling an inbound topic message must report: the exact
/// decode-verify-decode-dispatch chain of the reaction table.
pub open spec fn dispatch_ok(
    data: Seq<u8>,
    public_key: Seq<u8>,
    handler: CommandHandler,
    d: DispatchOutcome,
) -> bool {
    match payload_decoding(data) {
        None => d is NotAPayload,
        Some(envelope) => if !signature_ok(public_key, envelope.1, envelope.0) {
            d is BadSignature
        } else {
            match command_decoding(envelope.1) {
                None => d is NotACommand,
                Some(words) => d matches DispatchOutcome::Dispatched(o) && exec_outcome_ok(
                    handler,
                    words,
                    o,
                ),
            }
        },
    }
}

/// The reactor's own state: the persisted record and the DHT mode it
/// steers.
pub struct Reactor {
    pub vault: crate::vault::Vault,
    pub dht_mode: DhtMode,
}

/// A reaction that changes no state and asks for nothing.
pub open spec fn quiet(pre: Reactor, post: Reactor, r: Reaction) -> bool {
    &&& post == pre
    &&& r.set_dht_mode is None
    &&& !r.persist
    &&& r.peer_to_follow is None
    &&& r.routing_addresses@.len() == 0
    &&& r.dispatch is None
}

/// The whole reaction table: for each event, how the state after the event
/// and the requested actions relate to the state before it.
pub open spec fn reaction_ok(
    pre: Reactor,
    public_key: Seq<u8>,
    handler: CommandHandler,
    event: NodeEvent,
    post: Reactor,
    r: Reaction,
) -> bool {
    match event {
        NodeEvent::ExternalAddrConfirmed => {
            &&& post.vault == pre.vault
            &&& post.dht_mode == DhtMode::Server
            &&& r.set_dht_mode == Some(DhtMode::Server)
            &&& !r.persist
            &&& r.peer_to_follow is None
            &&& r.routing_addresses@.len() == 0
            &&& r.dispatch is None
        },
        NodeEvent::ExternalAddrExpired => {
            &&& post.vault == pre.vault
            &&& post.dht_mode == DhtMode::Client
            &&& r.set_dht_mode == Some(DhtMode::Client)
            &&& !r.persist
            &&& r.peer_to_follow is None
            &&& r.routing_addresses@.len() == 0
            &&& r.dispatch is None
        },
        NodeEvent::NewExternalAddrOfPeer { address } => {
            &&& post.dht_mode == pre.dht_mode
            &&& post.vault.keypair == pre.vault.keypair
            &&& post.vault.listen_port == pre.vault.listen_port
            &&& post.vault.known_peers.deep_view() == book_with(
                pre.vault.known_peers.deep_view(),
                address@,
            )
            &&& (r.persist <==> !pre.vault.known_peers.deep_view().contains(address@))
            &&& r.set_dht_mode is None
            &&& r.peer_to_follow is None
            &&& r.routing_addresses@.len() == 0
            &&& r.dispatch is None
        },
        NodeEvent::OutgoingConnectionError { failed_addresses } => {
            &&& post.dht_mode == pre.dht_mode
            &&& post.vault.keypair == pre.vault.keypair
            &&& post.vault.listen_port == pre.vault.listen_port
            &&& post.vault.known_peers.deep_view() == book_without(
                pre.vault.known_peers.deep_view(),
                failed_addresses.deep_view(),
            )
            &&& r.persist
            &&& r.set_dht_mode is None
            &&& r.peer_to_follow is None
            &&& r.routing_addresses@.len() == 0
            &&& r.dispatch is None
        },
        NodeEvent::PeerInfoReceived { peer_id, addresses } => {
            &&& post == pre
            &&& r.peer_to_follow == Some(peer_id)
            &&& r.routing_addresses == addresses
            &&& !r.persist
            &&& r.set_dht_mode is None
            &&& r.dispatch is None
        },
        NodeEvent::Message { data } => {
            &&& post == pre
            &&& (r.dispatch matches Some(d) && dispatch_ok(data@, public_key, handler, d))
            &&& !r.persist
            &&& r.set_dht_mode is None
            &&& r.peer_to_follow is None
            &&& r.routing_addresses@.len() == 0
        },
        _ => quiet(pre, post, r),
    }
}

impl Reactor {
    /// A reactor over a loaded (or fresh) state; the DHT starts in
    /// query-only client mode until reachability is confirmed.
    pub fn new(vault: crate::vault::Vault) -> (r: Reactor)
        ensures
            r.vault == vault,
            r.dht_mode == DhtMode::Client,
    {
        Reactor { vault, dht_mode: DhtMode::Client }
    }

    /// React to one swarm event, as the reaction table states.
    pub fn handle_event(
        &mut self,
        command_handler: &CommandHandler,
        operator_public_key: &Vec<u8>,
        event: NodeEvent,
    ) -> (r: Reaction)
        requires
            operator_public_key@.len() == DILITHIUM_PUBLIC_KEY_LEN,
        ensures
            reaction_ok(
                *old(self),
                operator_public_key@,
                *command_handler,
                event,
                *final(self),
                r,
            ),
    {
        match event {
            NodeEvent::ExternalAddrConfirmed => {
                self.dht_mode = DhtMode::Server;
                let mut r = Reaction::nothing();
                r.set_dht_mode = Some(DhtMode::Server);
                r
            },
            NodeEvent::ExternalAddrExpired => {
                self.dht_mode = DhtMode::Client;
                let mut r = Reaction::nothing();
                r.set_dht_mode = Some(DhtMode::Client);
                r
            },
            NodeEvent::NewExternalAddrOfPeer { address } => {
                let known = contains_string(&self.vault.known_peers, &address);
                let mut r = Reaction::nothing();
                if !known {
                    let ghost before = self.vault.known_peers.deep_view();
                    self.vault.known_peers.push(address);
                    proof {
                        assert(self.vault.known_peers.deep_view() =~= before.push(address@));
                    }
                    r.persist = true;
                }
                r
            },
            NodeEvent::OutgoingConnectionError { failed_addresses } => {
                let kept = prune_addresses(&self.vault.known_peers, &failed_addresses);
                self.vault.known_peers = kept;
                let mut r = Reaction::nothing();
                r.persist = true;
                r
            },
            NodeEvent::PeerInfoReceived { peer_id, addresses } => {
                let mut r = Reaction::nothing();
                r.peer_to_follow = Some(peer_id);
                r.routing_addresses = addresses;
                r
            },
            NodeEvent::Message { data } => {
                let outcome = handle_message(command_handler, operator_public_key, &data);
                let mut r = Reaction::nothing();
                r.dispatch = Some(outcome);
                r
            },
            _ => Reaction::nothing(),
        }
    }
}

/// Decode, verify and dispatch one inbound topic message.
fn handle_message(
    command_handler: &CommandHandler,
    operator_public_key: &Vec<u8>,
    data: &Vec<u8>,
) -> (r: DispatchOutcome)
    requires
        operator_public_key@.len() == DILITHIUM_PUBLIC_KEY_LEN,
    ensures
        dispatch_ok(data@, operator_public_key@, *command_handler, r),
{
    let payload = match Payload::from_slice(data) {
        None => {
            return DispatchOutcome::NotAPayload;
        },
        Some(p) => p,
    };
    if !payload.verify(operator_public_key) {
        return DispatchOutcome::BadSignature;
    }
    match decode_command(&payload.body) {
        None => DispatchOutcome::NotACommand,
        Some(words) => DispatchOutcome::Dispatched(command_handler.execute_command(&words)),
    }
}

/// Whether `list` holds a string with exactly the characters of `x`.
fn contains_string(list: &Vec<String>, x: &String) -> (r: bool)
    ensures
        r == list.deep_view().contains(x@),
{
    let mut i: usize = 0;
    while i < list.len()
        invariant
            i <= list@.len(),
            forall|j: int| 0 <= j < i ==> list.deep_view()[j] != x@,
        decreases list@.len() - i,
    {
        if list[i].eq(x) {
            assert(list.deep_view()[i as int] == x@);
            return true;
        }
        i = i + 1;
    }
    return false;
}

/// `book_without` unrolled by one appended entry.
proof fn lemma_book_without_push(book: Seq<Seq<char>>, failed: Seq<Seq<char>>, x: Seq<char>)
    ensures
        book_without(book.push(x), failed) == if !failed.contains(x) {
            book_without(book, failed).push(x)
        } else {
            book_without(book, failed)
        },
{
    reveal(Seq::filter);
    assert(book.push(x).drop_last() =~= book);
    assert(book.push(x).last() == x);
}

/// Keep only the addresses that are not among the failed ones.
fn prune_addresses(peers: &Vec<String>, failed: &Vec<String>) -> (r: Vec<String>)
    ensures
        r.deep_view() == book_without(peers.deep_view(), failed.deep_view()),
{
    let ghost book = peers.deep_view();
    let mut out: Vec<String> = Vec::new();
    let mut i: usize = 0;
    proof {
        reveal(Seq::filter);
        assert(book.subrange(0, 0) =~= Seq::<Seq<char>>::empty());
        assert(out.deep_view() =~= book_without(book.subrange(0, 0), failed.deep_view()));
    }
    while i < peers.len()
        invariant
            i <= peers@.len(),
            book == peers.deep_view(),
            book.len() == peers@.len(),
            out.deep_view() == book_without(book.subrange(0, i as int), failed.deep_view()),
        decreases peers@.len() - i,
    {
        let ghost prefix = book.subrange(0, i as int);
        proof {
            assert(book.subrange(0, i + 1) =~= prefix.push(book[i as int]));
            lemma_book_without_push(prefix, failed.deep_view(), book[i as int]);
        }
        if !contains_string(failed, &peers[i]) {
            let ghost prev = out.deep_view();
            out.push(peers[i].clone());
            proof {
                assert(out.deep_view() =~= prev.push(book[i as int]));
            }
        }
        i = i + 1;
    }
    proof {
        assert(book.subrange(0, peers@.len() as int) =~= book);
    }
    out
}

/// Address-book maintenance: an address learned from a "new external
/// address" event and then pruned by a failed dial to it leaves an
/// initially empty book empty again.
pub proof fn lemma_book_add_then_prune(addr: Seq<char>)
    ensures
        book_without(book_with(Seq::<Seq<char>>::empty(), addr), seq![addr]) =~= Seq::<
            Seq<char>,
        >::empty(),
{
    reveal_with_fuel(Seq::filter, 3);
    let empty = Seq::<Seq<char>>::empty();
    assert(!empty.contains(addr));
    let single = book_with(empty, addr);
    assert(single =~= seq![addr]);
    assert(seq![addr].contains(addr)) by {
        assert(seq![addr][0] == addr);
    }
    assert(single.drop_last() =~= empty);
    assert(single.last() == addr);
    assert(book_without(single, seq![addr]) =~= empty);
}

/// DHT mode toggling: confirmation of an external address puts the DHT
/// into server mode; a later expiry puts it back into client mode.
pub proof fn lemma_dht_mode_toggles(
    pre: Reactor,
    public_key: Seq<u8>,
    handler: CommandHandler,
    mid: Reactor,
    r1: Reaction,
    post: Reactor,
    r2: Reaction,
)
    requires
        reaction_ok(pre, public_key, handler, NodeEvent::ExternalAddrConfirmed, mid, r1),
        reaction_ok(mid, public_key, handler, NodeEvent::ExternalAddrExpired, post, r2),
    ensures
        mid.dht_mode == DhtMode::Server,
        post.dht_mode == DhtMode::Client,
{
}

} // verus!
