//! The router: a registry of clients, each with the channel on which it is
//! reached, the log of the messages routed, and running counts.
//!
//! The router decides and keeps the books. It never touches a channel: it
//! names the channel on which a message is to go, and learns from its caller
//! whether the message went.

use crate::clock::{current_time, Timestamp};
use crate::mcp::protocol::{MCPMessage, MessageView};
use dashmap::DashMap;
use vstd::prelude::*;

verus! {

/// `dashmap::DashMap`, the concurrent map that holds the registry.
#[verifier::external_type_specification]
#[verifier::external_body]
#[verifier::reject_recursive_types(K)]
#[verifier::reject_recursive_types(V)]
#[verifier::reject_recursive_types(S)]
pub struct ExDashMap<K, V, S>(DashMap<K, V, S>);

/// The entries of a registry: which channel each registered client has.
pub uninterp spec fn registry_entries(clients: DashMap<String, u64>) -> Map<Seq<char>, u64>;

/// The registry in which nobody is registered.
pub open spec fn no_entries() -> Map<Seq<char>, u64> {
    Map::empty()
}

/// `DashMap::new`: a map without entries.
#[verifier::external_body]
fn registry_new() -> (clients: DashMap<String, u64>)
    ensures
        registry_entries(clients) == no_entries(),
{
    DashMap::new()
}

/// `DashMap::insert`: afterwards the key has the given value, whether or not
/// it had one before; the other entries stay.
#[verifier::external_body]
fn registry_insert(clients: &mut DashMap<String, u64>, client_id: String, channel: u64)
    ensures
        registry_entries(*final(clients)) == registry_entries(*old(clients)).insert(
            client_id@,
            channel,
        ),
{
    clients.insert(client_id, channel);
}

/// `DashMap::remove`: afterwards the key has no entry; the other entries stay.
#[verifier::external_body]
fn registry_remove(clients: &mut DashMap<String, u64>, client_id: &str)
    ensures
        registry_entries(*final(clients)) == registry_entries(*old(clients)).remove(client_id@),
{
    clients.remove(client_id);
}

/// `DashMap::len`: the number of entries.
#[verifier::external_body]
fn registry_len(clients: &DashMap<String, u64>) -> (count: usize)
    ensures
        count == registry_entries(*clients).len(),
{
    clients.len()
}

/// `DashMap::get`: the value stored under the key, if it has an entry.
#[verifier::external_body]
fn registry_get(clients: &DashMap<String, u64>, client_id: &str) -> (channel: Option<u64>)
    ensures
        channel == (if registry_entries(*clients).contains_key(client_id@) {
            Some(registry_entries(*clients)[client_id@])
        } else {
            None::<u64>
        }),
{
    clients.get(client_id).map(|entry| *entry.value())
}

/// `DashMap::iter`, collected: every entry once, in an order that the map
/// does not fix.
#[verifier::external_body]
fn registry_snapshot(clients: &DashMap<String, u64>) -> (list: Vec<(String, u64)>)
    ensures
        lists_entries(list@, registry_entries(*clients)),
{
    clients.iter().map(|entry| (entry.key().clone(), *entry.value())).collect()
}

/// `list` names every entry of `entries` once and nothing else.
pub open spec fn lists_entries(list: Seq<(String, u64)>, entries: Map<Seq<char>, u64>) -> bool {
    &&& forall|i: int|
        0 <= i < list.len() ==> entries.contains_key((#[trigger] list[i]).0@) && entries[list[i].0@]
            == list[i].1
    &&& forall|i: int, j: int|
        0 <= i < j < list.len() ==> (#[trigger] list[i]).0@ != (#[trigger] list[j]).0@
    &&& forall|id: Seq<char>| #[trigger]
        entries.contains_key(id) ==> exists|i: int| 0 <= i < list.len() && (#[trigger] list[i]).0@ == id
}

/// The router's running counts.
#[derive(Clone, Copy, Debug, PartialEq, Eq, Structural)]
pub struct ServerStats {
    pub messages_sent: u64,
    pub messages_received: u64,
    pub active_clients: u64,
    pub errors: u64,
}

impl Default for ServerStats {
    fn default() -> (stats: ServerStats)
        ensures
            stats == (ServerStats { messages_sent: 0, messages_received: 0, active_clients: 0, errors: 0 }),
    {
        ServerStats { messages_sent: 0, messages_received: 0, active_clients: 0, errors: 0 }
    }
}

/// One message to put on one channel.
#[derive(Debug)]
pub struct Delivery {
    pub channel: u64,
    pub message: MCPMessage,
}

/// What the router decided about one message.
#[derive(Debug)]
pub enum RouteStep {
    /// The message had expired: it is dropped and nothing is recorded.
    Expired,
    /// Nobody is registered under the recipient's name. The message is
    /// logged and counted as an error; the submitter sees no failure.
    UnknownRecipient,
    /// The message is to go out on the recipient's channel. The caller
    /// reports how that went with `record_delivery`.
    Forward(Delivery),
}

/// The one failure that routing hands to its caller.
#[derive(Clone, Copy, Debug, PartialEq, Eq, Structural)]
pub enum RouterError {
    /// The recipient's channel was closed.
    SendFailure,
}

/// The `count` latest items of `log`, latest first.
pub open spec fn latest_first<T>(log: Seq<T>, count: nat) -> Seq<T> {
    Seq::new(if count < log.len() { count } else { log.len() }, |i: int| log[log.len() - 1 - i])
}

/// The views of a list of messages, in order.
pub open spec fn message_views(list: Seq<MCPMessage>) -> Seq<MessageView> {
    Seq::new(list.len(), |i: int| list[i]@)
}

/// `planned` is what a broadcast of `message` owes to the clients in
/// `clients`: for each of them one copy, addressed to it, on its channel.
pub open spec fn is_broadcast_of(planned: Seq<Delivery>, message: MessageView, clients: Map<Seq<char>, u64>) -> bool {
    &&& forall|i: int|
        0 <= i < planned.len() ==> {
            let d = #[trigger] planned[i];
            &&& clients.contains_key(d.message@.recipient)
            &&& d.channel == clients[d.message@.recipient]
            &&& d.message@ == message.readdressed(d.message@.recipient)
        }
    &&& forall|i: int, j: int|
        0 <= i < j < planned.len() ==> (#[trigger] planned[i]).message@.recipient != (
        #[trigger] planned[j]).message@.recipient
    &&& forall|id: Seq<char>| #[trigger]
        clients.contains_key(id) ==> exists|i: int|
            0 <= i < planned.len() && (#[trigger] planned[i]).message@.recipient == id
}

pub struct MCPServer {
    server_id: String,
    clients: DashMap<String, u64>,
    message_history: Vec<MCPMessage>,
    stats: ServerStats,
    awaiting: usize,
}

impl MCPServer {
    /// The books are in order: every logged message was counted once, as
    /// sent, as an error, or as still awaiting the outcome of its delivery;
    /// and the count of active clients is the number of clients registered.
    pub open spec fn wf(&self) -> bool {
        &&& self.stats().messages_sent + self.stats().errors + self.awaiting() == self.history().len()
        &&& self.stats().active_clients == self.clients().len()
    }

    /// The registry: the channel of each registered client.
    pub closed spec fn clients(&self) -> Map<Seq<char>, u64> {
        registry_entries(self.clients)
    }

    /// The log of routed messages, oldest first.
    pub closed spec fn history(&self) -> Seq<MessageView> {
        message_views(self.message_history@)
    }

    pub closed spec fn stats(&self) -> ServerStats {
        self.stats
    }

    /// How many planned deliveries have not been reported yet.
    pub closed spec fn awaiting(&self) -> nat {
        self.awaiting as nat
    }

    pub closed spec fn id(&self) -> Seq<char> {
        self.server_id@
    }

    pub fn new(server_id: &str) -> (server: MCPServer)
        ensures
            server.wf(),
            server.id() == server_id@,
            server.clients() == no_entries(),
            server.history() == Seq::<MessageView>::empty(),
            server.stats() == (ServerStats { messages_sent: 0, messages_received: 0, active_clients: 0, errors: 0 }),
            server.awaiting() == 0,
    {
        let server = MCPServer {
            server_id: server_id.to_owned(),
            clients: registry_new(),
            message_history: Vec::new(),
            stats: ServerStats::default(),
            awaiting: 0,
        };
        proof {
            assert(server.history() =~= Seq::<MessageView>::empty());
        }
        server
    }

    pub fn server_id(&self) -> (id: &String)
        ensures
            id@ == self.id(),
    {
        &self.server_id
    }

    /// Registers `client_id` with its channel, in place of an earlier
    /// registration under that name, and recounts the active clients.
    pub fn register_client(&mut self, client_id: String, channel: u64)
        requires
            old(self).wf(),
        ensures
            final(self).wf(),
            final(self).clients() == old(self).clients().insert(client_id@, channel),
            final(self).stats() == (ServerStats {
                active_clients: final(self).clients().len() as u64,
                ..old(self).stats()
            }),
            final(self).clients().len() <= u64::MAX,
            final(self).history() == old(self).history(),
            final(self).awaiting() == old(self).awaiting(),
            final(self).id() == old(self).id(),
    {
        registry_insert(&mut self.clients, client_id, channel);
        let count = registry_len(&self.clients);
        self.stats.active_clients = count as u64;
    }

    /// Removes the registration of `client_id`, if there is one, and recounts
    /// the active clients.
    pub fn unregister_client(&mut self, client_id: &str)
        requires
            old(self).wf(),
        ensures
            final(self).wf(),
            final(self).clients() == old(self).clients().remove(client_id@),
            final(self).stats() == (ServerStats {
                active_clients: final(self).clients().len() as u64,
                ..old(self).stats()
            }),
            final(self).clients().len() <= u64::MAX,
            final(self).history() == old(self).history(),
            final(self).awaiting() == old(self).awaiting(),
            final(self).id() == old(self).id(),
    {
        registry_remove(&mut self.clients, client_id);
        let count = registry_len(&self.clients);
        self.stats.active_clients = count as u64;
    }

    /// The channel on which `client_id` is reached, if it is registered.
    pub fn channel_of(&self, client_id: &str) -> (channel: Option<u64>)
        ensures
            channel == (if self.clients().contains_key(client_id@) {
                Some(self.clients()[client_id@])
            } else {
                None::<u64>
            }),
    {
        registry_get(&self.clients, client_id)
    }

    /// Routes `msg` as of the current time on the system clock. Whatever the
    /// clock says, the registry stays as it is and either the message is
    /// dropped as expired with nothing recorded, or it is logged.
    pub fn route_message(&mut self, msg: MCPMessage) -> (step: RouteStep)
        requires
            old(self).wf(),
        ensures
            final(self).wf(),
            final(self).clients() == old(self).clients(),
            final(self).id() == old(self).id(),
            step is Expired ==> msg@.expires_at is Some,
            step is Expired <==> final(self).history() == old(self).history(),
            !(step is Expired) ==> routed(*old(self), msg@, step, *final(self)),
    {
        let now = current_time();
        let step = self.route_message_at(msg, now);
        proof {
            if !(step is Expired) {
                assert(self.history().len() == old(self).history().len() + 1);
            }
        }
        step
    }

    /// Routes `msg` as of `now`.
    ///
    /// An expired message is dropped: nothing is logged, counted or
    /// forwarded. Any other message is appended to the log. If its recipient
    /// is registered, the message is handed back for forwarding on that
    /// client's channel, once; if not, one error is counted and the caller
    /// sees no failure.
    pub fn route_message_at(&mut self, msg: MCPMessage, now: Timestamp) -> (step: RouteStep)
        requires
            old(self).wf(),
        ensures
            final(self).wf(),
            final(self).clients() == old(self).clients(),
            final(self).id() == old(self).id(),
            step is Expired <==> msg@.expired_at(now),
            step is Expired ==> untouched(*old(self), *final(self)),
            !(step is Expired) ==> routed(*old(self), msg@, step, *final(self)),
    {
        if msg.is_expired_at(now) {
            return RouteStep::Expired;
        }
        let ghost before = self.message_history@;
        self.message_history.push(msg.duplicate());
        let logged = self.message_history.len();
        proof {
            assert(message_views(self.message_history@) =~= message_views(before).push(msg@));
            assert(before.len() + 1 == logged);
        }
        match registry_get(&self.clients, msg.recipient.as_str()) {
            Some(channel) => {
                self.awaiting = self.awaiting + 1;
                RouteStep::Forward(Delivery { channel, message: msg })
            },
            None => {
                self.stats.errors = self.stats.errors + 1;
                RouteStep::UnknownRecipient
            },
        }
    }

    /// Books the outcome of one forward that `route_message` planned: a
    /// delivered message counts as sent; a closed channel counts as an error
    /// and is handed to the caller as `SendFailure`.
    pub fn record_delivery(&mut self, delivered: bool) -> (outcome: Result<(), RouterError>)
        requires
            old(self).wf(),
            old(self).awaiting() > 0,
        ensures
            final(self).wf(),
            final(self).clients() == old(self).clients(),
            final(self).history() == old(self).history(),
            final(self).id() == old(self).id(),
            final(self).awaiting() == old(self).awaiting() - 1,
            delivered ==> outcome is Ok && final(self).stats() == (ServerStats {
                messages_sent: (old(self).stats().messages_sent + 1) as u64,
                ..old(self).stats()
            }),
            !delivered ==> outcome == Err::<(), RouterError>(RouterError::SendFailure) && final(self).stats() == (
            ServerStats { errors: (old(self).stats().errors + 1) as u64, ..old(self).stats() }),
            old(self).stats().messages_sent + old(self).stats().errors < u64::MAX,
    {
        let logged = self.message_history.len();
        assert(self.stats.messages_sent + self.stats.errors < logged);
        self.awaiting = self.awaiting - 1;
        if delivered {
            self.stats.messages_sent = self.stats.messages_sent + 1;
            Ok(())
        } else {
            self.stats.errors = self.stats.errors + 1;
            Err(RouterError::SendFailure)
        }
    }

    /// Plans a broadcast of `msg` as of the current time on the system
    /// clock: either nothing, which can happen only to a message with an
    /// expiry, or one copy for every registered client.
    pub fn broadcast_message(&self, msg: MCPMessage) -> (planned: Vec<Delivery>)
        ensures
            planned@.len() == 0 && msg@.expires_at is Some || is_broadcast_of(
                planned@,
                msg@,
                self.clients(),
            ),
    {
        let now = current_time();
        self.broadcast_message_at(msg, now)
    }

    /// Plans a broadcast of `msg` as of `now`: for an expired message
    /// nothing; else for every registered client one copy of the message,
    /// addressed to that client, on that client's channel. The log and the
    /// counts are not touched.
    pub fn broadcast_message_at(&self, msg: MCPMessage, now: Timestamp) -> (planned: Vec<Delivery>)
        ensures
            msg@.expired_at(now) ==> planned@.len() == 0,
            !msg@.expired_at(now) ==> is_broadcast_of(planned@, msg@, self.clients()),
    {
        let mut planned: Vec<Delivery> = Vec::new();
        if msg.is_expired_at(now) {
            return planned;
        }
        let targets = registry_snapshot(&self.clients);
        let mut i: usize = 0;
        while i < targets.len()
            invariant
                i <= targets.len(),
                planned@.len() == i,
                lists_entries(targets@, self.clients()),
                forall|k: int|
                    0 <= k < i ==> {
                        let d = #[trigger] planned@[k];
                        &&& d.message@.recipient == targets@[k].0@
                        &&& d.channel == targets@[k].1
                        &&& d.message@ == msg@.readdressed(targets@[k].0@)
                    },
            decreases targets.len() - i,
        {
            let message = msg.readdressed_to(targets[i].0.clone());
            planned.push(Delivery { channel: targets[i].1, message });
            i += 1;
        }
        proof {
            let clients = self.clients();
            assert forall|id: Seq<char>| #[trigger] clients.contains_key(id) implies exists|k: int|
                0 <= k < planned@.len() && (#[trigger] planned@[k]).message@.recipient == id by {
                let k = choose|k: int| 0 <= k < targets@.len() && (#[trigger] targets@[k]).0@ == id;
                assert(planned@[k].message@.recipient == id);
            }
        }
        planned
    }

    /// How many planned forwards have not been reported yet.
    pub fn awaiting_deliveries(&self) -> (count: usize)
        ensures
            count == self.awaiting(),
    {
        self.awaiting
    }

    /// A snapshot of the counts.
    pub fn get_stats(&self) -> (stats: ServerStats)
        ensures
            stats == self.stats(),
    {
        self.stats
    }

    /// A snapshot of the log: without a limit all of it, oldest first; with
    /// a limit the latest `n` messages, latest first.
    pub fn get_message_history(&self, limit: Option<usize>) -> (list: Vec<MCPMessage>)
        ensures
            limit is None ==> message_views(list@) == self.history(),
            limit matches Some(n) ==> message_views(list@) == latest_first(self.history(), n as nat),
    {
        let total = self.message_history.len();
        let mut list: Vec<MCPMessage> = Vec::new();
        match limit {
            None => {
                let mut i: usize = 0;
                while i < total
                    invariant
                        total == self.message_history@.len(),
                        i <= total,
                        list@.len() == i,
                        forall|k: int| 0 <= k < i ==> (#[trigger] list@[k])@ == self.message_history@[k]@,
                    decreases total - i,
                {
                    list.push(self.message_history[i].duplicate());
                    i += 1;
                }
                proof {
                    assert(message_views(list@) =~= self.history());
                }
            },
            Some(n) => {
                let count = if n < total { n } else { total };
                let mut i: usize = 0;
                while i < count
                    invariant
                        total == self.message_history@.len(),
                        count <= total,
                        i <= count,
                        list@.len() == i,
                        forall|k: int|
                            0 <= k < i ==> (#[trigger] list@[k])@ == self.message_history@[total - 1 - k]@,
                    decreases count - i,
                {
                    list.push(self.message_history[total - 1 - i].duplicate());
                    i += 1;
                }
                proof {
                    assert(message_views(list@) =~= latest_first(self.history(), n as nat));
                }
            },
        }
        list
    }
}

/// The router after a step that recorded nothing: its registry, its log and
/// its counts are what they were.
pub open spec fn untouched(before: MCPServer, after: MCPServer) -> bool {
    &&& after.clients() == before.clients()
    &&& after.history() == before.history()
    &&& after.stats() == before.stats()
    &&& after.awaiting() == before.awaiting()
}

/// How the router stands after it has routed a message that had not expired:
/// the message is at the end of the log, and it was either handed back for
/// forwarding on its recipient's channel or counted as an error.
pub open spec fn routed(before: MCPServer, message: MessageView, step: RouteStep, after: MCPServer) -> bool {
    &&& after.history() == before.history().push(message)
    &&& after.clients() == before.clients()
    &&& if before.clients().contains_key(message.recipient) {
        &&& step matches RouteStep::Forward(d)
        &&& d.channel == before.clients()[message.recipient]
        &&& d.message@ == message
        &&& after.stats() == before.stats()
        &&& after.awaiting() == before.awaiting() + 1
    } else {
        &&& step is UnknownRecipient
        &&& after.stats() == (ServerStats { errors: (before.stats().errors + 1) as u64, ..before.stats() })
        &&& before.stats().errors < u64::MAX
        &&& after.awaiting() == before.awaiting()
    }
}

/// Two messages routed one after the other to one registered recipient are
/// each handed back once for forwarding, on that recipient's channel and
/// unchanged, and stand in the log in the order in which they were routed.
pub proof fn forwards_follow_send_order(
    start: MCPServer,
    first: MessageView,
    first_step: RouteStep,
    between: MCPServer,
    second: MessageView,
    second_step: RouteStep,
    end: MCPServer,
)
    requires
        start.clients().contains_key(first.recipient),
        second.recipient == first.recipient,
        routed(start, first, first_step, between),
        routed(between, second, second_step, end),
    ensures
        first_step matches RouteStep::Forward(a) && a.message@ == first && a.channel
            == start.clients()[first.recipient],
        second_step matches RouteStep::Forward(b) && b.message@ == second && b.channel
            == start.clients()[first.recipient],
        end.history() == start.history().push(first).push(second),
        end.stats() == start.stats(),
        end.awaiting() == start.awaiting() + 2,
{
}

/// A message routed to a name under which nobody is registered raises the
/// error count by exactly one, leaves the other counts and the registry as
/// they are, and is not forwarded.
pub proof fn unknown_recipient_counts_one_error(
    before: MCPServer,
    message: MessageView,
    step: RouteStep,
    after: MCPServer,
)
    requires
        !before.clients().contains_key(message.recipient),
        routed(before, message, step, after),
    ensures
        step is UnknownRecipient,
        after.stats().errors == before.stats().errors + 1,
        after.stats().messages_sent == before.stats().messages_sent,
        after.stats().messages_received == before.stats().messages_received,
        after.stats().active_clients == before.stats().active_clients,
        after.clients() == before.clients(),
        after.awaiting() == before.awaiting(),
{
}

} // verus!
