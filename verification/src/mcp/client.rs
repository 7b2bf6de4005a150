//! The request/response correlator of one client.
//!
//! The correlator keeps the table of requests that still await their
//! response. Its caller sends the request, waits for the response or for the
//! deadline, and reports which of the two came first. Whichever it was, the
//! entry leaves the table at that moment, so a request is resolved at most
//! once.

use crate::mcp::protocol::{MCPMessage, MCPResponseMessage, MessageView, ResponseView};
use vstd::prelude::*;

verus! {

/// The time, in seconds, that a request waits for its response.
pub const REQUEST_TIMEOUT_SECS: u64 = 30;

/// Why a request ended without its response.
#[derive(Clone, Copy, Debug, PartialEq, Eq, Structural)]
pub enum RequestError {
    /// The deadline passed before a matching response arrived.
    Timeout,
}

/// The ids that a list of strings names.
pub open spec fn named_ids(list: Seq<String>) -> Set<Seq<char>> {
    Set::new(|id: Seq<char>| exists|i: int| 0 <= i < list.len() && (#[trigger] list[i])@ == id)
}

/// To append a string to a list adds its id to the ids named.
proof fn lemma_named_ids_push(list: Seq<String>, s: String)
    ensures
        named_ids(list.push(s)) == named_ids(list).insert(s@),
{
    let longer = list.push(s);
    assert forall|id: Seq<char>| named_ids(longer).contains(id) implies named_ids(list).insert(s@).contains(
        id,
    ) by {
        let k = choose|k: int| 0 <= k < longer.len() && (#[trigger] longer[k])@ == id;
        if k < list.len() {
            assert(list[k]@ == id);
        }
    }
    assert forall|id: Seq<char>| named_ids(list).insert(s@).contains(id) implies named_ids(longer).contains(
        id,
    ) by {
        if id == s@ {
            assert(longer[list.len() as int]@ == id);
        } else {
            let k = choose|k: int| 0 <= k < list.len() && (#[trigger] list[k])@ == id;
            assert(longer[k]@ == id);
        }
    }
    assert(named_ids(longer) =~= named_ids(list).insert(s@));
}

/// The table once a request with the id `request_id` has been recorded.
pub open spec fn after_request(pending: Set<Seq<char>>, request_id: Seq<char>) -> Set<Seq<char>> {
    pending.insert(request_id)
}

/// The table once the request with the id `request_id` has been resolved, by
/// its response or by its deadline.
pub open spec fn after_resolution(pending: Set<Seq<char>>, request_id: Seq<char>) -> Set<Seq<char>> {
    pending.remove(request_id)
}

/// A response is accepted where the request that it answers is awaiting it.
pub open spec fn accepts(pending: Set<Seq<char>>, response: ResponseView) -> bool {
    pending.contains(response.in_response_to)
}

/// A message announces a response by its content type.
pub open spec fn announces_response(message: MessageView) -> bool {
    message.content_type == "response"@
}

pub struct MCPClient {
    client_id: String,
    pending_responses: Vec<String>,
}

impl MCPClient {
    /// The ids of the requests that await their response.
    pub closed spec fn pending(&self) -> Set<Seq<char>> {
        named_ids(self.pending_responses@)
    }

    pub closed spec fn id(&self) -> Seq<char> {
        self.client_id@
    }

    pub fn new(client_id: String) -> (client: MCPClient)
        ensures
            client.id() == client_id@,
            client.pending() == Set::<Seq<char>>::empty(),
    {
        let client = MCPClient { client_id, pending_responses: Vec::new() };
        proof {
            assert(client.pending() =~= Set::<Seq<char>>::empty());
        }
        client
    }

    pub fn client_id(&self) -> (id: &String)
        ensures
            id@ == self.id(),
    {
        &self.client_id
    }

    /// Whether the request with this id awaits its response.
    pub fn is_pending(&self, message_id: &String) -> (pending: bool)
        ensures
            pending == self.pending().contains(message_id@),
    {
        let mut i: usize = 0;
        while i < self.pending_responses.len()
            invariant
                i <= self.pending_responses.len(),
                forall|k: int| 0 <= k < i ==> (#[trigger] self.pending_responses@[k])@ != message_id@,
            decreases self.pending_responses.len() - i,
        {
            if self.pending_responses[i] == *message_id {
                return true;
            }
            i += 1;
        }
        false
    }

    /// Takes the entry of `message_id` out of the table and says whether
    /// there was one.
    fn resolve(&mut self, message_id: &String) -> (was_pending: bool)
        ensures
            was_pending == old(self).pending().contains(message_id@),
            final(self).pending() == after_resolution(old(self).pending(), message_id@),
            final(self).id() == old(self).id(),
    {
        let mut kept: Vec<String> = Vec::new();
        let mut was_pending = false;
        let mut i: usize = 0;
        proof {
            assert(named_ids(kept@) =~= named_ids(self.pending_responses@.take(0)).remove(message_id@));
        }
        while i < self.pending_responses.len()
            invariant
                i <= self.pending_responses.len(),
                was_pending == named_ids(self.pending_responses@.take(i as int)).contains(message_id@),
                named_ids(kept@) == named_ids(self.pending_responses@.take(i as int)).remove(message_id@),
            decreases self.pending_responses.len() - i,
        {
            let ghost seen = self.pending_responses@.take(i as int);
            proof {
                lemma_named_ids_push(seen, self.pending_responses@[i as int]);
                assert(self.pending_responses@.take(i + 1) =~= seen.push(self.pending_responses@[i as int]));
            }
            if self.pending_responses[i] == *message_id {
                was_pending = true;
                proof {
                    assert(named_ids(seen).insert(message_id@).remove(message_id@) =~= named_ids(seen).remove(
                        message_id@,
                    ));
                }
            } else {
                let entry = self.pending_responses[i].clone();
                proof {
                    lemma_named_ids_push(kept@, entry);
                    assert(named_ids(seen).remove(message_id@).insert(entry@) =~= named_ids(seen).insert(
                        entry@,
                    ).remove(message_id@));
                }
                kept.push(entry);
            }
            i += 1;
        }
        proof {
            assert(self.pending_responses@.take(i as int) =~= self.pending_responses@);
        }
        self.pending_responses = kept;
        was_pending
    }

    /// Records that `msg` awaits a response and hands the message back to be
    /// sent into the router.
    pub fn send_request(&mut self, msg: MCPMessage) -> (outgoing: MCPMessage)
        ensures
            outgoing@ == msg@,
            final(self).pending() == after_request(old(self).pending(), msg@.message_id),
            final(self).id() == old(self).id(),
    {
        if !self.is_pending(&msg.message_id) {
            let id = msg.message_id.clone();
            proof {
                lemma_named_ids_push(self.pending_responses@, id);
            }
            self.pending_responses.push(id);
        }
        proof {
            assert(self.pending() =~= after_request(old(self).pending(), msg@.message_id));
        }
        msg
    }

    /// Ends the wait for the response to the request `message_id`, with the
    /// response that arrived in time or, where the deadline came first,
    /// without one. Either way the request leaves the table. The response is
    /// handed on as it came; without one the request fails with `Timeout`.
    pub fn complete_request(&mut self, message_id: &String, arrived: Option<MCPResponseMessage>) -> (outcome:
        Result<MCPResponseMessage, RequestError>)
        ensures
            final(self).pending() == after_resolution(old(self).pending(), message_id@),
            final(self).id() == old(self).id(),
            match arrived {
                Some(response) => outcome == Ok::<MCPResponseMessage, RequestError>(response),
                None => outcome == Err::<MCPResponseMessage, RequestError>(RequestError::Timeout),
            },
    {
        self.resolve(message_id);
        match arrived {
            Some(response) => Ok(response),
            None => Err(RequestError::Timeout),
        }
    }

    /// Takes in a response. Where the request that it answers awaits it, the
    /// request leaves the table and the response is handed back, to go to the
    /// waiting requester. Any other response is dropped: nothing changes and
    /// nothing is handed back.
    pub fn handle_response(&mut self, response: MCPResponseMessage) -> (matched: Option<MCPResponseMessage>)
        ensures
            final(self).id() == old(self).id(),
            final(self).pending() == after_resolution(old(self).pending(), response@.in_response_to),
            accepts(old(self).pending(), response@) ==> matched == Some(response),
            !accepts(old(self).pending(), response@) ==> matched is None,
            !accepts(old(self).pending(), response@) ==> final(self).pending() == old(self).pending(),
    {
        let was_pending = self.resolve(&response.in_response_to);
        proof {
            if !was_pending {
                assert(self.pending() =~= old(self).pending());
            }
        }
        if was_pending {
            Some(response)
        } else {
            None
        }
    }

    /// One step of the receiving loop. A message that announces a response,
    /// and whose payload was decoded into one, is treated as
    /// `handle_response` treats that response. Any other message changes
    /// nothing.
    pub fn process_incoming(&mut self, message: &MCPMessage, decoded: Option<MCPResponseMessage>) -> (matched:
        Option<MCPResponseMessage>)
        ensures
            final(self).id() == old(self).id(),
            match decoded {
                Some(response) if announces_response(message@) => {
                    &&& final(self).pending() == after_resolution(old(self).pending(), response@.in_response_to)
                    &&& matched == (if accepts(old(self).pending(), response@) {
                        Some(response)
                    } else {
                        None::<MCPResponseMessage>
                    })
                },
                _ => matched is None && final(self).pending() == old(self).pending(),
            },
    {
        let tag = "response".to_owned();
        match decoded {
            Some(response) => {
                if message.content_type == tag {
                    self.handle_response(response)
                } else {
                    None
                }
            },
            None => None,
        }
    }
}

/// A response that matches a recorded request is accepted, and only once:
/// with the request resolved, the same response is accepted no more, and to
/// resolve it again changes nothing.
pub proof fn response_resolves_request_once(pending: Set<Seq<char>>, request: MessageView, response: ResponseView)
    requires
        response.in_response_to == request.message_id,
    ensures
        accepts(after_request(pending, request.message_id), response),
        !accepts(after_resolution(after_request(pending, request.message_id), response.in_response_to), response),
        after_resolution(
            after_resolution(after_request(pending, request.message_id), response.in_response_to),
            response.in_response_to,
        ) == after_resolution(after_request(pending, request.message_id), response.in_response_to),
{
    let resolved = after_resolution(after_request(pending, request.message_id), response.in_response_to);
    assert(after_resolution(resolved, response.in_response_to) =~= resolved);
}

/// Once the deadline has taken a request out of the table, a response to it
/// that arrives late is not accepted, and to drop it leaves the table as it
/// is.
pub proof fn late_response_is_dropped(pending: Set<Seq<char>>, request: MessageView, response: ResponseView)
    requires
        response.in_response_to == request.message_id,
    ensures
        !accepts(after_resolution(after_request(pending, request.message_id), request.message_id), response),
        after_resolution(
            after_resolution(after_request(pending, request.message_id), request.message_id),
            response.in_response_to,
        ) == after_resolution(after_request(pending, request.message_id), request.message_id),
{
    let timed_out = after_resolution(after_request(pending, request.message_id), request.message_id);
    assert(after_resolution(timed_out, response.in_response_to) =~= timed_out);
}

} // verus!
