//! The orchestrator: it owns the agents, their registry and the message bus,
//! starts the agents up, hands each message to the agent it is addressed to,
//! and shuts the agents down.
//!
//! The bus is a queue. What the orchestrator puts on it, its caller takes off
//! in the same order and has routed or broadcast by the router.

use crate::agents::base::{string_views, Agent, AgentHealth};
use crate::clock::{current_time, Timestamp};
use crate::mcp::protocol::{MCPMessage, MCPResponseMessage, MessageView, ResponseView};
use crate::mcp::server::{
    is_broadcast_of, no_entries, routed, untouched, Delivery, MCPServer, RouteStep, RouterError,
    ServerStats,
};
use vstd::prelude::*;

verus! {

/// The name of the orchestrator's router.
pub const SWARM_SERVER_ID: &'static str = "terrafusion-swarm";

/// The time, in seconds, between two health checks of one agent.
pub const HEALTH_CHECK_INTERVAL_SECS: u64 = 30;

/// The time, in milliseconds, between two ticks of the main loop.
pub const MAIN_LOOP_TICK_MILLIS: u64 = 100;

/// A consolidated health report is due at every tick whose number is a
/// multiple of this.
pub const HEALTH_REPORT_EVERY: u64 = 600;

/// Where an agent stands in its life.
#[derive(Clone, Copy, Debug, PartialEq, Eq, Structural)]
pub enum LifecycleState {
    Registered,
    Initialized,
    Running,
    ShutDown,
}

/// What travels on the orchestrator's bus.
#[derive(Debug)]
pub enum SwarmMessage {
    Route(MCPMessage),
    Broadcast(MCPMessage),
    HealthCheck,
}

/// What a bus message holds, as mathematical values.
pub enum SwarmMessageView {
    Route(MessageView),
    Broadcast(MessageView),
    HealthCheck,
}

impl View for SwarmMessage {
    type V = SwarmMessageView;

    open spec fn view(&self) -> SwarmMessageView {
        match self {
            SwarmMessage::Route(m) => SwarmMessageView::Route(m@),
            SwarmMessage::Broadcast(m) => SwarmMessageView::Broadcast(m@),
            SwarmMessage::HealthCheck => SwarmMessageView::HealthCheck,
        }
    }
}

/// The views of a list of bus messages, in order.
pub open spec fn bus_views(list: Seq<SwarmMessage>) -> Seq<SwarmMessageView> {
    Seq::new(list.len(), |i: int| list[i]@)
}

/// The orchestrator's counts. None of them ever goes down.
#[derive(Clone, Copy, Debug, PartialEq, Eq, Structural)]
pub struct OrchestratorStats {
    pub registered_agents: u64,
    pub initialized_agents: u64,
    pub failed_initializations: u64,
    pub messages_processed: u64,
    pub routing_errors: u64,
    pub loop_iterations: u64,
}

impl Default for OrchestratorStats {
    fn default() -> (stats: OrchestratorStats)
        ensures
            stats == no_activity(),
    {
        OrchestratorStats {
            registered_agents: 0,
            initialized_agents: 0,
            failed_initializations: 0,
            messages_processed: 0,
            routing_errors: 0,
            loop_iterations: 0,
        }
    }
}

/// The counts of an orchestrator that has done nothing yet.
pub open spec fn no_activity() -> OrchestratorStats {
    OrchestratorStats {
        registered_agents: 0,
        initialized_agents: 0,
        failed_initializations: 0,
        messages_processed: 0,
        routing_errors: 0,
        loop_iterations: 0,
    }
}

/// What the registry records of one agent.
pub struct RecordView {
    pub id: Seq<char>,
    pub capabilities: Seq<Seq<char>>,
    pub state: LifecycleState,
    pub init_failed: bool,
    pub shutdown_failed: bool,
}

/// A registered agent with what the registry records of it.
pub struct AgentRecord<A> {
    id: String,
    capabilities: Vec<String>,
    state: LifecycleState,
    init_failed: bool,
    shutdown_failed: bool,
    agent: A,
}

impl<A> View for AgentRecord<A> {
    type V = RecordView;

    closed spec fn view(&self) -> RecordView {
        RecordView {
            id: self.id@,
            capabilities: string_views(self.capabilities@),
            state: self.state,
            init_failed: self.init_failed,
            shutdown_failed: self.shutdown_failed,
        }
    }
}

/// The views of a list of records, in order.
pub open spec fn record_views<A>(list: Seq<AgentRecord<A>>) -> Seq<RecordView> {
    Seq::new(list.len(), |i: int| list[i]@)
}

/// An agent is registered under `id`.
pub open spec fn knows(registry: Seq<RecordView>, id: Seq<char>) -> bool {
    exists|i: int| 0 <= i < registry.len() && (#[trigger] registry[i]).id == id
}

/// The place of the agent `id` in a registry that knows it.
pub open spec fn place_of(registry: Seq<RecordView>, id: Seq<char>) -> int {
    choose|i: int| 0 <= i < registry.len() && (#[trigger] registry[i]).id == id
}

/// No two records carry the same id.
pub open spec fn distinct_ids(registry: Seq<RecordView>) -> bool {
    forall|i: int, j: int|
        0 <= i < j < registry.len() ==> (#[trigger] registry[i]).id != (#[trigger] registry[j]).id
}

/// The record of an agent that was just registered.
pub open spec fn fresh_record(id: Seq<char>, capabilities: Seq<Seq<char>>) -> RecordView {
    RecordView {
        id,
        capabilities,
        state: LifecycleState::Registered,
        init_failed: false,
        shutdown_failed: false,
    }
}

/// The registry once `record` is registered: in the place of the record
/// with the same id where there is one, else at the end.
pub open spec fn with_registration(registry: Seq<RecordView>, record: RecordView) -> Seq<RecordView> {
    if knows(registry, record.id) {
        registry.update(place_of(registry, record.id), record)
    } else {
        registry.push(record)
    }
}

/// The agents once `agent` is registered under `id`: in the place of the
/// agent registered under that id where there is one, else at the end.
pub open spec fn with_agent<A>(registry: Seq<RecordView>, agents: Seq<A>, id: Seq<char>, agent: A) -> Seq<A> {
    if knows(registry, id) {
        agents.update(place_of(registry, id), agent)
    } else {
        agents.push(agent)
    }
}

/// Asked `msg`, `agent` gave `response` and was `after` afterwards, as the
/// agent's own `answers` allows.
pub open spec fn gave<A: Agent>(agent: A, msg: MessageView, response: ResponseView, after: A) -> bool {
    agent.answers(msg, response, &after)
}

/// The bus once `message` is put on it. Without a bus the message is lost.
pub open spec fn with_bus_message(bus: Option<Seq<SwarmMessageView>>, message: SwarmMessageView) -> Option<
    Seq<SwarmMessageView>,
> {
    match bus {
        Some(queue) => Some(queue.push(message)),
        None => None,
    }
}

/// The record of an agent once its `initialize` has returned. Success takes
/// a registered agent to `Initialized`; failure is noted and the agent stays
/// as it was, registered and routable.
pub open spec fn after_initialization(record: RecordView, succeeded: bool) -> RecordView {
    if succeeded {
        RecordView {
            state: if record.state == LifecycleState::Registered {
                LifecycleState::Initialized
            } else {
                record.state
            },
            init_failed: false,
            ..record
        }
    } else {
        RecordView { init_failed: true, ..record }
    }
}

/// The record of an agent once the main loop is entered: an initialized
/// agent runs.
pub open spec fn started(record: RecordView) -> RecordView {
    if record.state == LifecycleState::Initialized {
        RecordView { state: LifecycleState::Running, ..record }
    } else {
        record
    }
}

/// The record of an agent once its `shutdown` has returned: the agent is
/// shut down either way, and a failure is noted.
pub open spec fn after_shutdown(record: RecordView, succeeded: bool) -> RecordView {
    RecordView { state: LifecycleState::ShutDown, shutdown_failed: !succeeded, ..record }
}

/// How many agents of a registry failed to shut down.
pub open spec fn shutdown_failures(registry: Seq<RecordView>) -> nat
    decreases registry.len(),
{
    if registry.len() == 0 {
        0
    } else {
        shutdown_failures(registry.drop_last()) + if registry.last().shutdown_failed {
            1nat
        } else {
            0nat
        }
    }
}

/// How many agents of a registry failed to initialize.
pub open spec fn failures(registry: Seq<RecordView>) -> nat
    decreases registry.len(),
{
    if registry.len() == 0 {
        0
    } else {
        failures(registry.drop_last()) + if registry.last().init_failed {
            1nat
        } else {
            0nat
        }
    }
}

/// The ids of a registry, in order.
pub open spec fn ids_of(registry: Seq<RecordView>) -> Seq<Seq<char>> {
    Seq::new(registry.len(), |i: int| registry[i].id)
}

/// Two registries with the same failure marks count the same failures.
proof fn lemma_failures_by_marks(a: Seq<RecordView>, b: Seq<RecordView>)
    requires
        a.len() == b.len(),
        forall|i: int| 0 <= i < a.len() ==> (#[trigger] a[i]).init_failed == b[i].init_failed,
    ensures
        failures(a) == failures(b),
    decreases a.len(),
{
    if a.len() > 0 {
        lemma_failures_by_marks(a.drop_last(), b.drop_last());
    }
}

/// Where an agent stands, as the registry records it.
#[derive(Clone, Copy, Debug, PartialEq, Eq, Structural)]
pub struct AgentStanding {
    pub state: LifecycleState,
    pub init_failed: bool,
    pub shutdown_failed: bool,
}

/// One agent's own report within a consolidated health report.
#[derive(Debug)]
pub struct HealthReport {
    pub agent_id: String,
    pub health: AgentHealth,
}

/// What one agent says it can handle.
#[derive(Debug)]
pub struct AgentCapabilities {
    pub agent_id: String,
    pub capabilities: Vec<String>,
}

/// What became of one message taken off the bus.
#[derive(Debug)]
pub enum BusStep {
    /// The router routed it.
    Routed(RouteStep),
    /// The router planned its broadcast.
    Broadcast(Vec<Delivery>),
    /// A health-check marker: there is nothing to deliver.
    HealthCheck,
}

/// A copy of a list of strings.
fn clone_strings(list: &Vec<String>) -> (copy: Vec<String>)
    ensures
        string_views(copy@) == string_views(list@),
{
    let mut copy: Vec<String> = Vec::new();
    let mut i: usize = 0;
    while i < list.len()
        invariant
            i <= list.len(),
            copy@.len() == i,
            forall|k: int| 0 <= k < i ==> (#[trigger] copy@[k])@ == list@[k]@,
        decreases list.len() - i,
    {
        copy.push(list[i].clone());
        i += 1;
    }
    proof {
        assert(string_views(copy@) =~= string_views(list@));
    }
    copy
}

pub struct SwarmOrchestrator<A: Agent> {
    agents: Vec<AgentRecord<A>>,
    mcp_server: MCPServer,
    message_bus: Option<Vec<SwarmMessage>>,
    orchestrator_stats: OrchestratorStats,
}

impl<A: Agent> SwarmOrchestrator<A> {
    /// No id is registered twice, and the router's books are in order.
    pub closed spec fn wf(&self) -> bool {
        &&& distinct_ids(record_views(self.agents@))
        &&& self.mcp_server.wf()
    }

    /// The registry, in the order of first registration.
    pub closed spec fn registry(&self) -> Seq<RecordView> {
        record_views(self.agents@)
    }

    /// The agents themselves, each at the place of its record.
    pub closed spec fn agents(&self) -> Seq<A> {
        Seq::new(self.agents@.len(), |i: int| self.agents@[i].agent)
    }

    /// What waits on the bus, oldest first; `None` before the bus is set up.
    pub closed spec fn bus(&self) -> Option<Seq<SwarmMessageView>> {
        match self.message_bus {
            Some(queue) => Some(bus_views(queue@)),
            None => None,
        }
    }

    pub closed spec fn stats(&self) -> OrchestratorStats {
        self.orchestrator_stats
    }

    /// The orchestrator's router.
    pub closed spec fn server(&self) -> MCPServer {
        self.mcp_server
    }

    pub fn new() -> (orchestrator: SwarmOrchestrator<A>)
        ensures
            orchestrator.wf(),
            orchestrator.registry() == Seq::<RecordView>::empty(),
            orchestrator.agents() == Seq::<A>::empty(),
            orchestrator.bus() is None,
            orchestrator.stats() == no_activity(),
            orchestrator.server().id() == SWARM_SERVER_ID@,
            orchestrator.server().clients() == no_entries(),
            orchestrator.server().history() == Seq::<MessageView>::empty(),
            orchestrator.server().awaiting() == 0,
    {
        let orchestrator = SwarmOrchestrator {
            agents: Vec::new(),
            mcp_server: MCPServer::new(SWARM_SERVER_ID),
            message_bus: None,
            orchestrator_stats: OrchestratorStats::default(),
        };
        proof {
            assert(orchestrator.registry() =~= Seq::<RecordView>::empty());
            assert(orchestrator.agents() =~= Seq::<A>::empty());
        }
        orchestrator
    }

    /// The place of the agent `agent_id` in the registry, if it is
    /// registered.
    pub fn position_of(&self, agent_id: &String) -> (place: Option<usize>)
        requires
            self.wf(),
        ensures
            place is Some <==> knows(self.registry(), agent_id@),
            place matches Some(i) ==> i as int == place_of(self.registry(), agent_id@) && i
                < self.registry().len(),
    {
        let mut i: usize = 0;
        while i < self.agents.len()
            invariant
                self.wf(),
                i <= self.agents.len(),
                forall|k: int| 0 <= k < i ==> (#[trigger] record_views(self.agents@)[k]).id != agent_id@,
            decreases self.agents.len() - i,
        {
            if self.agents[i].id == *agent_id {
                proof {
                    let registry = self.registry();
                    assert(registry[i as int].id == agent_id@);
                    let chosen = place_of(registry, agent_id@);
                    assert(0 <= chosen < registry.len() && registry[chosen].id == agent_id@);
                    if chosen < i {
                        assert(registry[chosen].id != registry[i as int].id);
                    }
                    if chosen > i {
                        assert(registry[i as int].id != registry[chosen].id);
                    }
                }
                return Some(i);
            }
            i += 1;
        }
        None
    }

    /// Registers `agent` under the id and with the capabilities that it
    /// reports of itself, in place of an agent registered under that id
    /// before.
    pub fn register(&mut self, agent: A)
        requires
            old(self).wf(),
            old(self).stats().registered_agents < u64::MAX,
        ensures
            final(self).wf(),
            exists|id: Seq<char>, capabilities: Seq<Seq<char>>|
                {
                    &&& agent.is_named(id)
                    &&& agent.offers(capabilities)
                    &&& final(self).registry() == with_registration(
                        old(self).registry(),
                        #[trigger] fresh_record(id, capabilities),
                    )
                    &&& final(self).agents() == with_agent(old(self).registry(), old(self).agents(), id, agent)
                },
            final(self).stats() == (OrchestratorStats {
                registered_agents: (old(self).stats().registered_agents + 1) as u64,
                ..old(self).stats()
            }),
            final(self).bus() == old(self).bus(),
            final(self).server() == old(self).server(),
    {
        let agent_id = agent.id().to_owned();
        let capabilities = agent.capabilities();
        let ghost record = fresh_record(agent_id@, string_views(capabilities@));
        self.register_as(agent_id, capabilities, agent);
        proof {
            assert(self.registry() == with_registration(old(self).registry(), record));
            assert(self.agents() == with_agent(old(self).registry(), old(self).agents(), record.id, agent));
        }
    }

    /// Registers `agent` under `agent_id` with the given capabilities. An
    /// agent registered under that id before is replaced; the count of
    /// registrations goes up by one either way.
    pub fn register_as(&mut self, agent_id: String, capabilities: Vec<String>, agent: A)
        requires
            old(self).wf(),
            old(self).stats().registered_agents < u64::MAX,
        ensures
            final(self).wf(),
            final(self).registry() == with_registration(
                old(self).registry(),
                fresh_record(agent_id@, string_views(capabilities@)),
            ),
            final(self).agents() == with_agent(old(self).registry(), old(self).agents(), agent_id@, agent),
            final(self).stats() == (OrchestratorStats {
                registered_agents: (old(self).stats().registered_agents + 1) as u64,
                ..old(self).stats()
            }),
            final(self).bus() == old(self).bus(),
            final(self).server() == old(self).server(),
    {
        let place = self.position_of(&agent_id);
        let ghost before = self.registry();
        let ghost held = self.agents();
        let ghost fresh = fresh_record(agent_id@, string_views(capabilities@));
        let record = AgentRecord {
            id: agent_id,
            capabilities,
            state: LifecycleState::Registered,
            init_failed: false,
            shutdown_failed: false,
            agent,
        };
        match place {
            Some(i) => {
                self.agents[i] = record;
                proof {
                    assert(self.registry() =~= before.update(i as int, fresh));
                    assert(self.agents() =~= held.update(i as int, agent));
                }
            },
            None => {
                self.agents.push(record);
                proof {
                    assert(self.registry() =~= before.push(fresh));
                    assert(self.agents() =~= held.push(agent));
                }
            },
        }
        self.orchestrator_stats.registered_agents = self.orchestrator_stats.registered_agents + 1;
    }

    /// Sets up the bus, empty. Messages put on an earlier bus and not yet
    /// taken off are discarded with it.
    pub fn initialize_message_bus(&mut self)
        ensures
            final(self).bus() == Some(Seq::<SwarmMessageView>::empty()),
            final(self).registry() == old(self).registry(),
            final(self).agents() == old(self).agents(),
            final(self).stats() == old(self).stats(),
            final(self).server() == old(self).server(),
            old(self).wf() ==> final(self).wf(),
    {
        self.message_bus = Some(Vec::new());
        proof {
            assert(self.bus()->0 =~= Seq::<SwarmMessageView>::empty());
        }
    }

    /// Puts `message` on the bus, behind what waits there. Without a bus the
    /// message is lost.
    fn publish(&mut self, message: SwarmMessage)
        ensures
            final(self).bus() == with_bus_message(old(self).bus(), message@),
            final(self).registry() == old(self).registry(),
            final(self).agents() == old(self).agents(),
            final(self).stats() == old(self).stats(),
            final(self).server() == old(self).server(),
            old(self).wf() ==> final(self).wf(),
    {
        let ghost before = self.bus();
        match &mut self.message_bus {
            Some(queue) => {
                queue.push(message);
            },
            None => {},
        }
        proof {
            if before is Some {
                assert(self.bus()->0 =~= before->0.push(message@));
            }
        }
    }

    /// Books the response of an agent to a message that was handed to it:
    /// one more message is processed, and the reply goes on the bus to be
    /// routed back.
    pub fn record_response(&mut self, response: MCPResponseMessage)
        requires
            old(self).stats().messages_processed < u64::MAX,
        ensures
            final(self).bus() == with_bus_message(old(self).bus(), SwarmMessageView::Route(response@.message)),
            final(self).registry() == old(self).registry(),
            final(self).agents() == old(self).agents(),
            final(self).stats() == (OrchestratorStats {
                messages_processed: (old(self).stats().messages_processed + 1) as u64,
                ..old(self).stats()
            }),
            final(self).server() == old(self).server(),
            old(self).wf() ==> final(self).wf(),
    {
        self.orchestrator_stats.messages_processed = self.orchestrator_stats.messages_processed + 1;
        self.publish(SwarmMessage::Route(response.message));
    }

    /// Hands `msg` to the agent it is addressed to and says whether there
    /// was one.
    ///
    /// A registered agent, whatever its state, gets the message through its
    /// `handle`, once. What that agent answers is booked as `record_response`
    /// books it: one more message is processed, and the reply goes on the
    /// bus. No other agent is touched. For an unknown recipient one routing
    /// error is counted and nothing else changes.
    pub fn route_message(&mut self, msg: MCPMessage) -> (handled: bool)
        requires
            old(self).wf(),
            old(self).stats().messages_processed < u64::MAX,
            old(self).stats().routing_errors < u64::MAX,
        ensures
            final(self).wf(),
            handled == knows(old(self).registry(), msg@.recipient),
            final(self).registry() == old(self).registry(),
            final(self).server() == old(self).server(),
            final(self).agents().len() == old(self).agents().len(),
            forall|j: int|
                0 <= j < old(self).agents().len() && !(handled && j == place_of(
                    old(self).registry(),
                    msg@.recipient,
                )) ==> #[trigger] final(self).agents()[j] == old(self).agents()[j],
            handled ==> final(self).stats() == (OrchestratorStats {
                messages_processed: (old(self).stats().messages_processed + 1) as u64,
                ..old(self).stats()
            }),
            handled ==> exists|response: ResponseView|
                {
                    &&& #[trigger] gave(
                        old(self).agents()[place_of(old(self).registry(), msg@.recipient)],
                        msg@,
                        response,
                        final(self).agents()[place_of(old(self).registry(), msg@.recipient)],
                    )
                    &&& final(self).bus() == with_bus_message(
                        old(self).bus(),
                        SwarmMessageView::Route(response.message),
                    )
                },
            !handled ==> final(self).bus() == old(self).bus() && final(self).stats() == (OrchestratorStats {
                routing_errors: (old(self).stats().routing_errors + 1) as u64,
                ..old(self).stats()
            }),
    {
        let ghost before = self.registry();
        let ghost held = self.agents();
        match self.position_of(&msg.recipient) {
            Some(i) => {
                let response = self.agents[i].agent.handle(msg);
                let ghost answer = response@;
                proof {
                    assert(self.registry() =~= before);
                    assert(gave(held[i as int], msg@, answer, self.agents()[i as int]));
                }
                self.record_response(response);
                proof {
                    assert(i as int == place_of(old(self).registry(), msg@.recipient));
                    assert(gave(held[i as int], msg@, answer, self.agents()[i as int]));
                    assert(self.bus() == with_bus_message(old(self).bus(), SwarmMessageView::Route(answer.message)));
                }
                true
            },
            None => {
                self.orchestrator_stats.routing_errors = self.orchestrator_stats.routing_errors + 1;
                false
            },
        }
    }

    /// Puts `msg` on the bus for broadcast to every client of the router.
    pub fn broadcast_to_agents(&mut self, msg: MCPMessage)
        ensures
            final(self).bus() == with_bus_message(old(self).bus(), SwarmMessageView::Broadcast(msg@)),
            final(self).registry() == old(self).registry(),
            final(self).agents() == old(self).agents(),
            final(self).stats() == old(self).stats(),
            final(self).server() == old(self).server(),
            old(self).wf() ==> final(self).wf(),
    {
        self.publish(SwarmMessage::Broadcast(msg));
    }

    /// Counts one tick of the main loop and says whether a consolidated
    /// health report is due at it.
    pub fn tick(&mut self) -> (report_due: bool)
        requires
            old(self).stats().loop_iterations < u64::MAX,
        ensures
            final(self).stats() == (OrchestratorStats {
                loop_iterations: (old(self).stats().loop_iterations + 1) as u64,
                ..old(self).stats()
            }),
            report_due == (final(self).stats().loop_iterations % HEALTH_REPORT_EVERY == 0),
            final(self).registry() == old(self).registry(),
            final(self).agents() == old(self).agents(),
            final(self).bus() == old(self).bus(),
            final(self).server() == old(self).server(),
            old(self).wf() ==> final(self).wf(),
    {
        self.orchestrator_stats.loop_iterations = self.orchestrator_stats.loop_iterations + 1;
        self.orchestrator_stats.loop_iterations % HEALTH_REPORT_EVERY == 0
    }

    /// Books the outcome of the `initialize` of the agent at `place`.
    pub fn record_initialization(&mut self, place: usize, succeeded: bool)
        requires
            old(self).wf(),
            place < old(self).registry().len(),
            old(self).stats().initialized_agents < u64::MAX,
            old(self).stats().failed_initializations < u64::MAX,
        ensures
            final(self).wf(),
            final(self).registry() == old(self).registry().update(
                place as int,
                after_initialization(old(self).registry()[place as int], succeeded),
            ),
            final(self).agents() == old(self).agents(),
            succeeded ==> final(self).stats() == (OrchestratorStats {
                initialized_agents: (old(self).stats().initialized_agents + 1) as u64,
                ..old(self).stats()
            }),
            !succeeded ==> final(self).stats() == (OrchestratorStats {
                failed_initializations: (old(self).stats().failed_initializations + 1) as u64,
                ..old(self).stats()
            }),
            final(self).bus() == old(self).bus(),
            final(self).server() == old(self).server(),
    {
        let ghost before = self.registry();
        let ghost held = self.agents();
        if succeeded {
            if self.agents[place].state == LifecycleState::Registered {
                self.agents[place].state = LifecycleState::Initialized;
            }
            self.agents[place].init_failed = false;
            self.orchestrator_stats.initialized_agents = self.orchestrator_stats.initialized_agents + 1;
        } else {
            self.agents[place].init_failed = true;
            self.orchestrator_stats.failed_initializations = self.orchestrator_stats.failed_initializations
                + 1;
        }
        proof {
            assert(self.registry() =~= before.update(
                place as int,
                after_initialization(before[place as int], succeeded),
            ));
            assert(self.agents() =~= held);
        }
    }

    /// Calls `initialize` on every agent, in the order of the registry, and
    /// books each outcome. The failure of one agent stops nothing: the
    /// agents after it are initialized all the same, and the agent that
    /// failed stays registered. An agent is booked as failed only where it
    /// may fail.
    pub fn initialize_agents(&mut self)
        requires
            old(self).wf(),
            old(self).stats().initialized_agents + old(self).registry().len() <= u64::MAX,
            old(self).stats().failed_initializations + old(self).registry().len() <= u64::MAX,
        ensures
            final(self).wf(),
            final(self).registry().len() == old(self).registry().len(),
            final(self).agents().len() == old(self).agents().len(),
            forall|i: int|
                0 <= i < old(self).registry().len() ==> #[trigger] final(self).registry()[i]
                    == after_initialization(old(self).registry()[i], !final(self).registry()[i].init_failed),
            forall|i: int|
                0 <= i < old(self).registry().len() && (#[trigger] final(self).registry()[i]).init_failed
                    ==> old(self).agents()[i].initialize_can_fail(),
            failures(final(self).registry()) <= old(self).registry().len(),
            final(self).stats() == (OrchestratorStats {
                initialized_agents: (old(self).stats().initialized_agents + old(self).registry().len()
                    - failures(final(self).registry())) as u64,
                failed_initializations: (old(self).stats().failed_initializations + failures(
                    final(self).registry(),
                )) as u64,
                ..old(self).stats()
            }),
            final(self).bus() == old(self).bus(),
            final(self).server() == old(self).server(),
    {
        let ghost before = self.registry();
        let total = self.agents.len();
        let mut i: usize = 0;
        while i < total
            invariant
                self.wf(),
                before == old(self).registry(),
                total == before.len(),
                self.registry().len() == total,
                self.agents().len() == total,
                i <= total,
                old(self).stats().initialized_agents + total <= u64::MAX,
                old(self).stats().failed_initializations + total <= u64::MAX,
                forall|k: int|
                    0 <= k < i ==> #[trigger] self.registry()[k] == after_initialization(
                        before[k],
                        !self.registry()[k].init_failed,
                    ),
                forall|k: int| i <= k < total ==> #[trigger] self.registry()[k] == before[k],
                forall|k: int| i <= k < total ==> #[trigger] self.agents()[k] == old(self).agents()[k],
                forall|k: int|
                    0 <= k < i && (#[trigger] self.registry()[k]).init_failed
                        ==> old(self).agents()[k].initialize_can_fail(),
                failures(self.registry().take(i as int)) <= i,
                self.stats() == (OrchestratorStats {
                    initialized_agents: (old(self).stats().initialized_agents + i - failures(
                        self.registry().take(i as int),
                    )) as u64,
                    failed_initializations: (old(self).stats().failed_initializations + failures(
                        self.registry().take(i as int),
                    )) as u64,
                    ..old(self).stats()
                }),
                self.bus() == old(self).bus(),
                self.server() == old(self).server(),
            decreases total - i,
        {
            let ghost current = self.registry();
            let ghost held = self.agents();
            let outcome = self.agents[i].agent.initialize();
            proof {
                assert(self.registry() =~= current);
                assert forall|k: int| i < k < total implies #[trigger] self.agents()[k] == held[k] by {}
                assert(outcome is Err ==> held[i as int].initialize_can_fail());
            }
            self.record_initialization(i, outcome.is_ok());
            proof {
                let next = self.registry();
                assert(next.take(i + 1).drop_last() =~= current.take(i as int));
                assert(next.take(i + 1).last() == next[i as int]);
            }
            i += 1;
        }
        proof {
            assert(self.registry().take(total as int) =~= self.registry());
        }
    }

    /// Takes every initialized agent into the running state.
    fn enter_running(&mut self)
        requires
            old(self).wf(),
        ensures
            final(self).wf(),
            final(self).registry().len() == old(self).registry().len(),
            forall|i: int|
                0 <= i < old(self).registry().len() ==> #[trigger] final(self).registry()[i] == started(
                    old(self).registry()[i],
                ),
            final(self).agents() == old(self).agents(),
            final(self).stats() == old(self).stats(),
            final(self).bus() == old(self).bus(),
            final(self).server() == old(self).server(),
    {
        let ghost before = self.registry();
        let total = self.agents.len();
        let mut i: usize = 0;
        while i < total
            invariant
                self.wf(),
                total == before.len(),
                self.registry().len() == total,
                i <= total,
                forall|k: int| 0 <= k < i ==> #[trigger] self.registry()[k] == started(before[k]),
                forall|k: int| i <= k < total ==> #[trigger] self.registry()[k] == before[k],
                self.agents() == old(self).agents(),
                self.stats() == old(self).stats(),
                self.bus() == old(self).bus(),
                self.server() == old(self).server(),
            decreases total - i,
        {
            let ghost current = self.registry();
            let ghost held = self.agents();
            if self.agents[i].state == LifecycleState::Initialized {
                self.agents[i].state = LifecycleState::Running;
            }
            proof {
                assert(self.registry() =~= current.update(i as int, started(current[i as int])));
                assert(self.agents() =~= held);
            }
            i += 1;
        }
    }

    /// Starts the swarm up: sets up the bus, initializes every agent as
    /// `initialize_agents` does, and takes the initialized agents into the
    /// running state. It hands back the ids of the agents whose health is to
    /// be checked from now on: all of them, in the order of the registry.
    pub fn run(&mut self) -> (monitored: Vec<String>)
        requires
            old(self).wf(),
            old(self).stats().initialized_agents + old(self).registry().len() <= u64::MAX,
            old(self).stats().failed_initializations + old(self).registry().len() <= u64::MAX,
        ensures
            final(self).wf(),
            final(self).bus() == Some(Seq::<SwarmMessageView>::empty()),
            final(self).registry().len() == old(self).registry().len(),
            final(self).agents().len() == old(self).agents().len(),
            forall|i: int|
                0 <= i < old(self).registry().len() ==> #[trigger] final(self).registry()[i] == started(
                    after_initialization(old(self).registry()[i], !final(self).registry()[i].init_failed),
                ),
            forall|i: int|
                0 <= i < old(self).registry().len() && (#[trigger] final(self).registry()[i]).init_failed
                    ==> old(self).agents()[i].initialize_can_fail(),
            failures(final(self).registry()) <= old(self).registry().len(),
            final(self).stats() == (OrchestratorStats {
                initialized_agents: (old(self).stats().initialized_agents + old(self).registry().len()
                    - failures(final(self).registry())) as u64,
                failed_initializations: (old(self).stats().failed_initializations + failures(
                    final(self).registry(),
                )) as u64,
                ..old(self).stats()
            }),
            final(self).server() == old(self).server(),
            monitored@.len() == old(self).registry().len(),
            string_views(monitored@) == ids_of(final(self).registry()),
    {
        self.initialize_message_bus();
        self.initialize_agents();
        let ghost initialized = self.registry();
        self.enter_running();
        proof {
            lemma_failures_by_marks(initialized, self.registry());
        }
        self.start_health_monitoring()
    }

    /// The ids of the agents whose health is to be checked at every
    /// interval: all of them, in the order of the registry.
    pub fn start_health_monitoring(&self) -> (monitored: Vec<String>)
        ensures
            monitored@.len() == self.registry().len(),
            string_views(monitored@) == ids_of(self.registry()),
    {
        let mut monitored: Vec<String> = Vec::new();
        let mut i: usize = 0;
        while i < self.agents.len()
            invariant
                i <= self.agents.len(),
                monitored@.len() == i,
                forall|k: int| 0 <= k < i ==> (#[trigger] monitored@[k])@ == self.registry()[k].id,
            decreases self.agents.len() - i,
        {
            monitored.push(self.agents[i].id.clone());
            i += 1;
        }
        proof {
            assert(string_views(monitored@) =~= ids_of(self.registry()));
        }
        monitored
    }

    /// Where the agent `agent_id` stands in its life, and whether its last
    /// initialization and its shutdown failed; `None` where no such agent is
    /// registered.
    pub fn standing_of(&self, agent_id: &String) -> (standing: Option<AgentStanding>)
        requires
            self.wf(),
        ensures
            standing is Some <==> knows(self.registry(), agent_id@),
            standing matches Some(s) ==> {
                let record = self.registry()[place_of(self.registry(), agent_id@)];
                s.state == record.state && s.init_failed == record.init_failed && s.shutdown_failed
                    == record.shutdown_failed
            },
    {
        match self.position_of(agent_id) {
            Some(i) => Some(
                AgentStanding {
                    state: self.agents[i].state,
                    init_failed: self.agents[i].init_failed,
                    shutdown_failed: self.agents[i].shutdown_failed,
                },
            ),
            None => None,
        }
    }

    /// Asks the agent `agent_id` how it is doing. There is an answer exactly
    /// where the agent is registered, and it is one that this agent may
    /// give.
    pub fn check_agent_health(&self, agent_id: &String) -> (report: Option<AgentHealth>)
        requires
            self.wf(),
        ensures
            report is Some <==> knows(self.registry(), agent_id@),
            report matches Some(health) ==> self.agents()[place_of(self.registry(), agent_id@)].reports(
                health.status,
                health.message@,
            ),
    {
        match self.position_of(agent_id) {
            Some(i) => Some(self.agents[i].agent.health_check()),
            None => None,
        }
    }

    /// The consolidated health report: every agent's own report, in the
    /// order of the registry.
    pub fn log_agent_health(&self) -> (reports: Vec<HealthReport>)
        ensures
            reports@.len() == self.registry().len(),
            forall|i: int|
                0 <= i < reports@.len() ==> (#[trigger] reports@[i]).agent_id@ == self.registry()[i].id
                    && self.agents()[i].reports(reports@[i].health.status, reports@[i].health.message@),
    {
        let mut reports: Vec<HealthReport> = Vec::new();
        let mut i: usize = 0;
        while i < self.agents.len()
            invariant
                i <= self.agents.len(),
                reports@.len() == i,
                forall|k: int|
                    0 <= k < i ==> (#[trigger] reports@[k]).agent_id@ == self.registry()[k].id
                        && self.agents()[k].reports(reports@[k].health.status, reports@[k].health.message@),
            decreases self.agents.len() - i,
        {
            let health = self.agents[i].agent.health_check();
            reports.push(HealthReport { agent_id: self.agents[i].id.clone(), health });
            i += 1;
        }
        reports
    }

    /// What each agent said it can handle when it was registered, in the
    /// order of the registry.
    pub fn get_agent_capabilities(&self) -> (list: Vec<AgentCapabilities>)
        ensures
            list@.len() == self.registry().len(),
            forall|i: int|
                0 <= i < list@.len() ==> (#[trigger] list@[i]).agent_id@ == self.registry()[i].id
                    && string_views(list@[i].capabilities@) == self.registry()[i].capabilities,
    {
        let mut list: Vec<AgentCapabilities> = Vec::new();
        let mut i: usize = 0;
        while i < self.agents.len()
            invariant
                i <= self.agents.len(),
                list@.len() == i,
                forall|k: int|
                    0 <= k < i ==> (#[trigger] list@[k]).agent_id@ == self.registry()[k].id && string_views(
                        list@[k].capabilities@,
                    ) == self.registry()[k].capabilities,
            decreases self.agents.len() - i,
        {
            list.push(
                AgentCapabilities {
                    agent_id: self.agents[i].id.clone(),
                    capabilities: clone_strings(&self.agents[i].capabilities),
                },
            );
            i += 1;
        }
        list
    }

    /// Books the outcome of the `shutdown` of the agent at `place`: the agent
    /// counts as shut down whether or not it succeeded, and a failure is
    /// noted in its record.
    pub fn record_shutdown(&mut self, place: usize, succeeded: bool)
        requires
            old(self).wf(),
            place < old(self).registry().len(),
        ensures
            final(self).wf(),
            final(self).registry() == old(self).registry().update(
                place as int,
                after_shutdown(old(self).registry()[place as int], succeeded),
            ),
            final(self).agents() == old(self).agents(),
            final(self).stats() == old(self).stats(),
            final(self).bus() == old(self).bus(),
            final(self).server() == old(self).server(),
    {
        let ghost before = self.registry();
        let ghost held = self.agents();
        self.agents[place].state = LifecycleState::ShutDown;
        self.agents[place].shutdown_failed = !succeeded;
        proof {
            assert(self.registry() =~= before.update(
                place as int,
                after_shutdown(before[place as int], succeeded),
            ));
            assert(self.agents() =~= held);
        }
    }

    /// Calls `shutdown` on every agent, in the order of the registry, and
    /// books each outcome as `record_shutdown` does. The failure of one
    /// agent stops nothing. It hands back how many failed.
    pub fn shutdown(&mut self) -> (failed: usize)
        requires
            old(self).wf(),
        ensures
            final(self).wf(),
            final(self).registry().len() == old(self).registry().len(),
            final(self).agents().len() == old(self).agents().len(),
            forall|i: int|
                0 <= i < old(self).registry().len() ==> #[trigger] final(self).registry()[i]
                    == after_shutdown(old(self).registry()[i], !final(self).registry()[i].shutdown_failed),
            forall|i: int|
                0 <= i < old(self).registry().len() && (#[trigger] final(self).registry()[i]).shutdown_failed
                    ==> old(self).agents()[i].shutdown_can_fail(),
            failed == shutdown_failures(final(self).registry()),
            failed <= old(self).registry().len(),
            final(self).stats() == old(self).stats(),
            final(self).bus() == old(self).bus(),
            final(self).server() == old(self).server(),
    {
        let ghost before = self.registry();
        let total = self.agents.len();
        let mut failed: usize = 0;
        let mut i: usize = 0;
        while i < total
            invariant
                self.wf(),
                total == before.len(),
                self.registry().len() == total,
                self.agents().len() == total,
                i <= total,
                failed <= i,
                failed == shutdown_failures(self.registry().take(i as int)),
                forall|k: int|
                    0 <= k < i ==> #[trigger] self.registry()[k] == after_shutdown(
                        before[k],
                        !self.registry()[k].shutdown_failed,
                    ),
                forall|k: int| i <= k < total ==> #[trigger] self.registry()[k] == before[k],
                forall|k: int| i <= k < total ==> #[trigger] self.agents()[k] == old(self).agents()[k],
                forall|k: int|
                    0 <= k < i && (#[trigger] self.registry()[k]).shutdown_failed
                        ==> old(self).agents()[k].shutdown_can_fail(),
                self.stats() == old(self).stats(),
                self.bus() == old(self).bus(),
                self.server() == old(self).server(),
            decreases total - i,
        {
            let ghost current = self.registry();
            let ghost held = self.agents();
            let outcome = self.agents[i].agent.shutdown();
            proof {
                assert(self.registry() =~= current);
                assert forall|k: int| i < k < total implies #[trigger] self.agents()[k] == held[k] by {}
                assert(outcome is Err ==> held[i as int].shutdown_can_fail());
            }
            let succeeded = outcome.is_ok();
            self.record_shutdown(i, succeeded);
            if !succeeded {
                failed += 1;
            }
            proof {
                let next = self.registry();
                assert(next.take(i + 1).drop_last() =~= current.take(i as int));
                assert(next.take(i + 1).last() == next[i as int]);
            }
            i += 1;
        }
        proof {
            assert(self.registry().take(total as int) =~= self.registry());
        }
        failed
    }

    /// Registers a client with the router, as `MCPServer::register_client`
    /// does.
    pub fn register_client(&mut self, client_id: String, channel: u64)
        requires
            old(self).wf(),
        ensures
            final(self).wf(),
            final(self).server().clients() == old(self).server().clients().insert(client_id@, channel),
            final(self).server().stats() == (ServerStats {
                active_clients: final(self).server().clients().len() as u64,
                ..old(self).server().stats()
            }),
            final(self).server().history() == old(self).server().history(),
            final(self).server().awaiting() == old(self).server().awaiting(),
            final(self).registry() == old(self).registry(),
            final(self).agents() == old(self).agents(),
            final(self).stats() == old(self).stats(),
            final(self).bus() == old(self).bus(),
    {
        self.mcp_server.register_client(client_id, channel);
    }

    /// Removes a client from the router, as `MCPServer::unregister_client`
    /// does.
    pub fn unregister_client(&mut self, client_id: &str)
        requires
            old(self).wf(),
        ensures
            final(self).wf(),
            final(self).server().clients() == old(self).server().clients().remove(client_id@),
            final(self).server().stats() == (ServerStats {
                active_clients: final(self).server().clients().len() as u64,
                ..old(self).server().stats()
            }),
            final(self).server().history() == old(self).server().history(),
            final(self).server().awaiting() == old(self).server().awaiting(),
            final(self).registry() == old(self).registry(),
            final(self).agents() == old(self).agents(),
            final(self).stats() == old(self).stats(),
            final(self).bus() == old(self).bus(),
    {
        self.mcp_server.unregister_client(client_id);
    }

    /// Takes the oldest message off the bus, if one waits there.
    pub fn take_bus_message(&mut self) -> (message: Option<SwarmMessage>)
        ensures
            match old(self).bus() {
                Some(queue) if queue.len() > 0 => {
                    &&& message matches Some(m) && m@ == queue[0]
                    &&& final(self).bus() == Some(queue.drop_first())
                },
                _ => message is None && final(self).bus() == old(self).bus(),
            },
            final(self).registry() == old(self).registry(),
            final(self).agents() == old(self).agents(),
            final(self).stats() == old(self).stats(),
            final(self).server() == old(self).server(),
            old(self).wf() ==> final(self).wf(),
    {
        let ghost before = self.bus();
        let message = match &mut self.message_bus {
            Some(queue) => {
                if queue.len() > 0 {
                    Some(queue.remove(0))
                } else {
                    None
                }
            },
            None => None,
        };
        proof {
            if message is Some {
                assert(self.bus()->0 =~= before->0.drop_first());
            }
        }
        message
    }

    /// Has the router deal with one message from the bus, as of `now`: a
    /// message to route is routed as `MCPServer::route_message_at` routes
    /// it, a message to broadcast is planned as
    /// `MCPServer::broadcast_message_at` plans it, and a health-check marker
    /// leaves everything as it is.
    pub fn deliver_bus_message_at(&mut self, message: SwarmMessage, now: Timestamp) -> (step: BusStep)
        requires
            old(self).wf(),
        ensures
            final(self).wf(),
            final(self).registry() == old(self).registry(),
            final(self).agents() == old(self).agents(),
            final(self).stats() == old(self).stats(),
            final(self).bus() == old(self).bus(),
            final(self).server().clients() == old(self).server().clients(),
            match message {
                SwarmMessage::Route(m) => {
                    &&& step matches BusStep::Routed(r)
                    &&& r is Expired <==> m@.expired_at(now)
                    &&& r is Expired ==> untouched(old(self).server(), final(self).server())
                    &&& !(r is Expired) ==> routed(old(self).server(), m@, r, final(self).server())
                },
                SwarmMessage::Broadcast(m) => {
                    &&& step matches BusStep::Broadcast(planned)
                    &&& final(self).server() == old(self).server()
                    &&& m@.expired_at(now) ==> planned@.len() == 0
                    &&& !m@.expired_at(now) ==> is_broadcast_of(planned@, m@, old(self).server().clients())
                },
                SwarmMessage::HealthCheck => step is HealthCheck && final(self).server() == old(self).server(),
            },
    {
        match message {
            SwarmMessage::Route(m) => BusStep::Routed(self.mcp_server.route_message_at(m, now)),
            SwarmMessage::Broadcast(m) => BusStep::Broadcast(self.mcp_server.broadcast_message_at(m, now)),
            SwarmMessage::HealthCheck => BusStep::HealthCheck,
        }
    }

    /// Has the router deal with one message from the bus as of the current
    /// time on the system clock. Only a message with an expiry can be
    /// dropped as expired; any other is routed, or planned for broadcast, as
    /// `deliver_bus_message_at` says.
    pub fn deliver_bus_message(&mut self, message: SwarmMessage) -> (step: BusStep)
        requires
            old(self).wf(),
        ensures
            final(self).wf(),
            final(self).registry() == old(self).registry(),
            final(self).agents() == old(self).agents(),
            final(self).stats() == old(self).stats(),
            final(self).bus() == old(self).bus(),
            final(self).server().clients() == old(self).server().clients(),
            match message {
                SwarmMessage::Route(m) => {
                    &&& step matches BusStep::Routed(r)
                    &&& r is Expired ==> m@.expires_at is Some
                    &&& r is Expired ==> untouched(old(self).server(), final(self).server())
                    &&& !(r is Expired) ==> routed(old(self).server(), m@, r, final(self).server())
                },
                SwarmMessage::Broadcast(m) => {
                    &&& step matches BusStep::Broadcast(planned)
                    &&& final(self).server() == old(self).server()
                    &&& planned@.len() == 0 && m@.expires_at is Some || is_broadcast_of(
                        planned@,
                        m@,
                        old(self).server().clients(),
                    )
                },
                SwarmMessage::HealthCheck => step is HealthCheck && final(self).server() == old(self).server(),
            },
    {
        let now = current_time();
        self.deliver_bus_message_at(message, now)
    }

    /// Books the outcome of one forward that the router planned, as
    /// `MCPServer::record_delivery` does.
    pub fn record_delivery(&mut self, delivered: bool) -> (outcome: Result<(), RouterError>)
        requires
            old(self).wf(),
            old(self).server().awaiting() > 0,
        ensures
            final(self).wf(),
            final(self).registry() == old(self).registry(),
            final(self).agents() == old(self).agents(),
            final(self).stats() == old(self).stats(),
            final(self).bus() == old(self).bus(),
            final(self).server().clients() == old(self).server().clients(),
            final(self).server().history() == old(self).server().history(),
            final(self).server().awaiting() == old(self).server().awaiting() - 1,
            delivered ==> outcome is Ok && final(self).server().stats() == (ServerStats {
                messages_sent: (old(self).server().stats().messages_sent + 1) as u64,
                ..old(self).server().stats()
            }),
            !delivered ==> outcome == Err::<(), RouterError>(RouterError::SendFailure),
            !delivered ==> final(self).server().stats() == (ServerStats {
                errors: (old(self).server().stats().errors + 1) as u64,
                ..old(self).server().stats()
            }),
    {
        self.mcp_server.record_delivery(delivered)
    }

    /// A snapshot of the router's counts.
    pub fn get_server_stats(&self) -> (stats: ServerStats)
        ensures
            stats == self.server().stats(),
    {
        self.mcp_server.get_stats()
    }

    /// How many forwards the router has planned whose outcome is not booked
    /// yet.
    pub fn awaiting_deliveries(&self) -> (count: usize)
        ensures
            count == self.server().awaiting(),
    {
        self.mcp_server.awaiting_deliveries()
    }

    pub fn get_orchestrator_stats(&self) -> (stats: &OrchestratorStats)
        ensures
            *stats == self.stats(),
    {
        &self.orchestrator_stats
    }
}

/// Starting up removes nobody from the registry: an agent that was
/// registered before is registered afterwards, at the same place, whether
/// its initialization succeeded or failed. A message addressed to it is
/// still handed to it.
pub proof fn started_agents_stay_routable(before: Seq<RecordView>, after: Seq<RecordView>, id: Seq<char>)
    requires
        distinct_ids(before),
        knows(before, id),
        after.len() == before.len(),
        forall|i: int|
            0 <= i < before.len() ==> #[trigger] after[i] == started(
                after_initialization(before[i], !after[i].init_failed),
            ),
    ensures
        distinct_ids(after),
        knows(after, id),
        place_of(after, id) == place_of(before, id),
{
    let place = place_of(before, id);
    assert(after[place].id == id);
    assert forall|i: int, j: int| 0 <= i < j < after.len() implies (#[trigger] after[i]).id != (
    #[trigger] after[j]).id by {
        assert(after[i].id == before[i].id);
        assert(after[j].id == before[j].id);
    }
    let found = place_of(after, id);
    assert(0 <= found < after.len() && after[found].id == id);
    if found < place {
        assert(after[found].id != after[place].id);
    }
    if place < found {
        assert(after[place].id != after[found].id);
    }
}

} // verus!
