//! The mesh actor: the single owner of the network engine. It takes one
//! event at a time, a command from the rest of the node or an event of the
//! network, and answers with the one action that the engine is to perform.
//! The caller drives the engine and the channels; every decision is here.

use vstd::prelude::*;
use crate::psk::{load_key_file, load_preshared_key, LoadError};
use crate::transport::TransportPipeline;

verus! {

/// Interval, in seconds, at which the messaging protocol gossips.
pub const HEARTBEAT_INTERVAL_SECS: u64 = 1;

/// Seconds without activity after which a connection is closed.
pub const IDLE_CONNECTION_TIMEOUT_SECS: u64 = 60;

/// Number of commands that may wait for the actor before senders are held
/// back.
pub const COMMAND_QUEUE_DEPTH: usize = 32;

/// Where the node listens: every interface, on a port that the operating
/// system picks.
pub const LISTEN_ADDRESS: &'static str = "/ip4/0.0.0.0/tcp/0";

/// The sending half of a single-use reply channel.
#[verifier::external_type_specification]
#[verifier::external_body]
#[verifier::reject_recursive_types(T)]
pub struct ExReplySender<T>(tokio::sync::oneshot::Sender<T>);

/// A peer's identifier.
#[verifier::external_type_specification]
#[verifier::external_body]
pub struct ExPeerId(libp2p::PeerId);

/// A network address in multi-address syntax, parsed.
#[verifier::external_type_specification]
#[verifier::external_body]
pub struct ExMultiaddr(libp2p::Multiaddr);

/// What the rest of the node may ask of the mesh.
#[derive(Debug)]
pub enum MeshCommand {
    /// Connect to the peer at this address, given in multi-address syntax.
    Dial(String),
    /// Report the identifiers of the connected peers.
    GetPeers(tokio::sync::oneshot::Sender<Vec<String>>),
    /// Report the local peer identifier.
    GetPeerId(tokio::sync::oneshot::Sender<String>),
}

/// One thing that happened, as the actor sees it.
#[derive(Debug)]
pub enum MeshEvent {
    /// A command arrived.
    Command(MeshCommand),
    /// Every sender of commands is gone.
    CommandsClosed,
    /// The engine listens on a new address.
    NewListenAddr(libp2p::Multiaddr),
    /// Local discovery found peers, each with an address.
    Discovered(Vec<(libp2p::PeerId, libp2p::Multiaddr)>),
    /// A liveness probe completed or failed.
    Liveness,
    /// Any other event of the engine.
    Other,
}

/// What the owner of the engine is to do in answer to an event.
#[derive(Debug)]
pub enum MeshAction {
    /// Nothing.
    Idle,
    /// Dial this address; a failure is of no consequence.
    Dial(String),
    /// Send the identifiers of the connected peers through the channel.
    SendPeers(tokio::sync::oneshot::Sender<Vec<String>>),
    /// Send the identifier through the channel.
    SendPeerId(tokio::sync::oneshot::Sender<String>, String),
    /// Enter each address into the routing table, in this order.
    AddAddresses(Vec<(libp2p::PeerId, libp2p::Multiaddr)>),
    /// Leave the loop.
    Stop,
}

/// Whether a text is a multi-address, as the `multiaddr` parser judges it.
pub uninterp spec fn multiaddr_parses(text: Seq<char>) -> bool;

/// Asks `Multiaddr::from_str` whether `text` parses. The result is the
/// parser's verdict on the text, which depends on the text alone.
#[verifier::external_body]
fn parses_as_multiaddr(text: &str) -> (ok: bool)
    ensures
        ok == multiaddr_parses(text@),
{
    text.parse::<libp2p::Multiaddr>().is_ok()
}

/// The actor's state, as contracts see it.
pub struct MeshView {
    /// Whether the actor still serves events.
    pub running: bool,
    /// The local peer identifier.
    pub peer_id: Seq<char>,
    /// The pre-shared key in use, if one was loaded.
    pub key: Option<Seq<u8>>,
    /// Why no key is in use, if none is.
    pub key_fault: Option<LoadError>,
}

/// The state after an event: the actor stops when the command channel has
/// closed, and nothing else ever changes.
pub open spec fn step(state: MeshView, event: MeshEvent) -> MeshView {
    MeshView { running: state.running && !(event is CommandsClosed), ..state }
}

/// Whether `action` is the answer that the actor owes to `event` in `state`.
pub open spec fn reacts(state: MeshView, event: MeshEvent, action: MeshAction) -> bool {
    if !state.running {
        action is Idle
    } else {
        match event {
            MeshEvent::Command(MeshCommand::Dial(address)) => dial_reaction(
                address,
                multiaddr_parses(address@),
                action,
            ),
            MeshEvent::Command(MeshCommand::GetPeers(reply)) => action == MeshAction::SendPeers(
                reply,
            ),
            MeshEvent::Command(MeshCommand::GetPeerId(reply)) => {
                &&& action matches MeshAction::SendPeerId(channel, id)
                &&& channel == reply
                &&& id@ == state.peer_id
            },
            MeshEvent::CommandsClosed => action is Stop,
            MeshEvent::Discovered(found) => action == MeshAction::AddAddresses(found),
            MeshEvent::NewListenAddr(_) => action is Idle,
            MeshEvent::Liveness => action is Idle,
            MeshEvent::Other => action is Idle,
        }
    }
}

/// Whether `action` is the answer to a request to dial `address`: the
/// address is dialed if it parses, and the request is dropped if not.
pub open spec fn dial_reaction(address: String, parses: bool, action: MeshAction) -> bool {
    if parses {
        action == MeshAction::Dial(address)
    } else {
        action is Idle
    }
}

/// The answer to a request to dial `address`, given the parser's verdict on
/// it.
pub fn dial_action(address: String, parses: bool) -> (action: MeshAction)
    ensures
        dial_reaction(address, parses, action),
{
    if parses {
        MeshAction::Dial(address)
    } else {
        MeshAction::Idle
    }
}

/// The state after a run of events, taken in order.
pub open spec fn run_over(state: MeshView, events: Seq<MeshEvent>) -> MeshView
    decreases events.len(),
{
    if events.len() == 0 {
        state
    } else {
        step(run_over(state, events.drop_last()), events.last())
    }
}

/// The mesh actor.
pub struct MeshNode {
    peer_id: String,
    running: bool,
    pipeline: TransportPipeline,
    key_fault: Option<LoadError>,
}

impl View for MeshNode {
    type V = MeshView;

    closed spec fn view(&self) -> MeshView {
        MeshView {
            running: self.running,
            peer_id: self.peer_id@,
            key: match self.pipeline.gate() {
                Some(key) => Some(key@),
                None => None,
            },
            key_fault: self.key_fault,
        }
    }
}

impl MeshNode {
    /// The node's invariant: its pipeline is well formed, and a key is in
    /// use exactly when loading it did not fail. Every node that exists
    /// meets it.
    #[verifier::type_invariant]
    pub closed spec fn wf(&self) -> bool {
        &&& self.pipeline.wf()
        &&& self.pipeline.gate().is_some() <==> self.key_fault.is_none()
    }

    /// The transport pipeline that the node was started with.
    pub closed spec fn transport(&self) -> TransportPipeline {
        self.pipeline
    }

    /// Starts an actor for the peer `peer_id`, with the key that `key_file`
    /// holds. `None` stands for a key file that could not be read.
    ///
    /// A key that cannot be loaded does not keep the node from starting: it
    /// then runs without the private-network stage, open to every peer, and
    /// remembers why.
    pub fn new(peer_id: String, key_file: Option<&[u8]>) -> (node: Self)
        ensures
            node.wf(),
            node@.running,
            node@.peer_id == peer_id@,
            match load_key_file(
                match key_file {
                    Some(text) => Some(text@),
                    None => None,
                },
            ) {
                Ok(bytes) => node@.key == Some(bytes) && node@.key_fault.is_none(),
                Err(e) => node@.key.is_none() && node@.key_fault == Some(e),
            },
            node.transport().wf(),
            match node.transport().gate() {
                Some(key) => node@.key == Some(key@),
                None => node@.key.is_none(),
            },
    {
        match load_preshared_key(key_file) {
            Ok(key) => MeshNode {
                peer_id,
                running: true,
                pipeline: TransportPipeline::build(Some(key)),
                key_fault: None,
            },
            Err(e) => MeshNode {
                peer_id,
                running: true,
                pipeline: TransportPipeline::build(None),
                key_fault: Some(e),
            },
        }
    }

    /// Whether the actor still serves events.
    pub fn is_running(&self) -> (running: bool)
        ensures
            running == self@.running,
    {
        self.running
    }

    /// The local peer identifier.
    pub fn peer_id(&self) -> (id: &String)
        ensures
            id@ == self@.peer_id,
    {
        &self.peer_id
    }

    /// The transport pipeline, decided when the node was started.
    pub fn pipeline(&self) -> (pipeline: &TransportPipeline)
        ensures
            *pipeline == self.transport(),
            pipeline.wf(),
            match pipeline.gate() {
                Some(key) => self@.key == Some(key@),
                None => self@.key.is_none(),
            },
    {
        proof {
            use_type_invariant(self);
        }
        &self.pipeline
    }

    /// Why the node runs without a pre-shared key, if it does.
    pub fn key_fault(&self) -> (fault: Option<LoadError>)
        ensures
            fault == self@.key_fault,
    {
        self.key_fault
    }

    /// Takes one event and returns the action it calls for.
    ///
    /// A dial request is passed on if its address parses and dropped if not;
    /// requests for the peers or the identifier are answered through their
    /// channel; discovered addresses go to the routing table as they came;
    /// the closing of the command channel stops the actor, and a stopped
    /// actor answers nothing.
    pub fn handle(&mut self, event: MeshEvent) -> (action: MeshAction)
        ensures
            final(self)@ == step(old(self)@, event),
            final(self).transport() == old(self).transport(),
            reacts(old(self)@, event, action),
    {
        proof {
            use_type_invariant(&*self);
        }
        if !self.running {
            return MeshAction::Idle;
        }
        match event {
            MeshEvent::Command(MeshCommand::Dial(address)) => {
                let parses = parses_as_multiaddr(address.as_str());
                dial_action(address, parses)
            },
            MeshEvent::Command(MeshCommand::GetPeers(reply)) => MeshAction::SendPeers(reply),
            MeshEvent::Command(MeshCommand::GetPeerId(reply)) => MeshAction::SendPeerId(
                reply,
                self.peer_id.clone(),
            ),
            MeshEvent::CommandsClosed => {
                self.running = false;
                MeshAction::Stop
            },
            MeshEvent::Discovered(found) => MeshAction::AddAddresses(found),
            MeshEvent::NewListenAddr(_) => MeshAction::Idle,
            MeshEvent::Liveness => MeshAction::Idle,
            MeshEvent::Other => MeshAction::Idle,
        }
    }

    /// Takes a run of events, in order, and returns the action that each
    /// calls for. The closing of the command channel stops the actor; what
    /// comes after it is answered with `Idle`.
    pub fn run(&mut self, events: Vec<MeshEvent>) -> (actions: Vec<MeshAction>)
        ensures
            final(self)@ == run_over(old(self)@, events@),
            final(self).transport() == old(self).transport(),
            actions@.len() == events@.len(),
            forall|i: int|
                0 <= i < events@.len() ==> reacts(
                    run_over(old(self)@, events@.take(i)),
                    events@[i],
                    #[trigger] actions@[i],
                ),
    {
        let ghost all = events@;
        let ghost start = self@;
        let mut actions: Vec<MeshAction> = Vec::new();
        assert(all.take(0) =~= Seq::<MeshEvent>::empty());
        for event in it: events.into_iter()
            invariant
                it.seq() == all,
                self.transport() == old(self).transport(),
                self@ == run_over(start, all.take(it.index() as int)),
                actions@.len() == it.index(),
                forall|i: int|
                    0 <= i < it.index() ==> reacts(
                        run_over(start, all.take(i)),
                        all[i],
                        #[trigger] actions@[i],
                    ),
        {
            let ghost done = it.index() as int;
            let action = self.handle(event);
            actions.push(action);
            proof {
                assert(all.take(done + 1).drop_last() =~= all.take(done));
                assert(all.take(done + 1).last() == all[done]);
            }
        }
        assert(all.take(all.len() as int) =~= all);
        actions
    }
}

/// A run of events changes nothing of the state but whether the actor runs,
/// and it runs afterwards exactly if it ran before and the command channel
/// did not close during the run.
pub proof fn lemma_run_over(state: MeshView, events: Seq<MeshEvent>)
    ensures
        run_over(state, events) == (MeshView {
            running: run_over(state, events).running,
            ..state
        }),
        run_over(state, events).running <==> state.running && forall|i: int|
            0 <= i < events.len() ==> !(#[trigger] events[i] is CommandsClosed),
    decreases events.len(),
{
    if events.len() > 0 {
        let init = events.drop_last();
        lemma_run_over(state, init);
        assert forall|i: int| 0 <= i < init.len() implies init[i] == events[i] by {}
        if run_over(state, events).running {
            assert forall|i: int| 0 <= i < events.len() implies !(#[trigger] events[i]
                is CommandsClosed) by {
                if i < init.len() {
                    assert(init[i] == events[i]);
                }
            }
        }
    }
}

/// The local peer identifier is stable: at any two moments of one actor's
/// life, however many events lie before each, a request for the identifier is
/// answered with the identifier that the actor was started with.
pub proof fn law_peer_id_is_stable(
    start: MeshView,
    earlier: Seq<MeshEvent>,
    later: Seq<MeshEvent>,
    first_reply: tokio::sync::oneshot::Sender<String>,
    second_reply: tokio::sync::oneshot::Sender<String>,
    first: MeshAction,
    second: MeshAction,
)
    requires
        run_over(start, earlier).running,
        run_over(start, later).running,
        reacts(
            run_over(start, earlier),
            MeshEvent::Command(MeshCommand::GetPeerId(first_reply)),
            first,
        ),
        reacts(
            run_over(start, later),
            MeshEvent::Command(MeshCommand::GetPeerId(second_reply)),
            second,
        ),
    ensures
        run_over(start, earlier).peer_id == start.peer_id,
        run_over(start, later).peer_id == start.peer_id,
        first matches MeshAction::SendPeerId(_, id) && id@ == start.peer_id,
        second matches MeshAction::SendPeerId(_, id) && id@ == start.peer_id,
{
    lemma_run_over(start, earlier);
    lemma_run_over(start, later);
}

/// A request to dial never stops the actor and never changes its state,
/// whatever the address: every later event is answered as if the request
/// had not been made. An address that does not parse reaches nobody: the
/// request is answered with `Idle`.
pub proof fn law_dial_leaves_actor_unchanged(
    state: MeshView,
    address: String,
    action: MeshAction,
    later: MeshEvent,
    answer: MeshAction,
)
    requires
        reacts(state, MeshEvent::Command(MeshCommand::Dial(address)), action),
    ensures
        step(state, MeshEvent::Command(MeshCommand::Dial(address))) == state,
        reacts(step(state, MeshEvent::Command(MeshCommand::Dial(address))), later, answer)
            == reacts(state, later, answer),
        !multiaddr_parses(address@) ==> action is Idle,
        state.running && multiaddr_parses(address@) ==> action == MeshAction::Dial(address),
{
}

/// Once every sender of commands is gone the actor stops, by itself and
/// for good: the closing of the channel is answered with `Stop`, nothing
/// else stops the actor, and a stopped actor answers every event with
/// `Idle`.
pub proof fn law_closed_channel_stops(
    state: MeshView,
    events: Seq<MeshEvent>,
    event: MeshEvent,
    action: MeshAction,
)
    requires
        reacts(run_over(state, events), event, action),
    ensures
        !step(state, MeshEvent::CommandsClosed).running,
        !run_over(step(state, MeshEvent::CommandsClosed), events).running,
        run_over(state, events).running <==> state.running && forall|i: int|
            0 <= i < events.len() ==> !(#[trigger] events[i] is CommandsClosed),
        run_over(state, events).running && event is CommandsClosed ==> action is Stop,
        !run_over(state, events).running ==> action is Idle,
        action is Stop ==> event is CommandsClosed,
{
    lemma_run_over(state, events);
    lemma_run_over(step(state, MeshEvent::CommandsClosed), events);
}

} // verus!
