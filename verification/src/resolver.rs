//! Resolves the address of a contract to its interface, from a cache of
//! files or else from the registry.
//!
//! The resolver reads no file and asks no registry itself. It is a state
//! machine: it hands out an action, its caller performs the action and hands
//! back what came of it as an event, and so on until the action is `Finish`.
//!
//! An entry of the cache is the text of an interface as the registry gave it,
//! character for character, in a file named after the address. An entry that
//! is there is served and the registry is not asked; one that is not read as
//! an interface fails the resolution and is not fetched again. What the
//! registry gives is written to the cache before it is served. A cache that
//! cannot be written does not fail the resolution: the result says so beside
//! the interface.

use crate::address::{address_text, lemma_address_text_reads_back, Address};
use crate::interface::{interface_of, parse_interface, FunctionView, InterfaceDefinition};
use crate::registry::{
    interpret_registry_reply, lookup_url, registry_url, reply_outcome, ResolveError,
    ResolveFailure,
};
use crate::text::option_text;
use vstd::prelude::*;

verus! {

/// A resolved interface.
#[derive(Debug, PartialEq, Eq)]
pub struct Resolution {
    pub interface: InterfaceDefinition,
    /// The text of the interface, as the registry gave it.
    pub raw: String,
    /// Why the interface was not written to the cache, if it was not.
    pub cache_write_error: Option<String>,
}

/// A resolved interface as a mathematical value.
pub struct ResolutionView {
    pub interface: Seq<FunctionView>,
    pub raw: Seq<char>,
    pub cache_write_error: Option<Seq<char>>,
}

impl View for Resolution {
    type V = ResolutionView;

    open spec fn view(&self) -> ResolutionView {
        ResolutionView {
            interface: self.interface@,
            raw: self.raw@,
            cache_write_error: option_text(self.cache_write_error),
        }
    }
}

/// What the resolver is waiting for.
#[derive(Debug, PartialEq, Eq)]
pub enum ResolverState {
    /// For the entry of the cache.
    AwaitingCache { contract: String, api_key: String },
    /// For the reply of the registry.
    AwaitingRegistry { file_name: String },
    /// For the directory of the cache to be there.
    AwaitingDirectory { file_name: String, raw: String, interface: InterfaceDefinition },
    /// For the entry to be written.
    AwaitingWrite { raw: String, interface: InterfaceDefinition },
    /// For nothing: the resolution has ended.
    Finished,
}

/// A state as a mathematical value.
pub enum StateView {
    AwaitingCache { contract: Seq<char>, api_key: Seq<char> },
    AwaitingRegistry { file_name: Seq<char> },
    AwaitingDirectory { file_name: Seq<char>, raw: Seq<char>, interface: Seq<FunctionView> },
    AwaitingWrite { raw: Seq<char>, interface: Seq<FunctionView> },
    Finished,
}

impl View for ResolverState {
    type V = StateView;

    open spec fn view(&self) -> StateView {
        match self {
            ResolverState::AwaitingCache { contract, api_key } => StateView::AwaitingCache {
                contract: contract@,
                api_key: api_key@,
            },
            ResolverState::AwaitingRegistry { file_name } => StateView::AwaitingRegistry {
                file_name: file_name@,
            },
            ResolverState::AwaitingDirectory {
                file_name,
                raw,
                interface,
            } => StateView::AwaitingDirectory {
                file_name: file_name@,
                raw: raw@,
                interface: interface@,
            },
            ResolverState::AwaitingWrite { raw, interface } => StateView::AwaitingWrite {
                raw: raw@,
                interface: interface@,
            },
            ResolverState::Finished => StateView::Finished,
        }
    }
}

/// What came of an action.
#[derive(Debug, Clone, PartialEq, Eq)]
pub enum ResolverEvent {
    /// The cache holds an entry. Holds its content.
    CacheFound(String),
    /// The cache holds no entry.
    CacheAbsent,
    /// The cache holds an entry that could not be read.
    CacheUnreadable,
    /// The registry replied. Holds the body of the reply.
    RegistryReplied(String),
    /// The registry could not be reached. Holds what the transport said.
    RegistryUnreachable(String),
    /// The registry did not answer in time.
    RegistryTimedOut,
    /// The directory of the cache is there.
    DirectoryReady,
    /// The directory of the cache could not be made. Holds the reason.
    DirectoryFailed(String),
    /// The entry was written.
    WriteSucceeded,
    /// The entry could not be written. Holds the reason.
    WriteFailed(String),
}

/// An event as a mathematical value.
pub enum EventView {
    CacheFound(Seq<char>),
    CacheAbsent,
    CacheUnreadable,
    RegistryReplied(Seq<char>),
    RegistryUnreachable(Seq<char>),
    RegistryTimedOut,
    DirectoryReady,
    DirectoryFailed(Seq<char>),
    WriteSucceeded,
    WriteFailed(Seq<char>),
}

impl View for ResolverEvent {
    type V = EventView;

    open spec fn view(&self) -> EventView {
        match self {
            ResolverEvent::CacheFound(content) => EventView::CacheFound(content@),
            ResolverEvent::CacheAbsent => EventView::CacheAbsent,
            ResolverEvent::CacheUnreadable => EventView::CacheUnreadable,
            ResolverEvent::RegistryReplied(body) => EventView::RegistryReplied(body@),
            ResolverEvent::RegistryUnreachable(e) => EventView::RegistryUnreachable(e@),
            ResolverEvent::RegistryTimedOut => EventView::RegistryTimedOut,
            ResolverEvent::DirectoryReady => EventView::DirectoryReady,
            ResolverEvent::DirectoryFailed(e) => EventView::DirectoryFailed(e@),
            ResolverEvent::WriteSucceeded => EventView::WriteSucceeded,
            ResolverEvent::WriteFailed(e) => EventView::WriteFailed(e@),
        }
    }
}

/// What the caller of the resolver is to do next.
#[derive(Debug, PartialEq, Eq)]
pub enum ResolverAction {
    /// Read the file of this name in the directory of the cache.
    ReadCache(String),
    /// Ask the registry at this address.
    QueryRegistry(String),
    /// Make the directory of the cache, unless it is there.
    EnsureDirectory,
    /// Write the content to the file of this name in the directory of the
    /// cache.
    WriteCache { file_name: String, content: String },
    /// Nothing more: this is the result.
    Finish(Result<Resolution, ResolveError>),
    /// Nothing: the event was not what the resolver is waiting for.
    Idle,
}

/// An action as a mathematical value.
pub enum ActionView {
    ReadCache(Seq<char>),
    QueryRegistry(Seq<char>),
    EnsureDirectory,
    WriteCache { file_name: Seq<char>, content: Seq<char> },
    Finish(Result<ResolutionView, ResolveFailure>),
    Idle,
}

impl View for ResolverAction {
    type V = ActionView;

    open spec fn view(&self) -> ActionView {
        match self {
            ResolverAction::ReadCache(file_name) => ActionView::ReadCache(file_name@),
            ResolverAction::QueryRegistry(url) => ActionView::QueryRegistry(url@),
            ResolverAction::EnsureDirectory => ActionView::EnsureDirectory,
            ResolverAction::WriteCache { file_name, content } => ActionView::WriteCache {
                file_name: file_name@,
                content: content@,
            },
            ResolverAction::Finish(Ok(resolution)) => ActionView::Finish(Ok(resolution@)),
            ResolverAction::Finish(Err(e)) => ActionView::Finish(Err(e@)),
            ResolverAction::Idle => ActionView::Idle,
        }
    }
}

/// A state and the action that leads on from it.
#[derive(Debug, PartialEq, Eq)]
pub struct Step {
    pub next: ResolverState,
    pub action: ResolverAction,
}

/// The name of the file that holds the entry of the contract at `contract`:
/// the canonical text of the address, followed by `.json`.
pub open spec fn cache_file(contract: Seq<char>) -> Seq<char> {
    contract + ".json"@
}

/// The end of a resolution that succeeded.
pub open spec fn served(
    interface: Seq<FunctionView>,
    raw: Seq<char>,
    cache_write_error: Option<Seq<char>>,
) -> (StateView, ActionView) {
    (
        StateView::Finished,
        ActionView::Finish(Ok(ResolutionView { interface, raw, cache_write_error })),
    )
}

/// The end of a resolution that failed.
pub open spec fn failed(failure: ResolveFailure) -> (StateView, ActionView) {
    (StateView::Finished, ActionView::Finish(Err(failure)))
}

/// The state and the action with which a resolution begins.
pub open spec fn first_step(contract: Seq<char>, api_key: Seq<char>) -> (StateView, ActionView) {
    (StateView::AwaitingCache { contract, api_key }, ActionView::ReadCache(cache_file(contract)))
}

/// The state and the action that follow a state and an event. An event that
/// the state does not wait for changes nothing.
pub open spec fn next_step(state: StateView, event: EventView) -> (StateView, ActionView) {
    match (state, event) {
        (StateView::AwaitingCache { .. }, EventView::CacheFound(content)) => match interface_of(
            content,
        ) {
            Some(interface) => served(interface, content, None),
            None => failed(ResolveFailure::CacheCorrupt),
        },
        (StateView::AwaitingCache { .. }, EventView::CacheUnreadable) => failed(
            ResolveFailure::CacheCorrupt,
        ),
        (StateView::AwaitingCache { contract, api_key }, EventView::CacheAbsent) => (
            StateView::AwaitingRegistry { file_name: cache_file(contract) },
            ActionView::QueryRegistry(lookup_url(contract, api_key)),
        ),
        (StateView::AwaitingRegistry { .. }, EventView::RegistryUnreachable(e)) => failed(
            ResolveFailure::NetworkError(e),
        ),
        (StateView::AwaitingRegistry { .. }, EventView::RegistryTimedOut) => failed(
            ResolveFailure::TimedOut,
        ),
        (StateView::AwaitingRegistry { file_name }, EventView::RegistryReplied(body)) => {
            match reply_outcome(body) {
                Ok(raw) => match interface_of(raw) {
                    Some(interface) => (
                        StateView::AwaitingDirectory { file_name, raw, interface },
                        ActionView::EnsureDirectory,
                    ),
                    None => failed(ResolveFailure::InvalidResponseShape),
                },
                Err(failure) => failed(failure),
            }
        },
        (
            StateView::AwaitingDirectory { file_name, raw, interface },
            EventView::DirectoryReady,
        ) => (
            StateView::AwaitingWrite { raw, interface },
            ActionView::WriteCache { file_name, content: raw },
        ),
        (
            StateView::AwaitingDirectory { raw, interface, .. },
            EventView::DirectoryFailed(e),
        ) => served(interface, raw, Some(e)),
        (StateView::AwaitingWrite { raw, interface }, EventView::WriteSucceeded) => served(
            interface,
            raw,
            None,
        ),
        (StateView::AwaitingWrite { raw, interface }, EventView::WriteFailed(e)) => served(
            interface,
            raw,
            Some(e),
        ),
        _ => (state, ActionView::Idle),
    }
}

/// Writes the name of the file that holds the entry of a contract.
pub fn cache_file_name(contract: &str) -> (r: String)
    ensures
        r@ == cache_file(contract@),
{
    let mut name = String::from_str(contract);
    name.append(".json");
    name
}

/// Begins the resolution of `address`. `api_key` is the key for the registry,
/// empty if there is none.
pub fn start(address: &Address, api_key: &str) -> (r: Step)
    ensures
        (r.next@, r.action@) == first_step(address_text(address@), api_key@),
{
    let contract = address.to_text();
    let file_name = cache_file_name(contract.as_str());
    Step {
        next: ResolverState::AwaitingCache { contract, api_key: String::from_str(api_key) },
        action: ResolverAction::ReadCache(file_name),
    }
}

/// Ends a resolution with a failure.
fn fail(e: ResolveError) -> (r: Step)
    ensures
        (r.next@, r.action@) == failed(e@),
{
    Step { next: ResolverState::Finished, action: ResolverAction::Finish(Err(e)) }
}

/// Ends a resolution with an interface.
fn serve(interface: InterfaceDefinition, raw: String, cache_write_error: Option<String>) -> (r:
    Step)
    ensures
        (r.next@, r.action@) == served(interface@, raw@, option_text(cache_write_error)),
{
    Step {
        next: ResolverState::Finished,
        action: ResolverAction::Finish(Ok(Resolution { interface, raw, cache_write_error })),
    }
}

/// Takes what came of the last action and says what to do next.
pub fn step(state: ResolverState, event: ResolverEvent) -> (r: Step)
    ensures
        (r.next@, r.action@) == next_step(state@, event@),
{
    match state {
        ResolverState::AwaitingCache { contract, api_key } => match event {
            ResolverEvent::CacheFound(content) => match parse_interface(content.as_str()) {
                Ok(interface) => serve(interface, content, None),
                Err(_) => fail(ResolveError::CacheCorrupt),
            },
            ResolverEvent::CacheUnreadable => fail(ResolveError::CacheCorrupt),
            ResolverEvent::CacheAbsent => {
                let url = registry_url(contract.as_str(), api_key.as_str());
                let file_name = cache_file_name(contract.as_str());
                Step {
                    next: ResolverState::AwaitingRegistry { file_name },
                    action: ResolverAction::QueryRegistry(url),
                }
            },
            _ => Step {
                next: ResolverState::AwaitingCache { contract, api_key },
                action: ResolverAction::Idle,
            },
        },
        ResolverState::AwaitingRegistry { file_name } => match event {
            ResolverEvent::RegistryUnreachable(e) => fail(ResolveError::NetworkError(e)),
            ResolverEvent::RegistryTimedOut => fail(ResolveError::TimedOut),
            ResolverEvent::RegistryReplied(body) => match interpret_registry_reply(body.as_str()) {
                Ok(raw) => match parse_interface(raw.as_str()) {
                    Ok(interface) => Step {
                        next: ResolverState::AwaitingDirectory { file_name, raw, interface },
                        action: ResolverAction::EnsureDirectory,
                    },
                    Err(_) => fail(ResolveError::InvalidResponseShape),
                },
                Err(e) => fail(e),
            },
            _ => Step {
                next: ResolverState::AwaitingRegistry { file_name },
                action: ResolverAction::Idle,
            },
        },
        ResolverState::AwaitingDirectory { file_name, raw, interface } => match event {
            ResolverEvent::DirectoryReady => {
                let content = raw.clone();
                Step {
                    next: ResolverState::AwaitingWrite { raw, interface },
                    action: ResolverAction::WriteCache { file_name, content },
                }
            },
            ResolverEvent::DirectoryFailed(e) => serve(interface, raw, Some(e)),
            _ => Step {
                next: ResolverState::AwaitingDirectory { file_name, raw, interface },
                action: ResolverAction::Idle,
            },
        },
        ResolverState::AwaitingWrite { raw, interface } => match event {
            ResolverEvent::WriteSucceeded => serve(interface, raw, None),
            ResolverEvent::WriteFailed(e) => serve(interface, raw, Some(e)),
            _ => Step {
                next: ResolverState::AwaitingWrite { raw, interface },
                action: ResolverAction::Idle,
            },
        },
        ResolverState::Finished => Step {
            next: ResolverState::Finished,
            action: ResolverAction::Idle,
        },
    }
}

/// What the registry does when it is asked.
pub enum RegistryAnswer {
    /// It replies with this body.
    Replies(Seq<char>),
    /// It cannot be reached, for this reason.
    Unreachable(Seq<char>),
    /// It does not answer in time.
    TimesOut,
}

/// The surroundings in which a resolution runs: the cache as a map from the
/// names of its files to their content, the registry, and why the directory
/// cannot be made or a file cannot be written, if they cannot.
pub struct World {
    pub cache: Map<Seq<char>, Seq<char>>,
    pub registry: RegistryAnswer,
    pub directory_failure: Option<Seq<char>>,
    pub write_failure: Option<Seq<char>>,
}

/// How a resolution ran: its result, if it came to one, the cache it left,
/// and how often it asked the registry.
pub struct Run {
    pub outcome: Option<Result<ResolutionView, ResolveFailure>>,
    pub cache: Map<Seq<char>, Seq<char>>,
    pub registry_calls: nat,
}

/// What comes of an action in given surroundings: the surroundings after
/// it, the event, and how often the registry was asked.
pub open spec fn perform(world: World, action: ActionView) -> (World, EventView, nat) {
    match action {
        ActionView::ReadCache(file_name) => (
            world,
            if world.cache.contains_key(file_name) {
                EventView::CacheFound(world.cache[file_name])
            } else {
                EventView::CacheAbsent
            },
            0,
        ),
        ActionView::QueryRegistry(_) => (
            world,
            match world.registry {
                RegistryAnswer::Replies(body) => EventView::RegistryReplied(body),
                RegistryAnswer::Unreachable(e) => EventView::RegistryUnreachable(e),
                RegistryAnswer::TimesOut => EventView::RegistryTimedOut,
            },
            1,
        ),
        ActionView::EnsureDirectory => (
            world,
            match world.directory_failure {
                None => EventView::DirectoryReady,
                Some(e) => EventView::DirectoryFailed(e),
            },
            0,
        ),
        ActionView::WriteCache { file_name, content } => match world.write_failure {
            None => (
                World { cache: world.cache.insert(file_name, content), ..world },
                EventView::WriteSucceeded,
                0,
            ),
            Some(e) => (world, EventView::WriteFailed(e), 0),
        },
        ActionView::Finish(_) => (world, EventView::CacheAbsent, 0),
        ActionView::Idle => (world, EventView::CacheAbsent, 0),
    }
}

/// Runs the resolver from a state and an action, performing at most `steps`
/// actions.
pub open spec fn run(world: World, state: StateView, action: ActionView, steps: nat) -> Run
    decreases steps,
{
    match action {
        ActionView::Finish(outcome) => Run {
            outcome: Some(outcome),
            cache: world.cache,
            registry_calls: 0,
        },
        ActionView::Idle => Run { outcome: None, cache: world.cache, registry_calls: 0 },
        _ => if steps == 0 {
            Run { outcome: None, cache: world.cache, registry_calls: 0 }
        } else {
            let (after, event, calls) = perform(world, action);
            let (next, then) = next_step(state, event);
            let rest = run(after, next, then, (steps - 1) as nat);
            Run {
                outcome: rest.outcome,
                cache: rest.cache,
                registry_calls: calls + rest.registry_calls,
            }
        },
    }
}

/// Runs the resolution of the contract at `contract` in given surroundings.
/// A resolution performs at most four actions.
pub open spec fn resolve_in(world: World, contract: Seq<char>, api_key: Seq<char>) -> Run {
    let (state, action) = first_step(contract, api_key);
    run(world, state, action, 4)
}

/// The first resolution of an address asks the registry once and leaves an
/// entry in the cache that holds what the registry gave. A later resolution
/// of the address, whatever has become of the registry, does not ask it and
/// gives the same interface and the same text. This is stated of a registry
/// that replies with an interface and of a cache that can be written.
pub proof fn lemma_fetched_once_then_served(
    world: World,
    later: World,
    contract: Seq<char>,
    api_key: Seq<char>,
    later_key: Seq<char>,
    body: Seq<char>,
    raw: Seq<char>,
)
    requires
        !world.cache.contains_key(cache_file(contract)),
        world.registry == RegistryAnswer::Replies(body),
        reply_outcome(body) == Ok::<Seq<char>, ResolveFailure>(raw),
        interface_of(raw) is Some,
        world.directory_failure is None,
        world.write_failure is None,
        later.cache == resolve_in(world, contract, api_key).cache,
    ensures
        resolve_in(world, contract, api_key).registry_calls == 1,
        resolve_in(world, contract, api_key).cache == world.cache.insert(cache_file(contract), raw),
        resolve_in(world, contract, api_key).outcome == Some(
            Ok::<ResolutionView, ResolveFailure>(
                ResolutionView { interface: interface_of(raw)->0, raw, cache_write_error: None },
            ),
        ),
        resolve_in(later, contract, later_key).registry_calls == 0,
        resolve_in(later, contract, later_key).outcome == resolve_in(
            world,
            contract,
            api_key,
        ).outcome,
        resolve_in(later, contract, later_key).cache == later.cache,
{
    reveal_with_fuel(run, 5);
}

/// An entry of the cache that is not read as an interface, as one that is
/// not JSON, fails the resolution with `CacheCorrupt`. The registry is not
/// asked and the entry stays as it is.
pub proof fn lemma_corrupt_entry_fails(world: World, contract: Seq<char>, api_key: Seq<char>)
    requires
        world.cache.contains_key(cache_file(contract)),
        interface_of(world.cache[cache_file(contract)]) is None,
    ensures
        resolve_in(world, contract, api_key).outcome == Some(
            Err::<ResolutionView, ResolveFailure>(ResolveFailure::CacheCorrupt),
        ),
        resolve_in(world, contract, api_key).registry_calls == 0,
        resolve_in(world, contract, api_key).cache == world.cache,
{
    reveal_with_fuel(run, 2);
}

/// Every resolution comes to a result, and asks the registry at most once
/// on the way. It leaves the cache as it was, or with one entry more or
/// changed: that of the address, holding the text that is served.
pub proof fn lemma_resolution_ends(world: World, contract: Seq<char>, api_key: Seq<char>)
    ensures
        resolve_in(world, contract, api_key).outcome is Some,
        resolve_in(world, contract, api_key).registry_calls <= 1,
        resolve_in(world, contract, api_key).cache == world.cache || (resolve_in(
            world,
            contract,
            api_key,
        ).outcome matches Some(Ok(served)) && resolve_in(world, contract, api_key).cache
            == world.cache.insert(cache_file(contract), served.raw)),
{
    reveal_with_fuel(run, 5);
}

/// The entries of two addresses that differ are held in files of names that
/// differ.
pub proof fn lemma_entries_are_apart(first: Seq<u8>, second: Seq<u8>)
    requires
        first.len() == 20,
        second.len() == 20,
        first != second,
    ensures
        cache_file(address_text(first)) != cache_file(address_text(second)),
{
    let a = address_text(first);
    let b = address_text(second);
    lemma_address_text_reads_back(first);
    lemma_address_text_reads_back(second);
    if cache_file(a) == cache_file(b) {
        assert(cache_file(a).subrange(0, a.len() as int) =~= a);
        assert(cache_file(b).subrange(0, b.len() as int) =~= b);
    }
}

} // verus!
