//! Registration, resolution and the health probe, as functions of what the
//! store answers.

use crate::errors::Error;
use crate::id::{generate, is_identifier, ID_LEN};
use crate::store::{known_key, Index, Links, MemoryStore, PONG};
use vstd::prelude::*;

verus! {

/// One stored link: the generated identifier and the target it stands for.
#[derive(Clone, Debug, PartialEq, Eq)]
pub struct Link {
    pub id: String,
    pub target_url: String,
}

/// The answer to a lookup by identifier.
#[derive(Clone, Debug, PartialEq, Eq)]
pub enum Resolution {
    /// The identifier is known; this is its target.
    Found(String),
    /// No link is stored under the identifier.
    NotFound,
    /// The store could not answer.
    Failed(Error),
}

/// The verdict of a liveness probe.
#[derive(Clone, Copy, Debug, PartialEq, Eq, Structural)]
pub enum Health {
    Healthy,
    Unhealthy(Error),
}

/// The links after `target_url` has been written under `id`.
pub open spec fn registered(links: Links, id: Seq<char>, target_url: Seq<char>) -> Links {
    links.insert(id, target_url)
}

/// The target that `id` resolves to, if any.
pub open spec fn resolved(links: Links, id: Seq<char>) -> Option<Seq<char>> {
    links.get(id)
}

/// The verdict on a probe that was answered with `text`.
pub open spec fn verdict(text: Seq<char>) -> Health {
    if text == PONG@ {
        Health::Healthy
    } else {
        Health::Unhealthy(Error::InvalidResponse)
    }
}

/// The verdict on what came back from a probe: a reply is judged by its text,
/// and a failure to get one makes the store unhealthy for that reason.
pub open spec fn health_of(probe: Result<Seq<char>, Error>) -> Health {
    match probe {
        Ok(text) => verdict(text),
        Err(e) => Health::Unhealthy(e),
    }
}

/// Pairs `target_url` with a fresh identifier. Whether the identifier is
/// already in use is not looked at.
pub fn new_link(target_url: String) -> (link: Link)
    ensures
        is_identifier(link.id@, ID_LEN as nat),
        link.target_url == target_url,
{
    Link { id: generate(), target_url }
}

/// Concludes a registration from the store's answer to the write: the
/// identifier if the write went through, the store's failure otherwise.
pub fn registration_from_ack(id: String, ack: Result<(), Error>) -> (outcome: Result<String, Error>)
    ensures
        outcome == match ack {
            Ok(_) => Ok::<String, Error>(id),
            Err(e) => Err::<String, Error>(e),
        },
{
    match ack {
        Ok(_) => Ok(id),
        Err(e) => Err(e),
    }
}

/// Concludes a resolution from the store's answer to the read. Absence is an
/// answer of its own, apart from any failure.
pub fn resolution_from_lookup(lookup: Result<Option<String>, Error>) -> (resolution: Resolution)
    ensures
        resolution == match lookup {
            Ok(Some(target_url)) => Resolution::Found(target_url),
            Ok(None) => Resolution::NotFound,
            Err(e) => Resolution::Failed(e),
        },
{
    match lookup {
        Ok(Some(target_url)) => Resolution::Found(target_url),
        Ok(None) => Resolution::NotFound,
        Err(e) => Resolution::Failed(e),
    }
}

/// Concludes a health check from the store's answer to the probe: healthy on
/// the canonical reply and on nothing else.
pub fn health_from_probe(probe: Result<String, Error>) -> (health: Health)
    ensures
        health == match probe {
            Ok(text) => health_of(Ok(text@)),
            Err(e) => health_of(Err(e)),
        },
{
    match probe {
        Ok(text) => {
            if text == PONG.to_owned() {
                Health::Healthy
            } else {
                Health::Unhealthy(Error::InvalidResponse)
            }
        },
        Err(e) => Health::Unhealthy(e),
    }
}

/// Registers `target_url` in an in-process store under a fresh identifier and
/// returns the identifier. The write is unconditional.
pub fn register(store: &mut MemoryStore, target_url: String) -> (outcome: Result<String, Error>)
    ensures
        outcome matches Ok(id) && {
            &&& is_identifier(id@, ID_LEN as nat)
            &&& final(store)@ == registered(old(store)@, id@, target_url@)
            &&& final(store).latest() == old(store).latest().insert(target_url@, id@)
        },
{
    let link = new_link(target_url);
    let ack = store.set(link.id.clone(), link.target_url);
    registration_from_ack(link.id, ack)
}

/// Registers `target_url` in an in-process store unless it is known there
/// already: a target that is known is answered with the identifier it is
/// known under and nothing is written; any other is registered afresh.
pub fn register_deduplicated(store: &mut MemoryStore, target_url: String) -> (outcome: Result<
    String,
    Error,
>)
    ensures
        outcome matches Ok(id) && resolved(final(store)@, id@) == Some(target_url@)
            && match known_key(old(store)@, old(store).latest(), target_url@) {
            Some(known) => {
                &&& id@ == known
                &&& final(store)@ == old(store)@
                &&& final(store).latest() == old(store).latest()
            },
            None => {
                &&& is_identifier(id@, ID_LEN as nat)
                &&& final(store)@ == registered(old(store)@, id@, target_url@)
                &&& final(store).latest() == old(store).latest().insert(target_url@, id@)
            },
        },
{
    match store.find(target_url.as_str()) {
        Ok(Some(id)) => Ok(id),
        Ok(None) => register(store, target_url),
        Err(e) => Err(e),
    }
}

/// Looks `id` up in an in-process store.
pub fn resolve(store: &MemoryStore, id: &str) -> (resolution: Resolution)
    ensures
        match resolution {
            Resolution::Found(target_url) => resolved(store@, id@) == Some(target_url@),
            Resolution::NotFound => resolved(store@, id@) is None,
            Resolution::Failed(_) => false,
        },
{
    resolution_from_lookup(store.get(id))
}

/// Probes an in-process store, which is always live.
pub fn check_health(store: &MemoryStore) -> (health: Health)
    ensures
        health == Health::Healthy,
{
    health_from_probe(store.ping())
}

/// A run of registrations, the earliest first: each an identifier and the
/// target written under it.
pub type History = Seq<(Seq<char>, Seq<char>)>;

/// The links that a run of registrations leaves behind.
pub open spec fn replayed(links: Links, history: History) -> Links
    decreases history.len(),
{
    if history.len() == 0 {
        links
    } else {
        registered(replayed(links, history.drop_last()), history.last().0, history.last().1)
    }
}

/// Whether `id` is the identifier of one of the registrations of `history`.
pub open spec fn was_registered(history: History, id: Seq<char>) -> bool {
    exists|i: int| 0 <= i < history.len() && (#[trigger] history[i]).0 == id
}

/// Round trip: right after a target has been registered, its identifier
/// resolves to exactly that target.
pub proof fn lemma_resolve_after_register(links: Links, id: Seq<char>, target_url: Seq<char>)
    ensures
        resolved(registered(links, id, target_url), id) == Some(target_url),
{
}

/// A registration leaves every other identifier as it was.
pub proof fn lemma_register_keeps_other_links(
    links: Links,
    id: Seq<char>,
    target_url: Seq<char>,
    other: Seq<char>,
)
    requires
        other != id,
    ensures
        resolved(registered(links, id, target_url), other) == resolved(links, other),
{
}

/// A link is immutable: whatever is registered afterwards under other
/// identifiers, an identifier keeps resolving to what it resolved to.
pub proof fn lemma_link_outlives_registrations(links: Links, history: History, id: Seq<char>)
    requires
        !was_registered(history, id),
    ensures
        resolved(replayed(links, history), id) == resolved(links, id),
    decreases history.len(),
{
    if history.len() > 0 {
        let earlier = history.drop_last();
        assert forall|i: int| 0 <= i < earlier.len() implies (#[trigger] earlier[i]).0 != id by {
            assert(earlier[i] == history[i]);
        }
        lemma_link_outlives_registrations(links, earlier, id);
        assert(history[history.len() - 1].0 != id);
    }
}

/// Absence: in a store that started empty, an identifier that no registration
/// produced resolves to nothing.
pub proof fn lemma_unregistered_is_absent(history: History, id: Seq<char>)
    requires
        !was_registered(history, id),
    ensures
        resolved(replayed(Links::empty(), history), id) is None,
{
    lemma_link_outlives_registrations(Links::empty(), history, id);
}

/// The identifiers of a store that started empty are those that were
/// registered: one that resolves was produced by a registration.
pub proof fn lemma_resolved_was_registered(history: History, id: Seq<char>)
    requires
        resolved(replayed(Links::empty(), history), id) is Some,
    ensures
        was_registered(history, id),
{
    if !was_registered(history, id) {
        lemma_unregistered_is_absent(history, id);
    }
}

/// A repeated submission is recognised: once a target has been registered
/// under an identifier, it is known under that identifier.
pub proof fn lemma_registered_target_is_known(
    links: Links,
    latest: Index,
    id: Seq<char>,
    target_url: Seq<char>,
)
    ensures
        known_key(registered(links, id, target_url), latest.insert(target_url, id), target_url)
            == Some(id),
{
}

/// An identifier that a target is known under resolves to that target.
pub proof fn lemma_known_target_resolves(links: Links, latest: Index, target_url: Seq<char>)
    requires
        known_key(links, latest, target_url) is Some,
    ensures
        resolved(links, known_key(links, latest, target_url)->Some_0) == Some(target_url),
{
}

/// The health verdict is a function of the probe's reply alone: as long as
/// the store answers every probe with the canonical reply, every check finds
/// it healthy, and as long as no probe gets through, every check finds it
/// unhealthy.
pub proof fn lemma_health_is_stable(probes: Seq<Result<Seq<char>, Error>>)
    ensures
        (forall|i: int| 0 <= i < probes.len() ==> #[trigger] probes[i] == Ok::<Seq<char>, Error>(PONG@))
            ==> forall|i: int|
            0 <= i < probes.len() ==> health_of(#[trigger] probes[i]) == Health::Healthy,
        (forall|i: int| 0 <= i < probes.len() ==> #[trigger] probes[i] is Err) ==> forall|i: int|
            0 <= i < probes.len() ==> health_of(#[trigger] probes[i]) is Unhealthy,
{
}

} // verus!
