//! The slot that holds the installed proactor, and the two ways of filling
//! it: the implicit accessor, which builds a default backend when the slot
//! is empty, and the explicit path, which offers a backend built from a
//! configuration of the caller's choice. Whoever writes first wins; the slot
//! is never written again.
//!
//! Building a backend is the host's work. The implicit accessor looks into
//! the slot and, when it is empty, says what to build; the explicit path
//! takes what the host has built. Nothing that the host runs is handed to
//! the cell.

use crate::cell::{cell_get, cell_new, cell_try_insert, made_empty, settled};
use crate::config::NucleiConfig;
use crate::proactor::{Proactor, RingParameters};
use once_cell::sync::OnceCell;
use vstd::prelude::*;

verus! {

/// The slot for the process-wide proactor. It starts empty, is filled by the
/// first installation and keeps that proactor for good.
pub struct Registry {
    cell: OnceCell<Proactor>,
}

impl Registry {
    /// The proactor that this registry holds once one is installed. It does
    /// not depend on when it is asked for: the first installation is the
    /// only one.
    pub closed spec fn installed(&self) -> Proactor {
        settled(self.cell)
    }

    /// An empty registry.
    pub fn new() -> (registry: Self)
        ensures
            registry.starts_empty(),
    {
        Registry { cell: cell_new() }
    }

    /// Whether this registry was made with nothing installed, so that what
    /// it holds was installed by an accessor or by the explicit path.
    pub closed spec fn starts_empty(&self) -> bool {
        made_empty(self.cell)
    }
}

/// What the explicit path hands back.
#[derive(Debug)]
pub struct Installation<'a> {
    /// The installed proactor.
    pub proactor: &'a Proactor,
    /// Whether the installed proactor is the candidate of this call. If not,
    /// the candidate was turned away and the host discards what it built.
    pub adopted: bool,
}

impl<'a> Installation<'a> {
    /// The installation after a candidate was offered to the slot: the
    /// proactor the slot kept, adopted if the slot took the candidate.
    pub fn after_offer(offer: Result<&'a Proactor, (&'a Proactor, Proactor)>) -> (installation:
        Self)
        ensures
            match offer {
                Ok(kept) => installation.proactor == kept && installation.adopted,
                Err((kept, _)) => installation.proactor == kept && !installation.adopted,
            },
    {
        match offer {
            Ok(kept) => Installation { proactor: kept, adopted: true },
            Err((kept, _)) => Installation { proactor: kept, adopted: false },
        }
    }

    /// The installation when no candidate could be built: the proactor that
    /// was found in the slot, not adopted; the builder's error if the slot
    /// was empty.
    pub fn without_candidate<E>(found: Option<&'a Proactor>, error: E) -> (outcome: Result<
        Self,
        E,
    >)
        ensures
            match found {
                Some(kept) => outcome matches Ok(installation) && installation.proactor == kept
                    && !installation.adopted,
                None => outcome matches Err(returned) && returned == error,
            },
    {
        match found {
            Some(kept) => Ok(Installation { proactor: kept, adopted: false }),
            None => Err(error),
        }
    }
}

/// What the implicit accessor finds.
#[derive(Debug)]
pub enum Access<'a> {
    /// A proactor is installed: this one.
    Installed(&'a Proactor),
    /// Nothing is installed. The host is to build a backend from this
    /// configuration and offer it through the explicit path.
    Build(NucleiConfig),
}

impl<'a> Access<'a> {
    /// The access after a look into the slot: the proactor that was found,
    /// or the default configuration to build from if the slot was empty.
    pub fn after_lookup(found: Option<&'a Proactor>) -> (access: Self)
        ensures
            match found {
                Some(kept) => access matches Access::Installed(proactor) && proactor == kept,
                None => access matches Access::Build(config) && config
                    == NucleiConfig::spec_default(),
            },
    {
        match found {
            Some(kept) => Access::Installed(kept),
            None => Access::Build(NucleiConfig::default()),
        }
    }
}

impl Proactor {
    /// The implicit accessor: looks for the proactor installed in
    /// `registry`. If there is none it builds nothing itself: it hands back
    /// the default configuration, from which the host builds a backend that
    /// it then offers through `with_config`. A host that lets one thread at
    /// a time take this step builds one backend however many call at once.
    pub fn get<'a>(registry: &'a Registry) -> (access: Access<'a>)
        ensures
            match access {
                Access::Installed(proactor) => *proactor == registry.installed(),
                Access::Build(config) => config == NucleiConfig::spec_default(),
            },
    {
        Access::after_lookup(cell_get(&registry.cell))
    }

    /// The explicit path: offers `registry` the proactor of a backend that
    /// the host built from `config`. `built` is what building gave: the
    /// ring's parameters, or the builder's error.
    ///
    /// If the registry is empty the candidate is installed and adopted. If a
    /// proactor is installed already it stays, and the candidate is turned
    /// away without an error. If building failed, the installed proactor is
    /// handed back all the same; only with nothing installed is the
    /// builder's error returned.
    pub fn with_config<'a, E>(
        registry: &'a Registry,
        config: NucleiConfig,
        built: Result<RingParameters, E>,
    ) -> (outcome: Result<Installation<'a>, E>)
        ensures
            built is Ok ==> outcome is Ok,
            match outcome {
                Ok(installation) => {
                    &&& *installation.proactor == registry.installed()
                    &&& installation.adopted ==> {
                        &&& built matches Ok(params)
                        &&& installation.proactor.config() == config
                        &&& *installation.proactor.ring_params() == params
                    }
                },
                Err(error) => built matches Err(failure) && failure == error,
            },
    {
        match built {
            Ok(params) => {
                let candidate = Proactor::new(config, params);
                Ok(Installation::after_offer(cell_try_insert(&registry.cell, candidate)))
            },
            Err(error) => Installation::without_candidate(cell_get(&registry.cell), error),
        }
    }
}

/// Singleton uniqueness: two proactors that accessors found installed in
/// one registry are the same proactor.
pub proof fn law_singleton_uniqueness(registry: Registry, first: Proactor, second: Proactor)
    requires
        first == registry.installed(),
        second == registry.installed(),
    ensures
        first == second,
{
}

/// What the accessor builds: when the accessor asked for a build and the
/// explicit path adopted the backend that the host built as asked, the
/// installed proactor has the default configuration and the ring that was
/// granted.
pub proof fn law_accessor_builds_default(
    registry: Registry,
    access: Access,
    granted: RingParameters,
    installation: Installation,
)
    requires
        access matches Access::Build(config) && config == NucleiConfig::spec_default()
            && installation.proactor.config() == config,
        installation.adopted,
        *installation.proactor.ring_params() == granted,
        *installation.proactor == registry.installed(),
    ensures
        registry.installed().config() == NucleiConfig::spec_default(),
        *registry.installed().ring_params() == granted,
        registry.installed().config().iouring.queue_len == 2048,
{
}

/// First writer wins: once an accessor has handed out a proactor, the
/// explicit path hands out that same proactor, with the configuration and
/// the ring it had before. A candidate built from another configuration is
/// not adopted.
pub proof fn law_first_writer_wins(
    registry: Registry,
    first: Proactor,
    config: NucleiConfig,
    later: Installation,
)
    requires
        first == registry.installed(),
        *later.proactor == registry.installed(),
        later.adopted ==> later.proactor.config() == config,
    ensures
        *later.proactor == first,
        later.proactor.config() == first.config(),
        later.proactor.ring_params() == first.ring_params(),
        config != first.config() ==> !later.adopted,
{
}

/// Explicit first: when the explicit path adopted its candidate, built from
/// `config`, every accessor that follows sees that configuration.
pub proof fn law_explicit_first_sticks(
    registry: Registry,
    config: NucleiConfig,
    first: Installation,
    later: Proactor,
)
    requires
        *first.proactor == registry.installed(),
        first.adopted,
        first.proactor.config() == config,
        later == registry.installed(),
    ensures
        later.config() == config,
{
}

} // verus!
