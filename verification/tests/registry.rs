use proactor::{
    Access, Installation, IoUringConfiguration, NucleiConfig, Proactor, Registry, RingParameters,
};
use rustix_uring::{Errno, IoUring};
use std::cell::Cell;

/// Sets up a ring of the length that `config` asks for and reports what the
/// kernel granted.
fn ring_parameters(config: NucleiConfig) -> Result<RingParameters, Errno> {
    let ring: IoUring = IoUring::new(config.iouring.queue_len)?;
    Ok(RingParameters {
        sq_entries: ring.params().sq_entries(),
        cq_entries: ring.params().cq_entries(),
    })
}

/// A builder that needs no kernel: it grants what was asked for.
fn granted(config: NucleiConfig) -> Result<RingParameters, &'static str> {
    Ok(RingParameters {
        sq_entries: config.iouring.queue_len,
        cq_entries: 2 * config.iouring.queue_len,
    })
}

/// What a host does with the accessor: it takes the installed proactor, or
/// builds as asked and offers what it built.
fn access<'a, E>(
    registry: &'a Registry,
    build: impl FnOnce(NucleiConfig) -> Result<RingParameters, E>,
) -> Result<&'a Proactor, E> {
    match Proactor::get(registry) {
        Access::Installed(proactor) => Ok(proactor),
        Access::Build(config) => {
            let built = build(config);
            Proactor::with_config(registry, config, built).map(|installed| installed.proactor)
        }
    }
}

fn rollup_config() -> NucleiConfig {
    NucleiConfig {
        iouring: IoUringConfiguration {
            queue_len: 10,
            sqpoll_wake_interval: Some(11),
            per_numa_bounded_worker_count: Some(12),
            per_numa_unbounded_worker_count: Some(13),
            ..IoUringConfiguration::default()
        },
    }
}

#[test]
fn proactor_with_defaults() {
    let registry = Registry::new();
    let old = access(&registry, ring_parameters).unwrap();

    let olen = old.ring_params().sq_entries;

    assert_eq!(olen, 2048);
}

#[test]
fn proactor_with_config_rollup() {
    let registry = Registry::new();
    let config = rollup_config();
    let new = Proactor::with_config(&registry, config, ring_parameters(config))
        .unwrap()
        .proactor;
    let old = access(&registry, ring_parameters).unwrap();

    let nlen = new.ring_params().sq_entries;
    let olen = old.ring_params().sq_entries;

    assert_eq!(nlen, olen);
    assert_eq!(nlen, 16);
    assert_eq!(olen, 16);
}

#[test]
fn explicit_path_after_accessor_keeps_the_default_capacity() {
    let registry = Registry::new();
    let first = access(&registry, ring_parameters).unwrap();
    let capacity = first.ring_params().sq_entries;
    assert_eq!(capacity, 2048);

    let config = rollup_config();
    let later = Proactor::with_config(&registry, config, ring_parameters(config)).unwrap();

    assert!(!later.adopted);
    assert!(std::ptr::eq(later.proactor, first));
    assert_eq!(later.proactor.ring_params().sq_entries, capacity);
    assert_ne!(later.proactor.ring_params().sq_entries, 10);
    assert_ne!(later.proactor.ring_params().sq_entries, 16);
    assert_eq!(later.proactor.config(), NucleiConfig::default());
    assert_eq!(later.proactor.config().iouring.queue_len, 2048);
    assert_eq!(later.proactor.config().iouring.per_numa_bounded_worker_count, None);
}

#[test]
fn default_configuration_values() {
    let config = NucleiConfig::default();
    assert_eq!(config.iouring.queue_len, 2048);
    assert_eq!(config.iouring.sqpoll_wake_interval, None);
    assert_eq!(config.iouring.per_numa_bounded_worker_count, None);
    assert_eq!(config.iouring.per_numa_unbounded_worker_count, None);
    assert_eq!(config.iouring, IoUringConfiguration::default());
}

#[test]
fn two_accessor_calls_return_the_same_instance() {
    let registry = Registry::new();
    let first = access(&registry, granted).unwrap();
    let second = access(&registry, granted).unwrap();
    assert!(std::ptr::eq(first, second));
}

#[test]
fn registries_do_not_share_their_proactor() {
    let one = Registry::new();
    let other = Registry::new();
    let config = rollup_config();
    let first = access(&one, granted).unwrap();
    let second = Proactor::with_config(&other, config, granted(config)).unwrap();
    assert!(second.adopted);
    assert!(!std::ptr::eq(first, second.proactor));
    assert_eq!(first.config(), NucleiConfig::default());
    assert_eq!(second.proactor.config(), config);
}

#[test]
fn accessor_builds_from_the_default_configuration_once() {
    let registry = Registry::new();
    let calls = Cell::new(0u32);
    let seen = Cell::new(None);
    let create = |config: NucleiConfig| {
        calls.set(calls.get() + 1);
        seen.set(Some(config));
        granted(config)
    };
    let first = access(&registry, &create).unwrap();
    assert_eq!(first.config(), NucleiConfig::default());
    assert_eq!(*first.ring_params(), RingParameters { sq_entries: 2048, cq_entries: 4096 });
    let second = access(&registry, &create).unwrap();
    assert_eq!(second.config(), NucleiConfig::default());
    assert_eq!(calls.get(), 1);
    assert_eq!(seen.get(), Some(NucleiConfig::default()));
}

#[test]
fn explicit_path_first_sticks() {
    let registry = Registry::new();
    let config = rollup_config();
    let first = Proactor::with_config(&registry, config, granted(config)).unwrap();
    assert!(first.adopted);
    assert_eq!(first.proactor.config(), config);
    assert_eq!(*first.proactor.ring_params(), RingParameters { sq_entries: 10, cq_entries: 20 });

    let create = |_: NucleiConfig| -> Result<RingParameters, &'static str> {
        panic!("a proactor is installed: nothing is to be built")
    };
    let later = access(&registry, create).unwrap();
    assert!(std::ptr::eq(later, first.proactor));
    assert_eq!(later.config(), config);
    assert_eq!(later.config().iouring.queue_len, 10);
    assert_eq!(later.config().iouring.sqpoll_wake_interval, Some(11));
    assert_eq!(later.config().iouring.per_numa_bounded_worker_count, Some(12));
    assert_eq!(later.config().iouring.per_numa_unbounded_worker_count, Some(13));
    assert_eq!(later.ring_params().sq_entries, 10);
}

#[test]
fn second_explicit_call_is_turned_away() {
    let registry = Registry::new();
    let config = rollup_config();
    let first = Proactor::with_config(&registry, config, granted(config)).unwrap();
    let other = NucleiConfig {
        iouring: IoUringConfiguration { queue_len: 64, ..IoUringConfiguration::default() },
    };
    let second = Proactor::with_config(&registry, other, granted(other)).unwrap();
    assert!(first.adopted);
    assert!(!second.adopted);
    assert!(std::ptr::eq(first.proactor, second.proactor));
    assert_eq!(second.proactor.config(), config);
    assert_eq!(second.proactor.ring_params().sq_entries, 10);
}

#[test]
fn accessor_error_is_the_builders_and_leaves_the_registry_empty() {
    let registry = Registry::new();
    let failing = |_: NucleiConfig| -> Result<RingParameters, &'static str> { Err("no ring") };
    let outcome = access(&registry, failing);
    assert_eq!(outcome.unwrap_err(), "no ring");

    let config = rollup_config();
    let installation = Proactor::with_config(&registry, config, granted(config)).unwrap();
    assert!(installation.adopted);
    assert_eq!(installation.proactor.config(), config);
}

#[test]
fn failed_build_with_nothing_installed_is_an_error() {
    let registry = Registry::new();
    let outcome =
        Proactor::with_config(&registry, rollup_config(), Err::<RingParameters, u32>(7));
    assert_eq!(outcome.unwrap_err(), 7);

    let proactor = access(&registry, granted).unwrap();
    assert_eq!(proactor.config(), NucleiConfig::default());
}

#[test]
fn failed_build_with_a_proactor_installed_is_passed_over() {
    let registry = Registry::new();
    let first = access(&registry, granted).unwrap();
    let outcome =
        Proactor::with_config(&registry, rollup_config(), Err::<RingParameters, u32>(7));
    let installation = outcome.unwrap();
    assert!(!installation.adopted);
    assert!(std::ptr::eq(installation.proactor, first));
    assert_eq!(installation.proactor.config(), NucleiConfig::default());
}

#[test]
fn installation_after_an_offer() {
    let config = rollup_config();
    let kept = Proactor::new(NucleiConfig::default(), granted(config).unwrap());
    let candidate = Proactor::new(config, granted(config).unwrap());

    let taken = Installation::after_offer(Ok(&kept));
    assert!(taken.adopted);
    assert!(std::ptr::eq(taken.proactor, &kept));

    let refused = Installation::after_offer(Err((&kept, candidate)));
    assert!(!refused.adopted);
    assert!(std::ptr::eq(refused.proactor, &kept));
}

#[test]
fn installation_without_a_candidate() {
    let config = rollup_config();
    let kept = Proactor::new(config, granted(config).unwrap());

    let found = Installation::without_candidate(Some(&kept), "failed").unwrap();
    assert!(!found.adopted);
    assert!(std::ptr::eq(found.proactor, &kept));

    let missing = Installation::without_candidate(None, "failed");
    assert_eq!(missing.unwrap_err(), "failed");
}

#[test]
fn new_registry_has_nothing_installed() {
    let registry = Registry::new();
    let outcome =
        Proactor::with_config(&registry, rollup_config(), Err::<RingParameters, &str>("no ring"));
    assert_eq!(outcome.unwrap_err(), "no ring");

    let config = rollup_config();
    let first = Proactor::with_config(&registry, config, granted(config)).unwrap();
    assert!(first.adopted);
}

#[test]
fn accessor_asks_for_a_default_build_when_nothing_is_installed() {
    let registry = Registry::new();
    match Proactor::get(&registry) {
        Access::Build(config) => {
            assert_eq!(config, NucleiConfig::default());
            assert_eq!(config.iouring.queue_len, 2048);
        }
        Access::Installed(_) => panic!("nothing was installed"),
    }
    assert!(matches!(Proactor::get(&registry), Access::Build(_)));
}

#[test]
fn accessor_finds_what_was_installed() {
    let registry = Registry::new();
    let config = rollup_config();
    let first = Proactor::with_config(&registry, config, granted(config)).unwrap();
    match Proactor::get(&registry) {
        Access::Installed(proactor) => {
            assert!(std::ptr::eq(proactor, first.proactor));
            assert_eq!(proactor.config(), config);
        }
        Access::Build(_) => panic!("a proactor is installed"),
    }
}

#[test]
fn access_after_a_lookup() {
    let config = rollup_config();
    let kept = Proactor::new(config, granted(config).unwrap());
    match Access::after_lookup(Some(&kept)) {
        Access::Installed(proactor) => assert!(std::ptr::eq(proactor, &kept)),
        Access::Build(_) => panic!("a proactor was found"),
    }
    match Access::after_lookup(None) {
        Access::Build(config) => assert_eq!(config, NucleiConfig::default()),
        Access::Installed(_) => panic!("nothing was found"),
    }
}
