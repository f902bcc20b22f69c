use proactor::{
    IoBackend, IoUringConfiguration, NucleiConfig, Proactor, Request, RingParameters,
};
use std::time::Duration;

fn proactor_of(queue_len: u32) -> Proactor {
    let config = NucleiConfig {
        iouring: IoUringConfiguration { queue_len, ..IoUringConfiguration::default() },
    };
    Proactor::new(config, RingParameters { sq_entries: queue_len, cq_entries: 2 * queue_len })
}

#[test]
fn proactor_keeps_what_it_was_made_from() {
    let config = NucleiConfig {
        iouring: IoUringConfiguration {
            queue_len: 100,
            sqpoll_wake_interval: Some(5),
            ..IoUringConfiguration::default()
        },
    };
    let params = RingParameters { sq_entries: 128, cq_entries: 256 };
    let proactor = Proactor::new(config, params);
    assert_eq!(proactor.config(), config);
    assert_eq!(*proactor.ring_params(), params);
    assert_eq!(proactor.ring_params().sq_entries, 128);
    assert_eq!(proactor.ring_params().cq_entries, 256);
}

#[test]
fn backend_is_the_completion_queue() {
    assert_eq!(Proactor::backend(), IoBackend::IoUring);
    assert_ne!(Proactor::backend(), IoBackend::Epoll);
    assert_ne!(Proactor::backend(), IoBackend::Kqueue);
}

#[test]
fn wake_asks_for_a_wake() {
    let proactor = proactor_of(8);
    assert_eq!(proactor.wake(), Request::Wake);
}

#[test]
fn wait_passes_its_arguments_on() {
    let proactor = proactor_of(8);
    assert_eq!(proactor.wait(1, None), Request::Wait { max_events: 1, timeout: None });
    assert_eq!(
        proactor.wait(32, Some(Duration::from_millis(250))),
        Request::Wait { max_events: 32, timeout: Some(Duration::from_millis(250)) }
    );
    assert_eq!(
        proactor.wait(0, Some(Duration::ZERO)),
        Request::Wait { max_events: 0, timeout: Some(Duration::ZERO) }
    );
    assert_eq!(
        proactor.wait(usize::MAX, None),
        Request::Wait { max_events: usize::MAX, timeout: None }
    );
}

#[test]
fn wake_does_not_change_what_a_wait_asks_for() {
    let proactor = proactor_of(8);
    let before = proactor.wait(3, Some(Duration::from_secs(1)));
    assert_eq!(proactor.wake(), Request::Wake);
    assert_eq!(proactor.wake(), Request::Wake);
    let after = proactor.wait(3, Some(Duration::from_secs(1)));
    assert_eq!(before, after);
}
