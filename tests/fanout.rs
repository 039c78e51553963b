use libtransport::config::DEFAULT_CALLBACK_TIMEOUT_MS;
use libtransport::{FanOut, Outcome, SinkKind, Step, TransportConfiguration};

fn config(kinds: &[SinkKind]) -> TransportConfiguration {
    let mut c = TransportConfiguration::new("127.0.0.1:9001".to_string());
    for k in kinds {
        let r = match k {
            SinkKind::Channel => c.register_channel(),
            SinkKind::RawSink => c.register_raw_sink(),
            SinkKind::Callback => c.register_callback(),
        };
        assert!(r.is_ok());
    }
    c
}

#[test]
fn configuration_defaults_and_setters() {
    let mut c = TransportConfiguration::new("127.0.0.1:9001".to_string());
    assert_eq!(c.bind_net_addr(), "127.0.0.1:9001");
    assert!(c.sinks().is_empty());
    assert_eq!(c.callback_timeout(), DEFAULT_CALLBACK_TIMEOUT_MS);
    assert!(DEFAULT_CALLBACK_TIMEOUT_MS > 0);
    c.set_callback_timeout(250);
    c.set_bind_net_addr("127.0.0.1:9002".to_string());
    assert_eq!(c.callback_timeout(), 250);
    assert_eq!(c.bind_net_addr(), "127.0.0.1:9002");
}

#[test]
fn sinks_keep_registration_order() {
    let c = config(&[SinkKind::Callback, SinkKind::Channel, SinkKind::RawSink]);
    assert_eq!(c.sinks(), &[SinkKind::Callback, SinkKind::Channel, SinkKind::RawSink][..]);
}

#[test]
fn every_sink_is_served_in_registration_order() {
    let c = config(&[SinkKind::Channel, SinkKind::RawSink, SinkKind::Callback]);
    let (mut f, first) = FanOut::new(&c);
    let mut steps = vec![first];
    while !f.is_done() {
        steps.push(f.step(Outcome::Accepted));
    }
    assert_eq!(steps, vec![Step::Deliver(0), Step::Deliver(1), Step::Deliver(2), Step::Done]);
    assert!(f.failed().is_empty());
}

#[test]
fn declining_callback_is_retried_until_it_accepts() {
    let mut c = config(&[SinkKind::Callback, SinkKind::Channel]);
    c.set_callback_timeout(40);
    let (mut f, first) = FanOut::new(&c);
    assert_eq!(first, Step::Deliver(0));
    let mut offers_to_callback = 1;
    let declines = 3;
    for _ in 0..declines {
        let s = f.step(Outcome::Declined);
        assert_eq!(s, Step::RetryAfter(0, 40));
        offers_to_callback += 1;
    }
    assert_eq!(f.step(Outcome::Accepted), Step::Deliver(1));
    assert_eq!(offers_to_callback, declines + 1);
    assert_eq!(f.step(Outcome::Accepted), Step::Done);
    assert!(f.failed().is_empty());
}

#[test]
fn failed_sinks_do_not_stop_the_rest() {
    let c = config(&[SinkKind::Channel, SinkKind::RawSink, SinkKind::Channel]);
    let (mut f, first) = FanOut::new(&c);
    assert_eq!(first, Step::Deliver(0));
    assert_eq!(f.step(Outcome::Failed), Step::Deliver(1));
    assert_eq!(f.step(Outcome::Failed), Step::Deliver(2));
    assert_eq!(f.step(Outcome::Accepted), Step::Done);
    assert_eq!(f.failed(), &[0usize, 1][..]);
}

#[test]
fn decline_from_a_channel_counts_as_failure() {
    let c = config(&[SinkKind::Channel, SinkKind::Callback]);
    let (mut f, _) = FanOut::new(&c);
    assert_eq!(f.step(Outcome::Declined), Step::Deliver(1));
    assert_eq!(f.failed(), &[0usize][..]);
}

#[test]
fn no_sinks_means_done_at_once() {
    let c = config(&[]);
    let (mut f, first) = FanOut::new(&c);
    assert_eq!(first, Step::Done);
    assert!(f.is_done());
    assert_eq!(f.step(Outcome::Accepted), Step::Done);
    assert!(f.failed().is_empty());
}
