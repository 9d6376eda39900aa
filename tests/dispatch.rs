use homiegraf::dispatch::{Command, Dispatcher, Event, Halt, Input, Phase};
use homiegraf::normalize::Reading;
use homiegraf::point::{MetricPoint, PropertyChange};
use homiegraf::writer::{after_write, Attempt, RetryPolicy, WriteAction};

fn change(device: &str, value: &str) -> Event<f32> {
    Event::PropertyValueChanged(PropertyChange {
        device_id: device.to_string(),
        node_id: "node".to_string(),
        property_id: "prop".to_string(),
        value: value.to_string(),
        parsed: value.parse::<f32>().ok(),
        fresh: true,
    })
}

fn written(c: Command<f32>) -> MetricPoint<f32> {
    match c {
        Command::Write(p) => p,
        _ => panic!("expected a write"),
    }
}

#[test]
fn every_property_change_is_written_once() {
    let mut d: Dispatcher<f32> = Dispatcher::new(RetryPolicy::default());
    let batch = vec![change("a", "1"), Event::Other, change("b", "heat"), change("c", "x")];
    let p = written(d.step(Input::Batch(batch)));
    assert_eq!(p.device_id, "a");
    assert_eq!(p.value, Reading::Measured(1.0));
    assert!(matches!(d.step(Input::Written(true)), Command::InspectDevices));
    let p = written(d.step(Input::Inspected));
    assert_eq!(p.device_id, "b");
    assert_eq!(p.value, Reading::Coded(40));
    let p = written(d.step(Input::Written(true)));
    assert_eq!(p.device_id, "c");
    assert_eq!(p.value, Reading::Unrecognized);
    assert!(matches!(d.step(Input::Written(true)), Command::Poll));
    assert!(matches!(d.phase, Phase::Polling));
}

#[test]
fn retry_delivers_the_point_once() {
    let mut d: Dispatcher<f32> = Dispatcher::new(RetryPolicy { retry: true });
    let first = written(d.step(Input::Batch(vec![change("a", "2.5"), change("b", "off")])));
    assert_eq!(first.device_id, "a");
    let again = match d.step(Input::Written(false)) {
        Command::Reconnect(p) => p,
        _ => panic!("expected a reconnect"),
    };
    assert_eq!(again.device_id, "a");
    assert_eq!(again.value, Reading::Measured(2.5));
    let next = written(d.step(Input::Written(true)));
    assert_eq!(next.device_id, "b");
    assert_eq!(next.value, Reading::Coded(10));
    assert!(matches!(d.step(Input::Written(true)), Command::Poll));
}

#[test]
fn failed_retry_is_fatal() {
    let mut d: Dispatcher<f32> = Dispatcher::new(RetryPolicy { retry: true });
    written(d.step(Input::Batch(vec![change("a", "1")])));
    assert!(matches!(d.step(Input::Written(false)), Command::Reconnect(_)));
    assert!(matches!(d.step(Input::Written(false)), Command::Stop(Halt::SinkFailed)));
}

#[test]
fn failed_reconnect_is_fatal() {
    let mut d: Dispatcher<f32> = Dispatcher::new(RetryPolicy { retry: true });
    written(d.step(Input::Batch(vec![change("a", "1")])));
    assert!(matches!(d.step(Input::Written(false)), Command::Reconnect(_)));
    assert!(matches!(d.step(Input::ConnectFailed), Command::Stop(Halt::SinkFailed)));
}

#[test]
fn failure_without_retry_stops_the_batch() {
    let mut d: Dispatcher<f32> = Dispatcher::new(RetryPolicy::default());
    written(d.step(Input::Batch(vec![change("a", "1"), change("b", "2")])));
    assert!(matches!(d.step(Input::Written(false)), Command::Stop(Halt::SinkFailed)));
    assert!(matches!(d.step(Input::Written(true)), Command::Stop(Halt::SinkFailed)));
    assert!(matches!(d.step(Input::Batch(vec![change("c", "3")])), Command::Stop(Halt::SinkFailed)));
    assert!(matches!(d.phase, Phase::Stopped(Halt::SinkFailed)));
}

#[test]
fn fetch_error_stops() {
    let mut d: Dispatcher<f32> = Dispatcher::new(RetryPolicy::default());
    assert!(matches!(d.step(Input::FetchFailed), Command::Stop(Halt::FetchFailed)));
    assert!(matches!(d.step(Input::Inspected), Command::Stop(Halt::FetchFailed)));
}

#[test]
fn empty_batch_polls_again() {
    let mut d: Dispatcher<f32> = Dispatcher::new(RetryPolicy::default());
    assert!(matches!(d.step(Input::Batch(vec![])), Command::Poll));
    assert!(matches!(d.step(Input::Batch(vec![Event::Other])), Command::InspectDevices));
    assert!(matches!(d.step(Input::Inspected), Command::Poll));
}

#[test]
fn unexpected_input_is_ignored() {
    let mut d: Dispatcher<f32> = Dispatcher::new(RetryPolicy::default());
    assert!(matches!(d.step(Input::Written(true)), Command::Ignored));
    assert!(matches!(d.phase, Phase::Polling));
    assert!(matches!(d.step(Input::ConnectFailed), Command::Ignored));
}

#[test]
fn write_actions() {
    let on = RetryPolicy { retry: true };
    let off = RetryPolicy::default();
    assert!(!off.retry);
    assert_eq!(after_write(on, Attempt::First, true), WriteAction::Delivered);
    assert_eq!(after_write(on, Attempt::First, false), WriteAction::Reconnect);
    assert_eq!(after_write(on, Attempt::Retry, false), WriteAction::Fatal);
    assert_eq!(after_write(off, Attempt::First, false), WriteAction::Fatal);
    assert_eq!(after_write(off, Attempt::Retry, true), WriteAction::Delivered);
}
