use chlorophyll::client::{
    default_endpoint, BindOutcome, ClientState, Command, LogLevel, RecvOutcome,
};
use chlorophyll::codec::{encode, DataReading, DataType};
use chlorophyll::history::LogHistory;
use chlorophyll::log_widget::LogState;

fn fresh_client() -> ClientState {
    ClientState::new(LogState::new(true), default_endpoint())
}

fn bound_client() -> ClientState {
    let mut c = fresh_client();
    let events = c.tick_unbound(&BindOutcome::Bound);
    assert!(c.bound);
    assert_eq!(events.len(), 1);
    c
}

fn temperature(value: f32) -> DataReading {
    DataReading::new(DataType::Temperature(value.to_bits()))
}

#[test]
fn new_client_starts_unbound() {
    let c = fresh_client();
    assert!(c.running);
    assert_eq!(c.counter, 0);
    assert!(!c.bound);
    assert!(c.last_reading.is_none());
    assert!(c.log_state.enabled);
}

#[test]
fn successful_bind_logs_the_endpoint() {
    let mut c = fresh_client();
    let events = c.tick_unbound(&BindOutcome::Bound);
    assert!(c.bound);
    assert_eq!(events.len(), 1);
    assert_eq!(events[0].level, LogLevel::Info);
    assert_eq!(events[0].message, "Listening for multicast on 239.0.0.1:5000");
}

#[test]
fn failed_bind_keeps_retrying_state() {
    let mut c = fresh_client();
    let events = c.tick_unbound(&BindOutcome::BindFailed("address in use".to_string()));
    assert!(!c.bound);
    assert_eq!(events.len(), 1);
    assert_eq!(events[0].level, LogLevel::Error);
    assert_eq!(events[0].message, "Couldn't open socket address in use");

    let events = c.tick_unbound(&BindOutcome::JoinFailed("no such device".to_string()));
    assert!(!c.bound);
    assert_eq!(events[0].level, LogLevel::Error);
    assert_eq!(events[0].message, "Couldn't join multicast group no such device");

    // The next tick may still succeed.
    let _ = c.tick_unbound(&BindOutcome::Bound);
    assert!(c.bound);
}

#[test]
fn empty_poll_changes_nothing() {
    // A receive attempt with no pending datagram reports back within the
    // tick and leaves every field as it was.
    let mut c = bound_client();
    let before = c.clone();
    let events = c.tick_bound(&RecvOutcome::Empty);
    assert!(events.is_empty());
    assert_eq!(c.running, before.running);
    assert_eq!(c.counter, before.counter);
    assert_eq!(c.bound, before.bound);
    assert_eq!(c.last_reading, before.last_reading);
    assert_eq!(c.log_state, before.log_state);
}

#[test]
fn pending_datagram_updates_last_reading_and_logs_sender() {
    let mut c = bound_client();
    let datagram = encode(&temperature(21.5));
    let events = c.tick_bound(&RecvOutcome::Datagram(datagram, "10.0.0.9:5000".to_string()));
    assert_eq!(c.last_reading, Some(temperature(21.5)));
    assert_eq!(events.len(), 1);
    assert_eq!(events[0].level, LogLevel::Info);
    assert_eq!(events[0].message, "Got msg from 10.0.0.9:5000");
}

#[test]
fn corrupted_datagrams_leave_last_reading_unchanged() {
    let mut c = bound_client();
    let good = encode(&temperature(21.5));
    let _ = c.tick_bound(&RecvOutcome::Datagram(good, "10.0.0.9:5000".to_string()));
    assert_eq!(c.last_reading, Some(temperature(21.5)));

    // Three corrupted datagrams in a row: the reading stays, and three
    // error events come back, one per datagram.
    let mut history = LogHistory::new(1000);
    let mut errors: usize = 0;
    for bad in [vec![], vec![9, 1, 2, 3, 4], vec![0, 1, 2]] {
        let events = c.tick_bound(&RecvOutcome::Datagram(bad, "10.0.0.9:5000".to_string()));
        assert_eq!(events.len(), 1);
        assert_eq!(events[0].level, LogLevel::Error);
        assert!(events[0].message.starts_with("Error parsing msg "));
        errors += 1;
        history.record(
            events[0].level.as_str(),
            "client",
            &events[0].message,
            "client.rs",
            1,
        );
    }
    assert_eq!(errors, 3);
    assert_eq!(c.last_reading, Some(temperature(21.5)));
    assert_eq!(history.len(), 3);
}

#[test]
fn hard_read_error_keeps_the_transport() {
    let mut c = bound_client();
    let events = c.tick_bound(&RecvOutcome::Failed("connection reset".to_string()));
    assert!(c.bound);
    assert!(c.last_reading.is_none());
    assert_eq!(events.len(), 1);
    assert_eq!(events[0].level, LogLevel::Error);
    assert_eq!(events[0].message, "Error reading connection reset");
}

#[test]
fn quit_command_stops_the_loop() {
    let mut c = fresh_client();
    c.apply_command(Command::Quit);
    assert!(!c.running);
}

#[test]
fn counter_commands_saturate() {
    let mut c = fresh_client();
    c.apply_command(Command::Decrement);
    assert_eq!(c.counter, 0);
    for _ in 0..300 {
        c.apply_command(Command::Increment);
    }
    assert_eq!(c.counter, 255);
}

#[test]
fn scrolling_only_acts_while_the_panel_is_enabled() {
    let mut c = fresh_client();
    c.apply_command(Command::ScrollUp(10));
    assert_eq!(c.log_state.scroll, 10);
    c.apply_command(Command::ScrollDown(3));
    assert_eq!(c.log_state.scroll, 7);
    c.apply_command(Command::ToggleLogs);
    assert!(!c.log_state.enabled);
    c.apply_command(Command::ScrollUp(10));
    assert_eq!(c.log_state.scroll, 7);
    c.apply_command(Command::ScrollDown(10));
    assert_eq!(c.log_state.scroll, 7);
}

#[test]
fn endpoint_label_renders_address_and_port() {
    assert_eq!(default_endpoint().label(), "239.0.0.1:5000");
}
