//! Client-side ingestion state machine.
//!
//! The consumer's event loop owns a `ClientState` and calls in here once per
//! tick and once per input command. All socket work happens outside the
//! verified core; it is reported back as a plain `BindOutcome` or
//! `RecvOutcome` value, and the transition functions below say exactly what
//! each report does to the state and which diagnostic events it produces.
//! No outcome is fatal: a datagram that fails to decode is dropped and
//! logged, a failed bind is retried on a later tick, and a hard read error
//! is logged while the transport handle is kept.

use vstd::prelude::*;

use crate::codec::{spec_decode, spec_describe, decode, DataReading};
use crate::log_widget::LogState;
use crate::textfmt::{spec_digits, u32_to_string};

verus! {

/// A (group address, port) pair naming the multicast endpoint the consumer
/// listens on. Fixed for the lifetime of the process; held as plain octets
/// so the verified core can reason about it.
#[derive(Clone, Copy, Debug, PartialEq, Eq, Structural)]
pub struct MulticastEndpoint {
    pub oct0: u8,
    pub oct1: u8,
    pub oct2: u8,
    pub oct3: u8,
    pub port: u16,
}

impl MulticastEndpoint {
    /// The address lies in the IPv4 multicast range `224.0.0.0/4`.
    pub open spec fn is_multicast(self) -> bool {
        224 <= self.oct0 <= 239
    }

    /// The endpoint written the way log lines show it: `a.b.c.d:port`.
    pub open spec fn spec_label(self) -> Seq<char> {
        spec_digits(self.oct0 as nat) + "."@ + spec_digits(self.oct1 as nat) + "."@ + spec_digits(
            self.oct2 as nat,
        ) + "."@ + spec_digits(self.oct3 as nat) + ":"@ + spec_digits(self.port as nat)
    }

    /// Render the endpoint as `a.b.c.d:port`.
    pub fn label(&self) -> (s: String)
        ensures
            s@ == self.spec_label(),
    {
        let mut s = u32_to_string(self.oct0 as u32);
        s.append(".");
        let p = u32_to_string(self.oct1 as u32);
        s.append(p.as_str());
        s.append(".");
        let p = u32_to_string(self.oct2 as u32);
        s.append(p.as_str());
        s.append(".");
        let p = u32_to_string(self.oct3 as u32);
        s.append(p.as_str());
        s.append(":");
        let p = u32_to_string(self.port as u32);
        s.append(p.as_str());
        s
    }
}

/// The reserved group and port this deployment broadcasts on.
pub fn default_endpoint() -> (e: MulticastEndpoint)
    ensures
        e == (MulticastEndpoint { oct0: 239, oct1: 0, oct2: 0, oct3: 1, port: 5000 }),
        e.is_multicast(),
{
    MulticastEndpoint { oct0: 239, oct1: 0, oct2: 0, oct3: 1, port: 5000 }
}

/// Severity of one diagnostic event the state machine emits.
#[derive(Clone, Copy, Debug, PartialEq, Eq, Structural)]
pub enum LogLevel {
    Info,
    Error,
}

impl LogLevel {
    /// The level name as it appears in record lines.
    pub open spec fn spec_name(self) -> Seq<char> {
        match self {
            LogLevel::Info => "INFO"@,
            LogLevel::Error => "ERROR"@,
        }
    }

    /// The level name as it appears in record lines.
    pub fn as_str(self) -> (s: &'static str)
        ensures
            s@ == self.spec_name(),
    {
        match self {
            LogLevel::Info => "INFO",
            LogLevel::Error => "ERROR",
        }
    }
}

/// One diagnostic event produced by a tick, for the caller to route into
/// the log subsystem.
#[derive(Clone, Debug)]
pub struct LogEvent {
    pub level: LogLevel,
    pub message: String,
}

/// What one non-blocking receive attempt on the open socket reported.
#[derive(Clone, Debug)]
pub enum RecvOutcome {
    /// No datagram was pending; the attempt returned at once.
    Empty,
    /// One datagram arrived: its exact payload bytes and the sender's
    /// address, already rendered as text.
    Datagram(Vec<u8>, String),
    /// The read failed with a hard I/O error other than "would block",
    /// described by the given text.
    Failed(String),
}

/// What one attempt to open the transport reported.
#[derive(Clone, Debug)]
pub enum BindOutcome {
    /// The socket is bound and the multicast group joined.
    Bound,
    /// Binding the socket failed, described by the given text.
    BindFailed(String),
    /// The socket bound but joining the group failed, described by the
    /// given text.
    JoinFailed(String),
}

/// Everything the single-threaded client loop owns: whether it keeps
/// running, the demo counter, the transport state machine (`bound` stands
/// for the open socket, which lives outside the verified core), the last
/// successfully decoded reading, and the log panel's scroll state.
#[derive(Clone, Debug)]
pub struct ClientState {
    pub running: bool,
    pub counter: u8,
    pub bound: bool,
    pub last_reading: Option<DataReading>,
    pub log_state: LogState,
    pub endpoint: MulticastEndpoint,
}

/// One input command, as decoded from a key press by the caller.
#[derive(Clone, Copy, Debug, PartialEq, Eq, Structural)]
pub enum Command {
    Quit,
    ToggleLogs,
    ScrollUp(u16),
    ScrollDown(u16),
    Increment,
    Decrement,
}

/// The fields a tick never touches: everything except the transport state
/// and the last reading.
pub open spec fn tick_keeps_ui(pre: ClientState, post: ClientState) -> bool {
    &&& post.running == pre.running
    &&& post.counter == pre.counter
    &&& post.log_state == pre.log_state
    &&& post.endpoint == pre.endpoint
}

impl ClientState {
    /// A fresh client: running, not yet bound, nothing received.
    pub fn new(log_state: LogState, endpoint: MulticastEndpoint) -> (s: Self)
        ensures
            s.running,
            s.counter == 0,
            !s.bound,
            s.last_reading is None,
            s.log_state == log_state,
            s.endpoint == endpoint,
    {
        Self { running: true, counter: 0, bound: false, last_reading: None, log_state, endpoint }
    }

    /// Stop the application loop.
    pub fn quit(&mut self)
        ensures
            !final(self).running,
            final(self).counter == old(self).counter,
            final(self).bound == old(self).bound,
            final(self).last_reading == old(self).last_reading,
            final(self).log_state == old(self).log_state,
            final(self).endpoint == old(self).endpoint,
    {
        self.running = false;
    }

    /// Bump the demo counter, saturating at its maximum.
    pub fn increment_counter(&mut self)
        ensures
            final(self).counter == (if old(self).counter + 1 <= u8::MAX {
                old(self).counter + 1
            } else {
                u8::MAX as int
            }),
            final(self).running == old(self).running,
            final(self).bound == old(self).bound,
            final(self).last_reading == old(self).last_reading,
            final(self).log_state == old(self).log_state,
            final(self).endpoint == old(self).endpoint,
    {
        self.counter = self.counter.saturating_add(1);
    }

    /// Lower the demo counter, saturating at zero.
    pub fn decrement_counter(&mut self)
        ensures
            final(self).counter == (if old(self).counter - 1 >= 0 {
                old(self).counter - 1
            } else {
                0
            }),
            final(self).running == old(self).running,
            final(self).bound == old(self).bound,
            final(self).last_reading == old(self).last_reading,
            final(self).log_state == old(self).log_state,
            final(self).endpoint == old(self).endpoint,
    {
        self.counter = self.counter.saturating_sub(1);
    }

    /// Apply one input command. Scrolling only acts while the log panel is
    /// enabled, exactly as the key handler behaves.
    pub fn apply_command(&mut self, cmd: Command)
        ensures
            final(self).bound == old(self).bound,
            final(self).last_reading == old(self).last_reading,
            final(self).endpoint == old(self).endpoint,
            match cmd {
                Command::Quit => {
                    &&& !final(self).running
                    &&& final(self).counter == old(self).counter
                    &&& final(self).log_state == old(self).log_state
                },
                Command::ToggleLogs => {
                    &&& final(self).running == old(self).running
                    &&& final(self).counter == old(self).counter
                    &&& final(self).log_state.enabled == !old(self).log_state.enabled
                    &&& final(self).log_state.scroll == old(self).log_state.scroll
                },
                Command::ScrollUp(n) => {
                    &&& final(self).running == old(self).running
                    &&& final(self).counter == old(self).counter
                    &&& final(self).log_state.enabled == old(self).log_state.enabled
                    &&& final(self).log_state.scroll == (if old(self).log_state.enabled {
                        if old(self).log_state.scroll + n <= u16::MAX {
                            old(self).log_state.scroll + n
                        } else {
                            u16::MAX as int
                        }
                    } else {
                        old(self).log_state.scroll as int
                    })
                },
                Command::ScrollDown(n) => {
                    &&& final(self).running == old(self).running
                    &&& final(self).counter == old(self).counter
                    &&& final(self).log_state.enabled == old(self).log_state.enabled
                    &&& final(self).log_state.scroll == (if old(self).log_state.enabled {
                        if old(self).log_state.scroll - n >= 0 {
                            old(self).log_state.scroll - n
                        } else {
                            0
                        }
                    } else {
                        old(self).log_state.scroll as int
                    })
                },
                Command::Increment => {
                    &&& final(self).running == old(self).running
                    &&& final(self).log_state == old(self).log_state
                    &&& final(self).counter == (if old(self).counter + 1 <= u8::MAX {
                        old(self).counter + 1
                    } else {
                        u8::MAX as int
                    })
                },
                Command::Decrement => {
                    &&& final(self).running == old(self).running
                    &&& final(self).log_state == old(self).log_state
                    &&& final(self).counter == (if old(self).counter - 1 >= 0 {
                        old(self).counter - 1
                    } else {
                        0
                    })
                },
            },
    {
        match cmd {
            Command::Quit => self.quit(),
            Command::ToggleLogs => self.log_state.toggle(),
            Command::ScrollUp(n) => {
                if self.log_state.enabled {
                    self.log_state.scroll_up(n);
                }
            },
            Command::ScrollDown(n) => {
                if self.log_state.enabled {
                    self.log_state.scroll_down(n);
                }
            },
            Command::Increment => self.increment_counter(),
            Command::Decrement => self.decrement_counter(),
        }
    }

    /// One tick while the transport is not yet open. A successful bind
    /// moves the state machine to bound, once, lazily; either failure
    /// leaves it unbound, to be retried on a later tick, and is reported as
    /// an error event. Nothing else about the client changes.
    pub fn tick_unbound(&mut self, outcome: &BindOutcome) -> (events: Vec<LogEvent>)
        requires
            !old(self).bound,
        ensures
            tick_keeps_ui(*old(self), *final(self)),
            final(self).last_reading == old(self).last_reading,
            match *outcome {
                BindOutcome::Bound => {
                    &&& final(self).bound
                    &&& events@.len() == 1
                    &&& events@[0].level == LogLevel::Info
                    &&& events@[0].message@ == "Listening for multicast on "@ + old(
                        self,
                    ).endpoint.spec_label()
                },
                BindOutcome::BindFailed(err) => {
                    &&& !final(self).bound
                    &&& events@.len() == 1
                    &&& events@[0].level == LogLevel::Error
                    &&& events@[0].message@ == "Couldn't open socket "@ + err@
                },
                BindOutcome::JoinFailed(err) => {
                    &&& !final(self).bound
                    &&& events@.len() == 1
                    &&& events@[0].level == LogLevel::Error
                    &&& events@[0].message@ == "Couldn't join multicast group "@ + err@
                },
            },
    {
        let mut events: Vec<LogEvent> = Vec::new();
        match outcome {
            BindOutcome::Bound => {
                self.bound = true;
                let label = self.endpoint.label();
                let message = String::from_str("Listening for multicast on ").concat(
                    label.as_str(),
                );
                events.push(LogEvent { level: LogLevel::Info, message });
            },
            BindOutcome::BindFailed(err) => {
                let message = String::from_str("Couldn't open socket ").concat(err.as_str());
                events.push(LogEvent { level: LogLevel::Error, message });
            },
            BindOutcome::JoinFailed(err) => {
                let message = String::from_str("Couldn't join multicast group ").concat(
                    err.as_str(),
                );
                events.push(LogEvent { level: LogLevel::Error, message });
            },
        }
        events
    }

    /// One tick while the transport is open: exactly one non-blocking
    /// receive attempt, already performed by the caller and reported as
    /// `outcome`. An empty poll changes nothing; a datagram that decodes
    /// replaces the last known reading and is logged with its sender; one
    /// that does not decode is dropped and logged, leaving the last reading
    /// alone; a hard read error is logged and the transport kept.
    pub fn tick_bound(&mut self, outcome: &RecvOutcome) -> (events: Vec<LogEvent>)
        requires
            old(self).bound,
        ensures
            tick_keeps_ui(*old(self), *final(self)),
            final(self).bound,
            match *outcome {
                RecvOutcome::Empty => {
                    &&& final(self).last_reading == old(self).last_reading
                    &&& events@.len() == 0
                },
                RecvOutcome::Datagram(bytes, sender) => match spec_decode(bytes@) {
                    Ok(r) => {
                        &&& final(self).last_reading == Some(r)
                        &&& events@.len() == 1
                        &&& events@[0].level == LogLevel::Info
                        &&& events@[0].message@ == "Got msg from "@ + sender@
                    },
                    Err(e) => {
                        &&& final(self).last_reading == old(self).last_reading
                        &&& events@.len() == 1
                        &&& events@[0].level == LogLevel::Error
                        &&& events@[0].message@ == "Error parsing msg "@ + spec_describe(e)
                    },
                },
                RecvOutcome::Failed(err) => {
                    &&& final(self).last_reading == old(self).last_reading
                    &&& events@.len() == 1
                    &&& events@[0].level == LogLevel::Error
                    &&& events@[0].message@ == "Error reading "@ + err@
                },
            },
    {
        let mut events: Vec<LogEvent> = Vec::new();
        match outcome {
            RecvOutcome::Empty => {},
            RecvOutcome::Datagram(bytes, sender) => {
                match decode(bytes.as_slice()) {
                    Ok(r) => {
                        self.last_reading = Some(r);
                        let message = String::from_str("Got msg from ").concat(sender.as_str());
                        events.push(LogEvent { level: LogLevel::Info, message });
                    },
                    Err(e) => {
                        let message = String::from_str("Error parsing msg ").concat(e.describe());
                        events.push(LogEvent { level: LogLevel::Error, message });
                    },
                }
            },
            RecvOutcome::Failed(err) => {
                let message = String::from_str("Error reading ").concat(err.as_str());
                events.push(LogEvent { level: LogLevel::Error, message });
            },
        }
        events
    }
}

} // verus!
