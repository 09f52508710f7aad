//! The radio association state machine.
//!
//! The networked variant brings a wireless radio up as a client and
//! polls the driver's own reported status on a fixed interval: first
//! "is started" until it turns true, then "is connected", issuing a
//! fresh connect request after every poll that shows not yet
//! connected. A poll error is retried, never escalated. The polling
//! loop itself runs outside the library against the real driver; the
//! `Wifi` state machine here makes every decision of that loop, and
//! carries the proof that `Connected` is only ever reached after a
//! started poll and then a connected poll have both returned true.
//!
//! The association loop has no timeout: against a permanently
//! unreachable access point the driving loop polls forever. The state
//! machine makes that visible: no sequence of failed polls ever moves
//! it to `Connected`.

use vstd::prelude::*;

verus! {

/// How far radio association has progressed. Transitions are driven
/// solely by polling the radio's own reported status.
#[derive(Copy, Clone, PartialEq, Eq, Structural, Debug)]
pub enum ConnectionState {
    /// The radio is configured but no start was requested yet.
    Idle,
    /// A start was requested; waiting for the driver to report started.
    Starting,
    /// The driver reported started; association not yet attempted.
    Started,
    /// Association requested; waiting for a connected status.
    Connecting,
    /// The driver reported both started and connected.
    Connected,
}

/// What the driving loop must do after a connection poll.
#[derive(Copy, Clone, PartialEq, Eq, Structural, Debug)]
pub enum ConnectAction {
    /// Issue a fresh connect request, wait the poll interval, and poll
    /// again.
    RetryConnect,
    /// Association is established; stop polling.
    Done,
}

/// The radio connector's state machine. `saw_started` and
/// `saw_connected` record whether a status poll has ever reported the
/// radio started, respectively connected while started.
pub struct Wifi {
    pub state: ConnectionState,
    pub saw_started: bool,
    pub saw_connected: bool,
}

impl Wifi {
    /// The machine's invariant: `Connected` is only reached when both
    /// status polls have returned true, and no state past `Starting`
    /// is reached before a started poll returned true.
    pub open spec fn wf(self) -> bool {
        &&& self.state == ConnectionState::Connected ==> self.saw_started && self.saw_connected
        &&& (self.state == ConnectionState::Started || self.state == ConnectionState::Connecting)
            ==> self.saw_started
        &&& self.saw_connected ==> self.saw_started
    }

    /// A freshly configured radio: idle, with no status observed yet.
    pub fn new() -> (w: Wifi)
        ensures
            w.wf(),
            w.state == ConnectionState::Idle,
            !w.saw_started,
            !w.saw_connected,
    {
        Wifi { state: ConnectionState::Idle, saw_started: false, saw_connected: false }
    }

    /// Records that a start was requested of the driver.
    pub fn request_start(&mut self)
        requires
            old(self).wf(),
            old(self).state == ConnectionState::Idle,
        ensures
            final(self).wf(),
            final(self).state == ConnectionState::Starting,
            final(self).saw_started == old(self).saw_started,
            final(self).saw_connected == old(self).saw_connected,
    {
        self.state = ConnectionState::Starting;
    }

    /// Digests one "is started" poll. `None` is a poll error: it is
    /// retried, never escalated. Only a poll that reports started
    /// moves the machine on.
    pub fn poll_started(&mut self, started: Option<bool>)
        requires
            old(self).wf(),
            old(self).state == ConnectionState::Starting,
        ensures
            final(self).wf(),
            started == Some(true) ==> final(self).state == ConnectionState::Started
                && final(self).saw_started,
            started != Some(true) ==> *final(self) == *old(self),
    {
        match started {
            Option::Some(true) => {
                self.state = ConnectionState::Started;
                self.saw_started = true;
            },
            _ => {},
        }
    }

    /// Digests one "is connected" poll. A poll that reports connected
    /// completes association; any other outcome, a poll error
    /// included, asks the driving loop to issue a fresh connect
    /// request and poll again after the fixed interval.
    pub fn poll_connected(&mut self, connected: Option<bool>) -> (action: ConnectAction)
        requires
            old(self).wf(),
            old(self).state == ConnectionState::Started || old(self).state
                == ConnectionState::Connecting,
        ensures
            final(self).wf(),
            final(self).saw_started,
            connected == Some(true) ==> final(self).state == ConnectionState::Connected
                && final(self).saw_connected && action == ConnectAction::Done,
            connected != Some(true) ==> final(self).state == ConnectionState::Connecting && action
                == ConnectAction::RetryConnect && final(self).saw_connected == old(
                self,
            ).saw_connected,
    {
        match connected {
            Option::Some(true) => {
                self.state = ConnectionState::Connected;
                self.saw_connected = true;
                ConnectAction::Done
            },
            _ => {
                self.state = ConnectionState::Connecting;
                ConnectAction::RetryConnect
            },
        }
    }

    /// Records that the radio was torn down before resting.
    pub fn tear_down(&mut self)
        requires
            old(self).wf(),
        ensures
            final(self).wf(),
            final(self).state == ConnectionState::Idle,
            final(self).saw_started == old(self).saw_started,
            final(self).saw_connected == old(self).saw_connected,
    {
        self.state = ConnectionState::Idle;
    }

    /// Whether association is established.
    pub fn is_connected(&self) -> (r: bool)
        ensures
            r == (self.state == ConnectionState::Connected),
    {
        match self.state {
            ConnectionState::Connected => true,
            _ => false,
        }
    }
}

/// The radio never reports `Connected` unless a started poll and then
/// a connected poll (made only while started) have both returned true:
/// the two statuses were simultaneously true at least once.
pub proof fn lemma_connected_requires_both_statuses(w: Wifi)
    requires
        w.wf(),
        w.state == ConnectionState::Connected,
    ensures
        w.saw_started,
        w.saw_connected,
{
}

} // verus!
