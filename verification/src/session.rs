//! One exchange with the keyboard, step by step.
//!
//! A run opens the keyboard's port, writes the command and reads the reply.
//! Each of these is work on the port, which the caller does; what follows
//! from its outcome is decided here. The caller asks the state for its
//! action, performs it, and hands back whether it succeeded:
//!
//! ```text
//! Opening --ok--> Found --ok--> Sent --ok--> Replied
//!    |              |             |
//!    | failed       | failed      | failed
//!    v              v             v
//! Opening (next     WriteFailed   ReadFailed
//! candidate) or
//! NotFound
//! ```
//!
//! Nothing is tried twice, and the run ends at the first failure that is not
//! a port that would not open.

use crate::error::SyncError;
use crate::locator::{
    find_serial_port_with_pid_vid, first_candidate, is_device, lemma_first_candidate_bounds,
    lemma_first_candidate_none, PortInfo,
};
use vstd::prelude::*;

verus! {

/// The exit status of a run that got its reply.
pub const EXIT_SUCCESS: i32 = 0;

/// The exit status of a run that failed.
pub const EXIT_FAILURE: i32 = 1;

/// Where a run stands.
#[derive(Clone, Copy, Debug, PartialEq, Eq, Structural)]
pub enum SessionState {
    /// The port at `index` is the next to be opened.
    Opening { index: usize },
    /// The keyboard's port is open.
    Found,
    /// The command has been written.
    Sent,
    /// A reply has been read: the run succeeded.
    Replied,
    /// No port of the keyboard's kind could be opened.
    NotFound,
    /// The command could not be written.
    WriteFailed,
    /// No reply could be read.
    ReadFailed,
}

/// What the caller is to do next.
#[derive(Clone, Copy, Debug, PartialEq, Eq, Structural)]
pub enum SessionAction {
    /// Open the port at `index` of the port list.
    OpenPort { index: usize },
    /// Build the command and write all of it.
    SendPacket,
    /// Read one reply.
    ReadReply,
    /// Leave with this exit status.
    Exit { code: i32 },
}

/// The state of a scan that stands before the port at `start`: the next
/// candidate is to be opened, or there is none left.
pub open spec fn scan_from(ports: Seq<PortInfo>, pid: u16, vid: u16, start: int) -> SessionState {
    match first_candidate(ports, pid, vid, start) {
        Some(index) => SessionState::Opening { index },
        None => SessionState::NotFound,
    }
}

impl SessionState {
    /// The run is over.
    pub open spec fn is_terminal(self) -> bool {
        self is Replied || self is NotFound || self is WriteFailed || self is ReadFailed
    }

    /// A port that is to be opened is one of `ports`, and is the keyboard's
    /// kind.
    pub open spec fn fits(self, ports: Seq<PortInfo>, pid: u16, vid: u16) -> bool {
        self matches SessionState::Opening { index } ==> {
            &&& index < ports.len()
            &&& is_device(ports[index as int].kind, pid, vid)
        }
    }

    /// The state after the action of this state has succeeded or failed.
    pub open spec fn after(
        self,
        ports: Seq<PortInfo>,
        pid: u16,
        vid: u16,
        succeeded: bool,
    ) -> SessionState {
        match self {
            SessionState::Opening { index } => if succeeded {
                SessionState::Found
            } else {
                scan_from(ports, pid, vid, index + 1)
            },
            SessionState::Found => if succeeded {
                SessionState::Sent
            } else {
                SessionState::WriteFailed
            },
            SessionState::Sent => if succeeded {
                SessionState::Replied
            } else {
                SessionState::ReadFailed
            },
            _ => self,
        }
    }

    /// What is to be done in this state.
    pub open spec fn pending(self) -> SessionAction {
        match self {
            SessionState::Opening { index } => SessionAction::OpenPort { index },
            SessionState::Found => SessionAction::SendPacket,
            SessionState::Sent => SessionAction::ReadReply,
            SessionState::Replied => SessionAction::Exit { code: EXIT_SUCCESS },
            _ => SessionAction::Exit { code: EXIT_FAILURE },
        }
    }

    /// Why the run failed, if it has.
    pub open spec fn error(self) -> Option<SyncError> {
        match self {
            SessionState::NotFound => Some(SyncError::DeviceNotFound),
            SessionState::WriteFailed => Some(SyncError::WriteFailure),
            SessionState::ReadFailed => Some(SyncError::ReadFailure),
            _ => None,
        }
    }

    /// The state reached from this one when the next `attempts` ports that
    /// are tried all fail to open.
    pub open spec fn after_failed_opens(
        self,
        ports: Seq<PortInfo>,
        pid: u16,
        vid: u16,
        attempts: nat,
    ) -> SessionState
        decreases attempts,
    {
        if attempts == 0 || !(self is Opening) {
            self
        } else {
            self.after(ports, pid, vid, false).after_failed_opens(
                ports,
                pid,
                vid,
                (attempts - 1) as nat,
            )
        }
    }

    /// The state in which a run begins: the first candidate among `ports` is
    /// to be opened, or, if there is none, the run is over.
    pub fn start(ports: &[PortInfo], pid: u16, vid: u16) -> (state: SessionState)
        ensures
            state == scan_from(ports@, pid, vid, 0),
            state is Opening || state is NotFound,
            state.fits(ports@, pid, vid),
    {
        match find_serial_port_with_pid_vid(ports, pid, vid, 0) {
            Some(index) => SessionState::Opening { index },
            None => SessionState::NotFound,
        }
    }

    /// The state after the action of this state has succeeded or failed. A
    /// port that did not open is passed over for the next candidate; any
    /// other failure ends the run, and a run that is over stays as it is.
    pub fn advance(self, ports: &[PortInfo], pid: u16, vid: u16, succeeded: bool) -> (next:
        SessionState)
        ensures
            next == self.after(ports@, pid, vid, succeeded),
            next.fits(ports@, pid, vid),
            self.is_terminal() ==> next == self,
            next matches SessionState::Opening { index } ==> {
                &&& self matches SessionState::Opening { index: tried }
                &&& tried < index
            },
    {
        match self {
            SessionState::Opening { index } => {
                if succeeded {
                    SessionState::Found
                } else if index < ports.len() {
                    match find_serial_port_with_pid_vid(ports, pid, vid, index + 1) {
                        Some(later) => SessionState::Opening { index: later },
                        None => SessionState::NotFound,
                    }
                } else {
                    SessionState::NotFound
                }
            },
            SessionState::Found => {
                if succeeded {
                    SessionState::Sent
                } else {
                    SessionState::WriteFailed
                }
            },
            SessionState::Sent => {
                if succeeded {
                    SessionState::Replied
                } else {
                    SessionState::ReadFailed
                }
            },
            _ => self,
        }
    }

    /// What the caller is to do in this state.
    pub fn action(&self) -> (action: SessionAction)
        ensures
            action == self.pending(),
            action is Exit <==> self.is_terminal(),
    {
        match self {
            SessionState::Opening { index } => SessionAction::OpenPort { index: *index },
            SessionState::Found => SessionAction::SendPacket,
            SessionState::Sent => SessionAction::ReadReply,
            SessionState::Replied => SessionAction::Exit { code: EXIT_SUCCESS },
            _ => SessionAction::Exit { code: EXIT_FAILURE },
        }
    }

    /// The exit status of a run that is over: 0 after a reply, 1 after a
    /// failure; `None` while the run goes on.
    pub fn exit_code(&self) -> (code: Option<i32>)
        ensures
            code is Some <==> self.is_terminal(),
            code == Some(EXIT_SUCCESS) <==> *self is Replied,
            code is Some && !(*self is Replied) ==> code == Some(EXIT_FAILURE),
            code matches Some(status) ==> self.pending() == (SessionAction::Exit { code: status }),
    {
        match self {
            SessionState::Replied => Some(EXIT_SUCCESS),
            SessionState::NotFound => Some(EXIT_FAILURE),
            SessionState::WriteFailed => Some(EXIT_FAILURE),
            SessionState::ReadFailed => Some(EXIT_FAILURE),
            _ => None,
        }
    }

    /// Why the run failed, if it has.
    pub fn failure(&self) -> (error: Option<SyncError>)
        ensures
            error == self.error(),
            error is Some <==> self.is_terminal() && !(*self is Replied),
    {
        match self {
            SessionState::NotFound => Some(SyncError::DeviceNotFound),
            SessionState::WriteFailed => Some(SyncError::WriteFailure),
            SessionState::ReadFailed => Some(SyncError::ReadFailure),
            _ => None,
        }
    }
}

/// Once a port has opened, two more successes end the run with a reply.
pub proof fn lemma_success_path(ports: Seq<PortInfo>, pid: u16, vid: u16, index: usize)
    ensures
        ({
            let found = (SessionState::Opening { index }).after(ports, pid, vid, true);
            let sent = found.after(ports, pid, vid, true);
            let replied = sent.after(ports, pid, vid, true);
            found is Found && sent is Sent && replied is Replied
        }),
{
}

/// A run moves forward only on success: it reaches `Found` from `Opening`,
/// `Sent` from `Found` and `Replied` from `Sent`, each time because the
/// action succeeded, and in no other way.
pub proof fn lemma_forward_needs_success(
    ports: Seq<PortInfo>,
    pid: u16,
    vid: u16,
    state: SessionState,
    succeeded: bool,
)
    ensures
        ({
            let next = state.after(ports, pid, vid, succeeded);
            &&& next is Found ==> state is Opening && succeeded
            &&& next is Sent ==> state is Found && succeeded
            &&& next is Replied ==> state is Replied || (state is Sent && succeeded)
        }),
{
}

/// A failed write or read ends the run, with exit status 1; nothing is
/// tried again.
pub proof fn lemma_failure_is_final(
    ports: Seq<PortInfo>,
    pid: u16,
    vid: u16,
    state: SessionState,
)
    requires
        state is Found || state is Sent,
    ensures
        ({
            let next = state.after(ports, pid, vid, false);
            &&& next.is_terminal()
            &&& next.error() is Some
            &&& next.pending() == (SessionAction::Exit { code: EXIT_FAILURE })
        }),
{
}

/// Where no port is the keyboard, the run is over before it begins: nothing
/// is opened and no command is built.
pub proof fn lemma_no_candidate_no_run(ports: Seq<PortInfo>, pid: u16, vid: u16)
    requires
        forall|j: int| 0 <= j < ports.len() ==> !is_device(#[trigger] ports[j].kind, pid, vid),
    ensures
        scan_from(ports, pid, vid, 0) is NotFound,
        scan_from(ports, pid, vid, 0).pending() == (SessionAction::Exit { code: EXIT_FAILURE }),
{
    lemma_first_candidate_none(ports, pid, vid, 0);
}

/// Where every candidate fails to open, the scan ends in `NotFound`, after
/// no more attempts than there are ports left.
pub proof fn lemma_failed_opens_end_not_found(
    ports: Seq<PortInfo>,
    pid: u16,
    vid: u16,
    state: SessionState,
    attempts: nat,
)
    requires
        ports.len() <= usize::MAX,
        state is Opening || state is NotFound,
        state matches SessionState::Opening { index } ==> index < ports.len() <= index + attempts,
    ensures
        state.after_failed_opens(ports, pid, vid, attempts) is NotFound,
    decreases attempts,
{
    if let SessionState::Opening { index } = state {
        lemma_first_candidate_bounds(ports, pid, vid, index + 1);
        lemma_failed_opens_end_not_found(
            ports,
            pid,
            vid,
            state.after(ports, pid, vid, false),
            (attempts - 1) as nat,
        );
    }
}

} // verus!
