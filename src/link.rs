//! The serial link's lifecycle as decisions over the results of operating
//! system calls: the caller performs each action and reports what came back.
use vstd::prelude::*;
use crate::attrs::{TermAttrs, LinkConfig, raw_attrs, is_raw};

verus! {

/// Why a link could not be opened or written.
#[derive(Clone, Copy, Debug, PartialEq, Eq, Structural)]
pub enum SerialError {
    /// An `open` or `write` call failed with this OS error code.
    OS(i32),
    /// Fetching, speed-setting or committing the attributes failed with this
    /// OS error code.
    Termios(i32),
}

/// An open, configured link. It owns its descriptor; it cannot be cloned, and
/// `release` consumes it, so a descriptor is released at most once.
#[derive(Debug)]
pub struct Serial {
    fd: i32,
    tty: TermAttrs,
    saved: TermAttrs,
}

/// Where the opening of a link stands.
#[derive(Clone, Copy, Debug, PartialEq, Eq, Structural)]
pub enum OpenPhase {
    Start,
    Opening,
    Fetching { fd: i32 },
    Committing { fd: i32, attrs: TermAttrs, saved: TermAttrs },
    Done,
}

/// What the caller reports back.
#[derive(Clone, Copy, Debug, PartialEq, Eq, Structural)]
pub enum OpenEvent {
    /// The caller wants a link.
    Begin,
    /// `open` returned `ret`; `code` is the OS error code in effect.
    OpenReturned { ret: i32, code: i32 },
    /// The current attributes were fetched.
    Fetched { attrs: TermAttrs },
    /// Fetching the attributes failed.
    FetchFailed { code: i32 },
    /// The speed was set and the attributes committed, taking effect now.
    Committed,
    /// Setting the speed or committing failed.
    CommitFailed { code: i32 },
}

/// What the caller is to do next.
#[derive(Debug)]
pub enum OpenAction {
    /// Open the device at `path` for reading and writing, without making it
    /// the controlling terminal.
    OpenDevice { path: String },
    /// Fetch the current attributes of `fd`.
    FetchAttrs { fd: i32 },
    /// Set the output speed `attrs.ospeed`, then commit `attrs` to `fd` at once.
    Commit { fd: i32, attrs: TermAttrs },
    /// The link is ready.
    Ready(Serial),
    /// Close `fd`, then report `error`.
    CloseAndFail { fd: i32, error: SerialError },
    /// Report `error`; no descriptor is open.
    Fail(SerialError),
    /// The event did not fit the phase; nothing changed.
    Ignore,
}

/// The opening of one link: open, fetch, transform, commit, and closing the
/// descriptor again when a later step fails.
pub struct Opener {
    path: String,
    config: LinkConfig,
    phase: OpenPhase,
}

impl Serial {
    #[verifier::type_invariant]
    spec fn inv(&self) -> bool {
        is_raw(self.tty)
    }

    pub closed spec fn fd_spec(&self) -> i32 {
        self.fd
    }

    pub closed spec fn attrs_spec(&self) -> TermAttrs {
        self.tty
    }

    pub closed spec fn saved_spec(&self) -> TermAttrs {
        self.saved
    }

    /// Starts opening a link to the device at `path`, configured by `config`.
    pub fn new(path: String, config: LinkConfig) -> (r: Opener)
        ensures
            r.path_spec() == path@,
            r.phase_spec() == OpenPhase::Start,
            r.config_spec() == config,
    {
        Opener { path, config, phase: OpenPhase::Start }
    }

    /// The descriptor this link owns.
    pub fn fd(&self) -> (r: i32)
        ensures
            r == self.fd_spec(),
    {
        self.fd
    }

    /// The attributes committed when the link was opened; they are in raw mode.
    pub fn attrs(&self) -> (r: TermAttrs)
        ensures
            r == self.attrs_spec(),
            is_raw(r),
    {
        proof {
            use_type_invariant(self);
        }
        self.tty
    }

    /// The attributes as they were fetched, before the transformation.
    pub fn saved(&self) -> (r: TermAttrs)
        ensures
            r == self.saved_spec(),
    {
        self.saved
    }

    /// Starts writing `msg` on this link. The transfer borrows the link, so
    /// the link cannot be released while the transfer lasts.
    pub fn write<'a>(&'a self, msg: &[u8]) -> (r: Transfer<'a>)
        ensures
            r.link_spec() == *self,
            r.fd_spec() == self.fd_spec(),
            r.total_spec() == msg@.len(),
            r.sent_spec() == 0,
            r.outcome_spec() == None::<Result<(), SerialError>>,
    {
        Transfer { link: self, total: msg.len(), sent: 0, outcome: None }
    }

    /// Gives up the link, handing back the descriptor to close.
    pub fn release(self) -> (r: i32)
        ensures
            r == self.fd_spec(),
    {
        self.fd
    }
}

impl Opener {
    #[verifier::type_invariant]
    spec fn inv(&self) -> bool {
        match self.phase {
            OpenPhase::Committing { attrs, .. } => is_raw(attrs),
            _ => true,
        }
    }

    pub closed spec fn phase_spec(&self) -> OpenPhase {
        self.phase
    }

    pub closed spec fn config_spec(&self) -> LinkConfig {
        self.config
    }

    pub closed spec fn path_spec(&self) -> Seq<char> {
        self.path@
    }

    /// The path of the device to open.
    pub fn path(&self) -> (r: &str)
        ensures
            r@ == self.path_spec(),
    {
        self.path.as_str()
    }

    pub fn phase(&self) -> (r: OpenPhase)
        ensures
            r == self.phase_spec(),
    {
        self.phase
    }

    pub fn config(&self) -> (r: LinkConfig)
        ensures
            r == self.config_spec(),
    {
        self.config
    }

    /// Takes in what the last action gave and says what to do next.
    pub fn step(&mut self, event: OpenEvent) -> (r: OpenAction)
        ensures
            final(self).config_spec() == old(self).config_spec(),
            final(self).path_spec() == old(self).path_spec(),
            match (old(self).phase_spec(), event) {
                (OpenPhase::Start, OpenEvent::Begin) => {
                    &&& final(self).phase_spec() == OpenPhase::Opening
                    &&& r is OpenDevice
                    &&& r->OpenDevice_path@ == old(self).path_spec()
                },
                (OpenPhase::Opening, OpenEvent::OpenReturned { ret, code }) => if ret < 0 {
                    &&& final(self).phase_spec() == OpenPhase::Done
                    &&& r == OpenAction::Fail(SerialError::OS(code))
                } else {
                    &&& final(self).phase_spec() == (OpenPhase::Fetching { fd: ret })
                    &&& r == (OpenAction::FetchAttrs { fd: ret })
                },
                (OpenPhase::Fetching { fd }, OpenEvent::Fetched { attrs }) => {
                    let raw = raw_attrs(attrs, old(self).config_spec());
                    &&& final(self).phase_spec() == (OpenPhase::Committing {
                        fd,
                        attrs: raw,
                        saved: attrs,
                    })
                    &&& r == (OpenAction::Commit { fd, attrs: raw })
                },
                (OpenPhase::Fetching { fd }, OpenEvent::FetchFailed { code }) => {
                    &&& final(self).phase_spec() == OpenPhase::Done
                    &&& r == (OpenAction::CloseAndFail { fd, error: SerialError::Termios(code) })
                },
                (OpenPhase::Committing { fd, attrs, saved }, OpenEvent::Committed) => {
                    &&& final(self).phase_spec() == OpenPhase::Done
                    &&& r is Ready
                    &&& r->Ready_0.fd_spec() == fd
                    &&& r->Ready_0.attrs_spec() == attrs
                    &&& r->Ready_0.saved_spec() == saved
                },
                (OpenPhase::Committing { fd, .. }, OpenEvent::CommitFailed { code }) => {
                    &&& final(self).phase_spec() == OpenPhase::Done
                    &&& r == (OpenAction::CloseAndFail { fd, error: SerialError::Termios(code) })
                },
                _ => {
                    &&& final(self).phase_spec() == old(self).phase_spec()
                    &&& r is Ignore
                },
            },
    {
        proof {
            use_type_invariant(&*self);
        }
        match (self.phase, event) {
            (OpenPhase::Start, OpenEvent::Begin) => {
                self.phase = OpenPhase::Opening;
                OpenAction::OpenDevice { path: self.path.clone() }
            },
            (OpenPhase::Opening, OpenEvent::OpenReturned { ret, code }) => {
                if ret < 0 {
                    self.phase = OpenPhase::Done;
                    OpenAction::Fail(SerialError::OS(code))
                } else {
                    self.phase = OpenPhase::Fetching { fd: ret };
                    OpenAction::FetchAttrs { fd: ret }
                }
            },
            (OpenPhase::Fetching { fd }, OpenEvent::Fetched { attrs }) => {
                let mut raw = attrs;
                raw.make_raw(&self.config);
                proof {
                    crate::attrs::raw_attrs_is_raw(attrs, self.config);
                }
                self.phase = OpenPhase::Committing { fd, attrs: raw, saved: attrs };
                OpenAction::Commit { fd, attrs: raw }
            },
            (OpenPhase::Fetching { fd }, OpenEvent::FetchFailed { code }) => {
                self.phase = OpenPhase::Done;
                OpenAction::CloseAndFail { fd, error: SerialError::Termios(code) }
            },
            (OpenPhase::Committing { fd, attrs, saved }, OpenEvent::Committed) => {
                self.phase = OpenPhase::Done;
                OpenAction::Ready(Serial { fd, tty: attrs, saved })
            },
            (OpenPhase::Committing { fd, .. }, OpenEvent::CommitFailed { code }) => {
                self.phase = OpenPhase::Done;
                OpenAction::CloseAndFail { fd, error: SerialError::Termios(code) }
            },
            _ => OpenAction::Ignore,
        }
    }
}

/// What a transfer asks of the caller.
#[derive(Clone, Copy, Debug)]
pub enum WriteAction {
    /// Write the bytes of the message from `start` on to `fd`, in one call.
    Send { fd: i32, start: usize },
    /// The transfer is over, with this result.
    Finish(Result<(), SerialError>),
}

/// The writing of one message: one blocking write after another until every
/// byte is out or a write fails.
pub struct Transfer<'a> {
    link: &'a Serial,
    total: usize,
    sent: usize,
    outcome: Option<Result<(), SerialError>>,
}

impl<'a> Transfer<'a> {
    #[verifier::type_invariant]
    spec fn inv(&self) -> bool {
        self.sent <= self.total
    }

    pub closed spec fn link_spec(&self) -> Serial {
        *self.link
    }

    pub closed spec fn fd_spec(&self) -> i32 {
        self.link.fd_spec()
    }

    pub closed spec fn total_spec(&self) -> nat {
        self.total as nat
    }

    pub closed spec fn sent_spec(&self) -> nat {
        self.sent as nat
    }

    pub closed spec fn outcome_spec(&self) -> Option<Result<(), SerialError>> {
        self.outcome
    }

    /// How many bytes have gone out so far.
    pub fn sent(&self) -> (r: usize)
        ensures
            r == self.sent_spec(),
    {
        self.sent
    }

    /// The next thing to do: another write while no result is known, else the result.
    pub fn action(&self) -> (r: WriteAction)
        ensures
            self.outcome_spec() is None ==> r == (WriteAction::Send {
                fd: self.fd_spec(),
                start: self.sent_spec() as usize,
            }),
            self.outcome_spec() is Some ==> r == WriteAction::Finish(
                self.outcome_spec()->Some_0,
            ),
    {
        match self.outcome {
            Some(res) => WriteAction::Finish(res),
            None => WriteAction::Send { fd: self.link.fd(), start: self.sent },
        }
    }

    /// Takes in what the last write returned (`written`, and the OS error code
    /// `code` in effect). A negative result ends the transfer with that error;
    /// otherwise the bytes written count as sent, and the transfer ends well
    /// once all are out. Once a result is known, nothing changes.
    pub fn record(&mut self, written: isize, code: i32)
        ensures
            final(self).link_spec() == old(self).link_spec(),
            final(self).fd_spec() == old(self).fd_spec(),
            final(self).total_spec() == old(self).total_spec(),
            old(self).outcome_spec() is Some ==> final(self).sent_spec() == old(self).sent_spec()
                && final(self).outcome_spec() == old(self).outcome_spec(),
            old(self).outcome_spec() is None && written < 0 ==> {
                &&& final(self).sent_spec() == old(self).sent_spec()
                &&& final(self).outcome_spec() == Some(Err::<(), SerialError>(SerialError::OS(code)))
            },
            old(self).outcome_spec() is None && written >= 0 ==> {
                let rest = old(self).total_spec() - old(self).sent_spec();
                let n = if written < rest { written as nat } else { rest as nat };
                let sent = old(self).sent_spec() + n;
                &&& final(self).sent_spec() == sent
                &&& sent == old(self).total_spec() ==> final(self).outcome_spec() == Some(
                    Ok::<(), SerialError>(()),
                )
                &&& sent < old(self).total_spec() ==> final(self).outcome_spec() is None
            },
    {
        proof {
            use_type_invariant(&*self);
        }
        if self.outcome.is_some() {
            return;
        }
        if written < 0 {
            self.outcome = Some(Err(SerialError::OS(code)));
            return;
        }
        let rest = self.total - self.sent;
        let n: usize = if (written as usize) < rest { written as usize } else { rest };
        self.sent = self.sent + n;
        if self.sent == self.total {
            self.outcome = Some(Ok(()));
        }
    }
}

} // verus!
