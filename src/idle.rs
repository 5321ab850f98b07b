//! The idle source's negotiation with the compositor: which announced
//! globals to bind, when to register the idle observer and of which kind,
//! and what to tear down when the notifier global goes away.

use vstd::prelude::*;

verus! {

/// The highest version of the idle notifier interface this library speaks.
pub const IDLE_NOTIFIER_VERSION: u32 = 2;

/// The notifier version from which an observer can ignore idle inhibitors.
pub const INPUT_IDLE_SINCE: u32 = 2;

/// The announced interfaces that matter to the idle source.
#[derive(Clone, Copy, Debug, PartialEq, Eq, Structural)]
pub enum Interface {
    Seat,
    IdleNotifier,
    Other,
}

pub open spec fn interface_of(name: Seq<char>) -> Interface {
    if name == "wl_seat"@ {
        Interface::Seat
    } else if name == "ext_idle_notifier_v1"@ {
        Interface::IdleNotifier
    } else {
        Interface::Other
    }
}

/// Tells which interface an announced global offers, by its name.
pub fn classify_interface(name: &str) -> (r: Interface)
    ensures
        r == interface_of(name@),
{
    let announced = name.to_owned();
    if announced == "wl_seat".to_owned() {
        Interface::Seat
    } else if announced == "ext_idle_notifier_v1".to_owned() {
        Interface::IdleNotifier
    } else {
        Interface::Other
    }
}

/// The idle threshold handed to the compositor, in milliseconds, held at
/// `u32::MAX`.
pub open spec fn threshold_ms_of(idle_timeout: u32) -> u32 {
    if idle_timeout * 1000 > u32::MAX {
        u32::MAX
    } else {
        (idle_timeout * 1000) as u32
    }
}

/// Converts an idle timeout in seconds to the compositor's milliseconds.
pub fn idle_threshold_ms(idle_timeout: u32) -> (r: u32)
    ensures
        r == threshold_ms_of(idle_timeout),
{
    if idle_timeout <= u32::MAX / 1000 {
        idle_timeout * 1000
    } else {
        u32::MAX
    }
}

/// The idle notifier global that was bound: its registry name and the
/// version it was bound at.
#[derive(Clone, Copy, Debug, PartialEq, Eq, Structural)]
pub struct NotifierBinding {
    pub name: u32,
    pub version: u32,
}

/// What to do with an announced global.
#[derive(Clone, Copy, Debug, PartialEq, Eq, Structural)]
pub enum GlobalAction {
    /// Bind the seat at version 1.
    BindSeat,
    /// Bind the idle notifier at `version`.
    BindIdleNotifier { version: u32 },
    Ignore,
}

/// What to do when a global is withdrawn.
#[derive(Clone, Copy, Debug, PartialEq, Eq, Structural)]
pub enum RemoveAction {
    /// Destroy the notifier, and the observer too when `observer` is set.
    ReleaseNotifier { observer: bool },
    Ignore,
}

/// What to do when the seat reports in.
#[derive(Clone, Copy, Debug, PartialEq, Eq, Structural)]
pub enum SeatAction {
    /// Register an observer with a threshold of `threshold_ms`: one that
    /// ignores idle inhibitors when `input_only` is set. `inhibitors_unsupported`
    /// says that ignoring them was asked for and the notifier cannot.
    CreateObserver { input_only: bool, threshold_ms: u32, inhibitors_unsupported: bool },
    Nothing,
}

/// The idle source's view of the compositor: at most one notifier bound,
/// and at most one observer registered through it.
#[derive(Clone, Copy, Debug, PartialEq, Eq, Structural)]
pub struct IdleSource {
    pub notifier: Option<NotifierBinding>,
    pub observing: bool,
}

impl IdleSource {
    pub open spec fn wf(&self) -> bool {
        self.observing ==> self.notifier is Some
    }

    pub fn new() -> (r: IdleSource)
        ensures
            r.wf(),
            r.notifier is None,
            !r.observing,
    {
        IdleSource { notifier: None, observing: false }
    }

    /// Decides on a global announced under registry name `name`. The first
    /// idle notifier wins; later ones are ignored.
    pub fn on_global(&mut self, name: u32, interface: Interface, version: u32) -> (r: GlobalAction)
        requires
            old(self).wf(),
        ensures
            final(self).wf(),
            final(self).observing == old(self).observing,
            interface == Interface::Seat ==> r == GlobalAction::BindSeat && *final(self) == *old(
                self,
            ),
            interface == Interface::Other ==> r == GlobalAction::Ignore && *final(self) == *old(
                self,
            ),
            interface == Interface::IdleNotifier && old(self).notifier is Some ==> r
                == GlobalAction::Ignore && *final(self) == *old(self),
            interface == Interface::IdleNotifier && old(self).notifier is None ==> {
                let v = if version <= IDLE_NOTIFIER_VERSION {
                    version
                } else {
                    IDLE_NOTIFIER_VERSION
                };
                &&& r == (GlobalAction::BindIdleNotifier { version: v })
                &&& final(self).notifier == Some(NotifierBinding { name, version: v })
            },
    {
        match interface {
            Interface::Seat => GlobalAction::BindSeat,
            Interface::IdleNotifier => {
                if self.notifier.is_some() {
                    GlobalAction::Ignore
                } else {
                    let v = if version <= IDLE_NOTIFIER_VERSION {
                        version
                    } else {
                        IDLE_NOTIFIER_VERSION
                    };
                    self.notifier = Some(NotifierBinding { name, version: v });
                    GlobalAction::BindIdleNotifier { version: v }
                }
            },
            Interface::Other => GlobalAction::Ignore,
        }
    }

    /// Decides on the withdrawal of the global named `name`: when it is the
    /// bound notifier, the notifier and its observer are released.
    pub fn on_global_remove(&mut self, name: u32) -> (r: RemoveAction)
        requires
            old(self).wf(),
        ensures
            final(self).wf(),
            (old(self).notifier matches Some(b) && b.name == name) ==> {
                &&& r == (RemoveAction::ReleaseNotifier { observer: old(self).observing })
                &&& final(self).notifier is None
                &&& !final(self).observing
            },
            !(old(self).notifier matches Some(b) && b.name == name) ==> r == RemoveAction::Ignore
                && *final(self) == *old(self),
    {
        match self.notifier {
            Some(b) => {
                if b.name == name {
                    let observer = self.observing;
                    self.notifier = None;
                    self.observing = false;
                    RemoveAction::ReleaseNotifier { observer }
                } else {
                    RemoveAction::Ignore
                }
            },
            None => RemoveAction::Ignore,
        }
    }

    /// Decides what to do when the seat reports in: register the one
    /// observer if a notifier is bound and none is registered yet.
    pub fn on_seat(&mut self, ignore_idle_inhibitors: bool, idle_timeout: u32) -> (r: SeatAction)
        requires
            old(self).wf(),
        ensures
            final(self).wf(),
            final(self).notifier == old(self).notifier,
            (old(self).notifier is None || old(self).observing) ==> r == SeatAction::Nothing
                && *final(self) == *old(self),
            old(self).notifier matches Some(b) ==> !old(self).observing ==> {
                let input_only = ignore_idle_inhibitors && b.version >= INPUT_IDLE_SINCE;
                &&& r == (SeatAction::CreateObserver {
                    input_only,
                    threshold_ms: threshold_ms_of(idle_timeout),
                    inhibitors_unsupported: ignore_idle_inhibitors && !input_only,
                })
                &&& final(self).observing
            },
    {
        if self.observing {
            return SeatAction::Nothing;
        }
        match self.notifier {
            Some(b) => {
                let input_only = ignore_idle_inhibitors && b.version >= INPUT_IDLE_SINCE;
                self.observing = true;
                SeatAction::CreateObserver {
                    input_only,
                    threshold_ms: idle_threshold_ms(idle_timeout),
                    inhibitors_unsupported: ignore_idle_inhibitors && !input_only,
                }
            },
            None => SeatAction::Nothing,
        }
    }
}

} // verus!
