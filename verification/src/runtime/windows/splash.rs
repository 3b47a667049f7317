//! The splash window's messages and the progress it shows while the
//! application starts.

use vstd::prelude::*;

verus! {

/// The messages the splash window receives.
#[derive(Debug, Clone)]
pub enum SplashWindowMessageKind {
    StatusMessage(String),
    SplashSurvived,
}

/// A message for the splash window.
#[derive(Debug, Clone)]
pub struct SplashWindowMessage {
    kind: SplashWindowMessageKind,
}

impl SplashWindowMessage {
    /// The kind of the message.
    pub closed spec fn spec_kind(&self) -> SplashWindowMessageKind {
        self.kind
    }

    /// A message of the given kind.
    pub fn new(kind: SplashWindowMessageKind) -> (r: Self)
        ensures
            r.spec_kind() == kind,
    {
        Self { kind }
    }

    /// The message sent on every tick of the splash timer.
    pub fn splash_survived() -> (r: Self)
        ensures
            r.spec_kind() is SplashSurvived,
    {
        Self::new(SplashWindowMessageKind::SplashSurvived)
    }

    /// The kind of the message.
    pub fn kind(&self) -> (r: &SplashWindowMessageKind)
        ensures
            *r == self.spec_kind(),
    {
        &self.kind
    }
}

/// What the splash window does after handling a message.
#[derive(Debug, PartialEq, Eq, Structural)]
pub enum SplashAction {
    /// Keep showing the splash.
    Stay,
    /// Close the splash window and tick the application.
    Close,
}

/// The progress bar of the splash window, in percent, and whether its timer
/// still ticks.
#[derive(Debug)]
pub struct SplashProgress {
    pub progress: u32,
    pub tick: bool,
}

/// A reachable progress state: a multiple of 4 up to 100.
pub open spec fn progress_inv(p: SplashProgress) -> bool {
    p.progress <= 100 && p.progress % 4 == 0
}

/// One timer tick: a full bar stops the timer and closes the window; any
/// other bar grows by 4 percent.
pub open spec fn survived_step(p: SplashProgress) -> (SplashProgress, SplashAction) {
    if p.progress >= 100 {
        (SplashProgress { progress: p.progress, tick: false }, SplashAction::Close)
    } else {
        (SplashProgress { progress: (p.progress + 4) as u32, tick: p.tick }, SplashAction::Stay)
    }
}

/// The state after `n` timer ticks from the start.
pub open spec fn after_ticks(n: nat) -> SplashProgress
    decreases n,
{
    if n == 0 {
        SplashProgress { progress: 0, tick: true }
    } else {
        survived_step(after_ticks((n - 1) as nat)).0
    }
}

impl SplashProgress {
    /// The splash starts empty and ticking.
    pub fn new() -> (r: Self)
        ensures
            r.progress == 0,
            r.tick,
    {
        SplashProgress { progress: 0, tick: true }
    }

    /// Handles a message: a status message changes nothing; a timer tick
    /// adds 4 percent, and once the bar is full it stops the timer and
    /// closes the window.
    pub fn update(&mut self, kind: &SplashWindowMessageKind) -> (r: SplashAction)
        requires
            progress_inv(*old(self)),
        ensures
            progress_inv(*final(self)),
            match kind {
                SplashWindowMessageKind::StatusMessage(_) => *final(self) == *old(self) && r
                    == SplashAction::Stay,
                SplashWindowMessageKind::SplashSurvived => (*final(self), r) == survived_step(
                    *old(self),
                ),
            },
    {
        match kind {
            SplashWindowMessageKind::StatusMessage(_) => SplashAction::Stay,
            SplashWindowMessageKind::SplashSurvived => {
                if self.progress >= 100 {
                    self.tick = false;
                    SplashAction::Close
                } else {
                    self.progress = self.progress + 4;
                    SplashAction::Stay
                }
            },
        }
    }
}

/// The splash closes on the 26th timer tick: each of the first 25 ticks
/// keeps the window and fills the bar by 4 percent, and the tick that finds
/// the bar full closes it.
pub proof fn lemma_splash_closes_on_26th_tick(n: nat)
    ensures
        n <= 25 ==> after_ticks(n).progress == 4 * n && after_ticks(n).tick,
        n < 25 ==> survived_step(after_ticks(n)).1 == SplashAction::Stay,
        n == 25 ==> survived_step(after_ticks(n)).1 == SplashAction::Close,
    decreases n,
{
    if n > 0 {
        lemma_splash_closes_on_26th_tick((n - 1) as nat);
    }
}

} // verus!
