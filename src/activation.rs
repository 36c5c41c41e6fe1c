//! Whether the display is awake: woken by motion, put to sleep once motion
//! has stayed away for a grace period.
//!
//! Each grace period that is started carries a fresh token. Only the expiry
//! of the period that is still pending, named by its token, puts the display
//! to sleep; the expiry of a period that was cancelled or superseded changes
//! nothing.

use vstd::prelude::*;

verus! {

/// Whether the display shows the live frame.
#[derive(Clone, Copy, Debug, PartialEq, Eq, Structural)]
pub enum ActivationState {
    Idle,
    Active,
}

/// What the owner of the state machine is to do after a transition.
#[derive(Clone, Copy, Debug, PartialEq, Eq, Structural)]
pub enum ActivationAction {
    Nothing,
    /// Start a grace period; its expiry is to be reported with this token.
    ArmTimeout(u64),
    /// Clear the display, once, as it goes to sleep.
    ForceClear,
}

/// The state of the machine: whether it is awake, the token of the pending
/// grace period if one is pending, and the token the next one will carry.
#[derive(Clone, Copy, Debug, PartialEq, Eq, Structural)]
pub struct ActivationModel {
    pub state: ActivationState,
    pub pending: Option<u64>,
    pub next_token: u64,
}

/// The token after `token`, wrapping at the top of the range.
pub open spec fn token_after(token: u64) -> u64 {
    if token == u64::MAX {
        0
    } else {
        (token + 1) as u64
    }
}

impl ActivationModel {
    /// A grace period is pending only while awake, and its token is the last
    /// one handed out.
    pub open spec fn wf(self) -> bool {
        self.pending matches Some(t) ==> self.state == ActivationState::Active
            && self.next_token == token_after(t)
    }

    /// The machine after a report from the motion sensor, and what to do.
    pub open spec fn on_motion(self, detected: bool) -> (ActivationModel, ActivationAction) {
        if detected {
            (
                ActivationModel { state: ActivationState::Active, pending: None, ..self },
                ActivationAction::Nothing,
            )
        } else if self.state == ActivationState::Active {
            (
                ActivationModel {
                    state: ActivationState::Active,
                    pending: Some(self.next_token),
                    next_token: token_after(self.next_token),
                },
                ActivationAction::ArmTimeout(self.next_token),
            )
        } else {
            (self, ActivationAction::Nothing)
        }
    }

    /// The machine after the grace period of `token` ran out, and what to do.
    pub open spec fn on_timeout(self, token: u64) -> (ActivationModel, ActivationAction) {
        if self.pending == Some(token) {
            (
                ActivationModel { state: ActivationState::Idle, pending: None, ..self },
                ActivationAction::ForceClear,
            )
        } else {
            (self, ActivationAction::Nothing)
        }
    }
}

/// The activation state machine.
pub struct Activation {
    state: ActivationState,
    pending: Option<u64>,
    next_token: u64,
}

impl View for Activation {
    type V = ActivationModel;

    closed spec fn view(&self) -> ActivationModel {
        ActivationModel { state: self.state, pending: self.pending, next_token: self.next_token }
    }
}

impl Activation {
    /// Asleep, with no grace period pending.
    pub fn new() -> (r: Activation)
        ensures
            r@.state == ActivationState::Idle,
            r@.pending is None,
            r@.wf(),
    {
        Activation { state: ActivationState::Idle, pending: None, next_token: 0 }
    }

    /// Whether the display is awake.
    pub fn is_active(&self) -> (r: bool)
        ensures
            r == (self@.state == ActivationState::Active),
    {
        match self.state {
            ActivationState::Active => true,
            ActivationState::Idle => false,
        }
    }

    /// Motion seen wakes the display and cancels any pending grace period.
    /// Motion lost while awake starts a new grace period, which supersedes
    /// the pending one; while asleep it changes nothing.
    pub fn on_motion(&mut self, detected: bool) -> (r: ActivationAction)
        requires
            old(self)@.wf(),
        ensures
            (final(self)@, r) == old(self)@.on_motion(detected),
            final(self)@.wf(),
            detected ==> final(self)@.state == ActivationState::Active && final(self)@.pending is None
                && r == ActivationAction::Nothing,
            !detected && old(self)@.state == ActivationState::Active ==> (r matches ActivationAction::ArmTimeout(t)
                && final(self)@.state == ActivationState::Active && final(self)@.pending == Some(t)
                && old(self)@.pending != Some(t)),
    {
        if detected {
            self.state = ActivationState::Active;
            self.pending = None;
            ActivationAction::Nothing
        } else if self.is_active() {
            let token = self.next_token;
            self.pending = Some(token);
            self.next_token = if token == u64::MAX {
                0
            } else {
                token + 1
            };
            ActivationAction::ArmTimeout(token)
        } else {
            ActivationAction::Nothing
        }
    }

    /// The grace period of `token` ran out: if it is the pending one, the
    /// display goes to sleep and is cleared; otherwise nothing happens.
    pub fn on_timeout(&mut self, token: u64) -> (r: ActivationAction)
        requires
            old(self)@.wf(),
        ensures
            (final(self)@, r) == old(self)@.on_timeout(token),
            final(self)@.wf(),
            old(self)@.pending == Some(token) ==> final(self)@.state == ActivationState::Idle
                && final(self)@.pending is None && r == ActivationAction::ForceClear,
            old(self)@.pending != Some(token) ==> final(self)@ == old(self)@ && r
                == ActivationAction::Nothing,
    {
        if self.pending == Some(token) {
            self.state = ActivationState::Idle;
            self.pending = None;
            ActivationAction::ForceClear
        } else {
            ActivationAction::Nothing
        }
    }
}

/// Motion seen while asleep wakes the display with no grace period pending.
pub proof fn lemma_motion_wakes(m: ActivationModel)
    requires
        m.state == ActivationState::Idle,
    ensures
        m.on_motion(true).0.state == ActivationState::Active,
        m.on_motion(true).0.pending is None,
        m.on_motion(true).1 == ActivationAction::Nothing,
{
}

/// Motion lost while awake keeps the display awake and starts one grace
/// period; losing it again replaces that period by a new one rather than
/// adding a second, and the expiry of the replaced one changes nothing.
pub proof fn lemma_loss_restarts_grace(m: ActivationModel)
    requires
        m.wf(),
        m.state == ActivationState::Active,
    ensures
        ({
            let (m1, a1) = m.on_motion(false);
            let (m2, a2) = m1.on_motion(false);
            &&& m1.state == ActivationState::Active
            &&& a1 matches ActivationAction::ArmTimeout(t1) && m1.pending == Some(t1)
            &&& m2.state == ActivationState::Active
            &&& a2 matches ActivationAction::ArmTimeout(t2) && m2.pending == Some(t2)
            &&& a1 != a2
            &&& m2.on_timeout(m1.pending->0) == (m2, ActivationAction::Nothing)
        }),
{
}

/// When the pending grace period runs out with no motion seen since, the
/// display goes to sleep and is cleared exactly once: a second report of the
/// same expiry, or of any other, changes nothing.
pub proof fn lemma_expiry_clears_once(m: ActivationModel, token: u64, later: u64)
    requires
        m.wf(),
        m.pending == Some(token),
    ensures
        ({
            let (m1, a1) = m.on_timeout(token);
            &&& m1.state == ActivationState::Idle
            &&& a1 == ActivationAction::ForceClear
            &&& m1.on_timeout(later) == (m1, ActivationAction::Nothing)
        }),
{
}

/// Motion seen before the pending grace period runs out keeps the display
/// awake and cancels the period: its expiry then changes nothing.
pub proof fn lemma_motion_cancels_expiry(m: ActivationModel, token: u64)
    requires
        m.wf(),
        m.pending == Some(token),
    ensures
        ({
            let (m1, a1) = m.on_motion(true);
            &&& m1.state == ActivationState::Active
            &&& a1 == ActivationAction::Nothing
            &&& m1.on_timeout(token) == (m1, ActivationAction::Nothing)
        }),
{
}

} // verus!
