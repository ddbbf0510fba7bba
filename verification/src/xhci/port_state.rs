//! The root hub ports' state machine: from attach through debounce, reset,
//! resume and slot assignment to a configured device, and back to idle on
//! detach or failure. Each handler takes the event and what was read, and
//! gives the port's next state and the steps for the caller to carry out.
use vstd::prelude::*;
use crate::xhci::portsc::{
    link_state_of, PortLinkState, PortStatusControl, CCS, CSC, PED, PLS_MASK, PLS_SHIFT, PR, PRC,
};

verus! {

/// Number of ports the table tracks.
pub const MAX_PORT_ENTRIES: usize = 256;
/// How often a port reset is tried before the port is given up.
pub const PORT_RESET_MAX_ATTEMPTS: u8 = 3;
/// How long a newly attached USB 2 device must stay connected.
pub const USB2_DEBOUNCE_MS: u64 = 100;
/// How long a port reset may take.
pub const PORT_RESET_TIMEOUT_MS: u64 = 500;
/// How long leaving the resume state may take.
pub const PORT_RESUME_TIMEOUT_MS: u64 = 20;
/// How long the link is driven to resume before it exits.
pub const PORT_RESUME_TO_REXIT_MS: u64 = 20;
/// How often the link is polled while it exits resume.
pub const PORT_REXIT_POLL_MS: u64 = 2;
/// Completion code of a command that succeeded.
pub const COMPLETION_SUCCESS: u8 = 1;
/// Completion code of a command on a slot that was never enabled.
pub const COMPLETION_SLOT_NOT_ENABLED: u8 = 11;

#[derive(Clone, Copy, Debug, PartialEq, Eq, Structural)]
pub enum ResumePhase {
    Resume,
    RExit,
}

/// Where a port stands.
#[derive(Clone, Copy, Debug, PartialEq, Eq, Structural)]
pub enum PortState {
    Idle,
    Debounce { generation: usize },
    ResetInProgress { attempts: u8 },
    Enabled,
    Resuming { phase: ResumePhase },
    PendingSetConfiguration,
    Configured,
}

/// A step for the caller to carry out, in the order given.
#[derive(Clone, Copy, Debug, PartialEq, Eq, Structural)]
pub enum PortAction {
    /// Write the change bits of the status just read back, clearing them.
    AckChanges,
    /// Start a port reset.
    IssueReset,
    /// Drive the link to `state`.
    SetLinkState(PortLinkState),
    /// Run `debounce_elapsed` with `generation` after the debounce time.
    ScheduleDebounce { generation: usize },
    /// Run `reset_timed_out` with `attempt` after the reset timeout.
    ScheduleResetTimeout { attempt: u8 },
    /// Run `resume_elapsed` after the resume time.
    ScheduleResumeToRExit,
    /// Run `rexit_poll` with `start_ms` after the poll interval.
    ScheduleRExitPoll { start_ms: u64 },
    /// Ask the controller for a slot.
    SendEnableSlot,
    /// Give slot `slot_id` back to the controller.
    SendDisableSlot { slot_id: u8 },
    /// Build the device's contexts for slot `slot_id` and address it.
    AllocateDevice { slot_id: u8 },
}

/// A port's state and slot, and the steps that a handler asks for.
pub type PortStep = (PortState, Option<u8>, Seq<PortAction>);

pub open spec fn psc_ccs(p: PortStatusControl) -> bool {
    p.0 & CCS != 0
}

pub open spec fn psc_ped(p: PortStatusControl) -> bool {
    p.0 & PED != 0
}

pub open spec fn psc_pr(p: PortStatusControl) -> bool {
    p.0 & PR != 0
}

pub open spec fn psc_prc(p: PortStatusControl) -> bool {
    p.0 & PRC != 0
}

pub open spec fn psc_csc(p: PortStatusControl) -> bool {
    p.0 & CSC != 0
}

pub open spec fn psc_pls(p: PortStatusControl) -> PortLinkState {
    link_state_of(((p.0 & PLS_MASK) >> PLS_SHIFT) as u8)
}

/// A slot is given back where one is assigned; the port goes idle either
/// way (the slot stays recorded until the controller confirms).
pub open spec fn disable_slot_step(state: PortState, slot: Option<u8>) -> PortStep {
    match slot {
        None => (PortState::Idle, slot, Seq::empty()),
        Some(s) => (PortState::Idle, slot, seq![PortAction::SendDisableSlot { slot_id: s }]),
    }
}

/// A port reset is started as attempt `attempt`.
pub open spec fn reset_attempt_step(slot: Option<u8>, attempt: u8) -> PortStep {
    (
        PortState::ResetInProgress { attempts: attempt },
        slot,
        seq![PortAction::ScheduleResetTimeout { attempt }, PortAction::IssueReset],
    )
}

/// The reset of a port in `ResetInProgress { attempts }` has changed: the
/// port is enabled and a slot asked for where the link came up; the reset
/// is tried again while attempts are left and a device is connected; else
/// the port goes idle.
pub open spec fn reset_complete_step(attempts: u8, slot: Option<u8>, p: PortStatusControl) -> PortStep {
    if !psc_ccs(p) {
        (PortState::Idle, slot, Seq::empty())
    } else if psc_ped(p) && !psc_pr(p) && psc_pls(p) == PortLinkState::U0 {
        (PortState::Enabled, slot, seq![PortAction::SendEnableSlot])
    } else if attempts < PORT_RESET_MAX_ATTEMPTS {
        reset_attempt_step(slot, (attempts + 1) as u8)
    } else {
        (PortState::Idle, slot, Seq::empty())
    }
}

/// A port status change event, given the port's status as read: the
/// changes are acknowledged; a finished reset is taken on; a detach gives
/// the slot back; a new attach restarts debouncing, after giving back the
/// slot of a device that was enabled there.
pub open spec fn status_change_step(state: PortState, slot: Option<u8>, p: PortStatusControl) -> PortStep {
    let (s1, sl1, a1, reset_completed) = if psc_prc(p) && state is ResetInProgress {
        let r = reset_complete_step(state->attempts, slot, p);
        (r.0, r.1, r.2, true)
    } else {
        (state, slot, Seq::empty(), false)
    };
    let acts = seq![PortAction::AckChanges] + a1;
    if !psc_csc(p) {
        (s1, sl1, acts)
    } else if !psc_ccs(p) {
        let d = disable_slot_step(s1, sl1);
        (d.0, d.1, acts + d.2)
    } else if reset_completed || s1 is Debounce || s1 is ResetInProgress {
        (s1, sl1, acts)
    } else {
        let a2 = if s1 == PortState::Enabled && sl1 is Some {
            disable_slot_step(s1, sl1).2
        } else {
            Seq::empty()
        };
        (
            PortState::Debounce { generation: 0 },
            sl1,
            acts + a2 + seq![PortAction::ScheduleDebounce { generation: 0 }],
        )
    }
}

/// The debounce time of `generation` has passed: a device still connected
/// is resumed where its link sleeps (U3), else reset.
pub open spec fn debounce_step(state: PortState, slot: Option<u8>, generation: usize, p: PortStatusControl) -> PortStep {
    if state != (PortState::Debounce { generation }) {
        (state, slot, Seq::empty())
    } else if !psc_ccs(p) {
        (PortState::Idle, slot, Seq::empty())
    } else if psc_pls(p) == PortLinkState::U3 {
        (
            PortState::Resuming { phase: ResumePhase::Resume },
            slot,
            seq![PortAction::SetLinkState(PortLinkState::Resume), PortAction::ScheduleResumeToRExit],
        )
    } else {
        reset_attempt_step(slot, 1)
    }
}

/// Reset attempt `attempt` has timed out: it is tried again while attempts
/// are left and a device is connected, else the port goes idle. A reset
/// that moved on, or a later attempt, is left alone.
pub open spec fn reset_timeout_step(state: PortState, slot: Option<u8>, attempt: u8, p: PortStatusControl) -> PortStep {
    if !(state is ResetInProgress) || state->attempts != attempt {
        (state, slot, Seq::empty())
    } else if psc_ccs(p) && attempt < PORT_RESET_MAX_ATTEMPTS {
        reset_attempt_step(slot, (attempt + 1) as u8)
    } else {
        (PortState::Idle, slot, Seq::empty())
    }
}

/// The link has been driven to resume long enough: it is told to exit to
/// U0, and polled from `now_ms` on.
pub open spec fn resume_step(state: PortState, slot: Option<u8>, now_ms: u64) -> PortStep {
    if state != (PortState::Resuming { phase: ResumePhase::Resume }) {
        (state, slot, Seq::empty())
    } else {
        (
            PortState::Resuming { phase: ResumePhase::RExit },
            slot,
            seq![PortAction::SetLinkState(PortLinkState::U0), PortAction::ScheduleRExitPoll { start_ms: now_ms }],
        )
    }
}

/// Milliseconds from `start` to `now` on a clock that wraps around.
pub open spec fn wrapped_elapsed(start: u64, now: u64) -> int {
    if now >= start {
        now - start
    } else {
        now - start + 0x1_0000_0000_0000_0000
    }
}

/// A poll while the link exits resume: the port is reset once the link is
/// in U0, given up after the resume timeout, else polled again.
pub open spec fn rexit_step(state: PortState, slot: Option<u8>, start_ms: u64, now_ms: u64, p: PortStatusControl) -> PortStep {
    if state != (PortState::Resuming { phase: ResumePhase::RExit }) {
        (state, slot, Seq::empty())
    } else if psc_pls(p) == PortLinkState::U0 {
        reset_attempt_step(slot, 1)
    } else if wrapped_elapsed(start_ms, now_ms) >= PORT_RESUME_TIMEOUT_MS {
        (PortState::Idle, slot, Seq::empty())
    } else {
        (state, slot, seq![PortAction::ScheduleRExitPoll { start_ms }])
    }
}

/// The controller answered an Enable Slot command with `slot_id`: a
/// failure gives the port's slot back; a second slot for a port that has
/// one is given back at once; else the slot is recorded and the device
/// built.
pub open spec fn enable_slot_done_step(state: PortState, slot: Option<u8>, slot_id: u8, completion_code: u8) -> PortStep {
    if completion_code != COMPLETION_SUCCESS || slot_id == 0 {
        disable_slot_step(state, slot)
    } else if slot is Some {
        (state, slot, seq![PortAction::SendDisableSlot { slot_id }])
    } else {
        (state, Some(slot_id), seq![PortAction::AllocateDevice { slot_id }])
    }
}

/// The controller confirmed that slot `slot_id` is disabled: the port goes
/// idle and forgets the slot, where it is the port's slot.
pub open spec fn release_slot_step(state: PortState, slot: Option<u8>, slot_id: u8) -> PortStep {
    if slot == Some(slot_id) {
        (PortState::Idle, None, Seq::empty())
    } else {
        (state, slot, Seq::empty())
    }
}

/// Every reset in progress counts its attempts from one to the maximum.
pub open spec fn state_ok(s: PortState) -> bool {
    s is ResetInProgress ==> 1 <= s->attempts <= PORT_RESET_MAX_ATTEMPTS
}

/// The ports' states and slots.
pub struct PortTable {
    pub state: Vec<PortState>,
    pub slot: Vec<Option<u8>>,
}

impl View for PortTable {
    type V = (Seq<PortState>, Seq<Option<u8>>);

    open spec fn view(&self) -> (Seq<PortState>, Seq<Option<u8>>) {
        (self.state@, self.slot@)
    }
}

/// A table with one entry per port and every reset within its attempts.
pub open spec fn table_wf(t: (Seq<PortState>, Seq<Option<u8>>)) -> bool {
    &&& t.0.len() == MAX_PORT_ENTRIES
    &&& t.1.len() == MAX_PORT_ENTRIES
    &&& forall|i: int| 0 <= i < MAX_PORT_ENTRIES ==> #[trigger] state_ok(t.0[i])
}

/// The table with port `port` moved to the state and slot of `step`.
pub open spec fn table_after(t: (Seq<PortState>, Seq<Option<u8>>), port: int, step: PortStep) -> (
    Seq<PortState>,
    Seq<Option<u8>>,
) {
    (t.0.update(port, step.0), t.1.update(port, step.1))
}

impl PortTable {
    /// Every port idle, without a slot.
    pub fn new() -> (r: Self)
        ensures
            table_wf(r@),
            forall|i: int| 0 <= i < MAX_PORT_ENTRIES ==> r@.0[i] == PortState::Idle && r@.1[i] is None,
    {
        let mut state: Vec<PortState> = Vec::new();
        let mut slot: Vec<Option<u8>> = Vec::new();
        let mut i: usize = 0;
        while i < MAX_PORT_ENTRIES
            invariant
                i <= MAX_PORT_ENTRIES,
                state@.len() == i,
                slot@.len() == i,
                forall|k: int| 0 <= k < i ==> state@[k] == PortState::Idle && slot@[k] is None,
            decreases MAX_PORT_ENTRIES - i,
        {
            state.push(PortState::Idle);
            slot.push(None);
            i = i + 1;
        }
        PortTable { state, slot }
    }

    pub fn state(&self, port: u8) -> (r: PortState)
        requires
            table_wf(self@),
        ensures
            r == self@.0[port as int],
    {
        self.state[port as usize]
    }

    pub fn slot(&self, port: u8) -> (r: Option<u8>)
        requires
            table_wf(self@),
        ensures
            r == self@.1[port as int],
    {
        self.slot[port as usize]
    }

    fn apply(&mut self, port: u8, step_state: PortState, step_slot: Option<u8>)
        requires
            table_wf(old(self)@),
            state_ok(step_state),
        ensures
            final(self)@ == table_after(old(self)@, port as int, (step_state, step_slot, Seq::empty())),
            table_wf(final(self)@),
    {
        self.state.set(port as usize, step_state);
        self.slot.set(port as usize, step_slot);
        assert forall|i: int| 0 <= i < MAX_PORT_ENTRIES implies #[trigger] state_ok(self@.0[i]) by {
            if i != port as int {
                assert(self@.0[i] == old(self)@.0[i]);
            }
        }
    }

    fn disable_slot_locked(&mut self, port: u8, actions: &mut Vec<PortAction>)
        requires
            table_wf(old(self)@),
        ensures
            ({
                let d = disable_slot_step(old(self)@.0[port as int], old(self)@.1[port as int]);
                &&& final(self)@ == table_after(old(self)@, port as int, d)
                &&& final(actions)@ == old(actions)@ + d.2
            }),
            table_wf(final(self)@),
    {
        let slot = self.slot(port);
        let ghost before = actions@;
        if let Some(slot_id) = slot {
            actions.push(PortAction::SendDisableSlot { slot_id });
            assert(actions@ =~= before + seq![PortAction::SendDisableSlot { slot_id }]);
        } else {
            assert(actions@ =~= before + Seq::<PortAction>::empty());
        }
        self.apply(port, PortState::Idle, slot);
    }

    fn start_reset_attempt(&mut self, port: u8, attempt: u8, actions: &mut Vec<PortAction>)
        requires
            table_wf(old(self)@),
            1 <= attempt <= PORT_RESET_MAX_ATTEMPTS,
        ensures
            ({
                let d = reset_attempt_step(old(self)@.1[port as int], attempt);
                &&& final(self)@ == table_after(old(self)@, port as int, d)
                &&& final(actions)@ == old(actions)@ + d.2
            }),
            table_wf(final(self)@),
    {
        let slot = self.slot(port);
        let ghost before = actions@;
        actions.push(PortAction::ScheduleResetTimeout { attempt });
        actions.push(PortAction::IssueReset);
        assert(actions@ =~= before + seq![PortAction::ScheduleResetTimeout { attempt }, PortAction::IssueReset]);
        self.apply(port, PortState::ResetInProgress { attempts: attempt }, slot);
    }

    /// A port status change event for `port`, whose status reads `portsc`.
    pub fn on_port_status_change(&mut self, port: u8, portsc: PortStatusControl) -> (r: Vec<PortAction>)
        requires
            table_wf(old(self)@),
        ensures
            ({
                let st = status_change_step(old(self)@.0[port as int], old(self)@.1[port as int], portsc);
                &&& final(self)@ == table_after(old(self)@, port as int, st)
                &&& r@ == st.2
            }),
            table_wf(final(self)@),
    {
        let ghost s0 = self@.0[port as int];
        let ghost sl0 = self@.1[port as int];
        let ghost t0 = self@;
        let mut actions: Vec<PortAction> = Vec::new();
        actions.push(PortAction::AckChanges);
        let mut reset_completed = false;
        if portsc.prc_read() {
            if let PortState::ResetInProgress { attempts } = self.state(port) {
                let slot = self.slot(port);
                let ghost before = actions@;
                if !portsc.ccs_read() {
                    self.apply(port, PortState::Idle, slot);
                    assert(actions@ =~= before + Seq::<PortAction>::empty());
                } else if portsc.ped_read() && !portsc.pr_read() && portsc.pls_read() == PortLinkState::U0 {
                    self.apply(port, PortState::Enabled, slot);
                    actions.push(PortAction::SendEnableSlot);
                    assert(actions@ =~= before + seq![PortAction::SendEnableSlot]);
                } else if attempts < PORT_RESET_MAX_ATTEMPTS {
                    self.start_reset_attempt(port, attempts + 1, &mut actions);
                } else {
                    self.apply(port, PortState::Idle, slot);
                    assert(actions@ =~= before + Seq::<PortAction>::empty());
                }
                reset_completed = true;
            }
        }
        let ghost mid = self@;
        let ghost acts_mid = actions@;
        assert(acts_mid =~= seq![PortAction::AckChanges] + (if psc_prc(portsc) && s0 is ResetInProgress {
            reset_complete_step(s0->attempts, sl0, portsc).2
        } else {
            Seq::<PortAction>::empty()
        }));
        if !portsc.csc_read() {
            return actions;
        }
        if !portsc.ccs_read() {
            self.disable_slot_locked(port, &mut actions);
            return actions;
        }
        let state = self.state(port);
        let is_debounce = match state {
            PortState::Debounce { .. } => true,
            _ => false,
        };
        let is_reset = match state {
            PortState::ResetInProgress { .. } => true,
            _ => false,
        };
        if reset_completed || is_debounce || is_reset {
            return actions;
        }
        if state == PortState::Enabled && self.slot(port).is_some() {
            self.disable_slot_locked(port, &mut actions);
        }
        let slot = self.slot(port);
        self.apply(port, PortState::Debounce { generation: 0 }, slot);
        let ghost before = actions@;
        actions.push(PortAction::ScheduleDebounce { generation: 0 });
        assert(actions@ =~= before + seq![PortAction::ScheduleDebounce { generation: 0 }]);
        proof {
            let a2 = if s0 == PortState::Enabled && sl0 is Some {
                disable_slot_step(s0, sl0).2
            } else {
                Seq::<PortAction>::empty()
            };
            assert(actions@ =~= acts_mid + a2 + seq![PortAction::ScheduleDebounce { generation: 0 }]);
            assert(self@.0 =~= t0.0.update(port as int, PortState::Debounce { generation: 0 }));
            assert(self@.1 =~= t0.1.update(port as int, sl0));
        }
        actions
    }
}

impl PortTable {
    /// The debounce time of `generation` has passed on `port`, whose status
    /// reads `portsc`.
    pub fn debounce_elapsed(&mut self, port: u8, generation: usize, portsc: PortStatusControl) -> (r: Vec<PortAction>)
        requires
            table_wf(old(self)@),
        ensures
            ({
                let st = debounce_step(old(self)@.0[port as int], old(self)@.1[port as int], generation, portsc);
                &&& final(self)@ == table_after(old(self)@, port as int, st)
                &&& r@ == st.2
            }),
            table_wf(final(self)@),
    {
        let mut actions: Vec<PortAction> = Vec::new();
        let state = self.state(port);
        let slot = self.slot(port);
        if state != (PortState::Debounce { generation }) {
            proof {
                assert(self@.0 =~= self@.0.update(port as int, state));
                assert(self@.1 =~= self@.1.update(port as int, slot));
            }
            return actions;
        }
        if !portsc.ccs_read() {
            self.apply(port, PortState::Idle, slot);
        } else if portsc.pls_read() == PortLinkState::U3 {
            actions.push(PortAction::SetLinkState(PortLinkState::Resume));
            actions.push(PortAction::ScheduleResumeToRExit);
            self.apply(port, PortState::Resuming { phase: ResumePhase::Resume }, slot);
            assert(actions@ =~= seq![PortAction::SetLinkState(PortLinkState::Resume), PortAction::ScheduleResumeToRExit]);
        } else {
            self.start_reset_attempt(port, 1, &mut actions);
            assert(actions@ =~= reset_attempt_step(slot, 1).2);
        }
        actions
    }

    /// Reset attempt `attempt` on `port`, whose status reads `portsc`, has
    /// run out of time.
    pub fn reset_timed_out(&mut self, port: u8, attempt: u8, portsc: PortStatusControl) -> (r: Vec<PortAction>)
        requires
            table_wf(old(self)@),
        ensures
            ({
                let st = reset_timeout_step(old(self)@.0[port as int], old(self)@.1[port as int], attempt, portsc);
                &&& final(self)@ == table_after(old(self)@, port as int, st)
                &&& r@ == st.2
            }),
            table_wf(final(self)@),
    {
        let mut actions: Vec<PortAction> = Vec::new();
        let state = self.state(port);
        let slot = self.slot(port);
        let attempts = match state {
            PortState::ResetInProgress { attempts } => attempts,
            _ => {
                proof {
                    assert(self@.0 =~= self@.0.update(port as int, state));
                    assert(self@.1 =~= self@.1.update(port as int, slot));
                }
                return actions;
            },
        };
        if attempts != attempt {
            proof {
                assert(self@.0 =~= self@.0.update(port as int, state));
                assert(self@.1 =~= self@.1.update(port as int, slot));
            }
            return actions;
        }
        if portsc.ccs_read() && attempts < PORT_RESET_MAX_ATTEMPTS {
            proof {
                assert(state_ok(self@.0[port as int]));
            }
            self.start_reset_attempt(port, attempts + 1, &mut actions);
            assert(actions@ =~= reset_attempt_step(slot, (attempt + 1) as u8).2);
        } else {
            self.apply(port, PortState::Idle, slot);
        }
        actions
    }

    /// The link of `port` has been driven to resume long enough; `now_ms`
    /// is the time.
    pub fn resume_elapsed(&mut self, port: u8, now_ms: u64) -> (r: Vec<PortAction>)
        requires
            table_wf(old(self)@),
        ensures
            ({
                let st = resume_step(old(self)@.0[port as int], old(self)@.1[port as int], now_ms);
                &&& final(self)@ == table_after(old(self)@, port as int, st)
                &&& r@ == st.2
            }),
            table_wf(final(self)@),
    {
        let mut actions: Vec<PortAction> = Vec::new();
        let state = self.state(port);
        let slot = self.slot(port);
        if state != (PortState::Resuming { phase: ResumePhase::Resume }) {
            proof {
                assert(self@.0 =~= self@.0.update(port as int, state));
                assert(self@.1 =~= self@.1.update(port as int, slot));
            }
            return actions;
        }
        actions.push(PortAction::SetLinkState(PortLinkState::U0));
        actions.push(PortAction::ScheduleRExitPoll { start_ms: now_ms });
        self.apply(port, PortState::Resuming { phase: ResumePhase::RExit }, slot);
        assert(actions@ =~= seq![PortAction::SetLinkState(PortLinkState::U0), PortAction::ScheduleRExitPoll { start_ms: now_ms }]);
        actions
    }

    /// A poll of `port`, whose status reads `portsc`, while its link exits
    /// resume since `start_ms`; `now_ms` is the time.
    pub fn rexit_poll(&mut self, port: u8, start_ms: u64, now_ms: u64, portsc: PortStatusControl) -> (r: Vec<PortAction>)
        requires
            table_wf(old(self)@),
        ensures
            ({
                let st = rexit_step(old(self)@.0[port as int], old(self)@.1[port as int], start_ms, now_ms, portsc);
                &&& final(self)@ == table_after(old(self)@, port as int, st)
                &&& r@ == st.2
            }),
            table_wf(final(self)@),
    {
        let mut actions: Vec<PortAction> = Vec::new();
        let state = self.state(port);
        let slot = self.slot(port);
        if state != (PortState::Resuming { phase: ResumePhase::RExit }) {
            proof {
                assert(self@.0 =~= self@.0.update(port as int, state));
                assert(self@.1 =~= self@.1.update(port as int, slot));
            }
            return actions;
        }
        if portsc.pls_read() == PortLinkState::U0 {
            self.start_reset_attempt(port, 1, &mut actions);
            assert(actions@ =~= reset_attempt_step(slot, 1).2);
        } else if now_ms.wrapping_sub(start_ms) >= PORT_RESUME_TIMEOUT_MS {
            self.apply(port, PortState::Idle, slot);
        } else {
            actions.push(PortAction::ScheduleRExitPoll { start_ms });
            proof {
                assert(self@.0 =~= self@.0.update(port as int, state));
                assert(self@.1 =~= self@.1.update(port as int, slot));
            }
            assert(actions@ =~= seq![PortAction::ScheduleRExitPoll { start_ms }]);
        }
        actions
    }

    /// The Enable Slot command of `port` completed with `completion_code`,
    /// giving `slot_id`.
    pub fn enable_slot_done(&mut self, port: u8, slot_id: u8, completion_code: u8) -> (r: Vec<PortAction>)
        requires
            table_wf(old(self)@),
        ensures
            ({
                let st = enable_slot_done_step(old(self)@.0[port as int], old(self)@.1[port as int], slot_id, completion_code);
                &&& final(self)@ == table_after(old(self)@, port as int, st)
                &&& r@ == st.2
            }),
            table_wf(final(self)@),
    {
        let mut actions: Vec<PortAction> = Vec::new();
        let state = self.state(port);
        let slot = self.slot(port);
        if completion_code != COMPLETION_SUCCESS || slot_id == 0 {
            self.disable_slot_locked(port, &mut actions);
            assert(actions@ =~= disable_slot_step(state, slot).2);
            return actions;
        }
        if slot.is_some() {
            actions.push(PortAction::SendDisableSlot { slot_id });
            proof {
                assert(self@.0 =~= self@.0.update(port as int, state));
                assert(self@.1 =~= self@.1.update(port as int, slot));
            }
            assert(actions@ =~= seq![PortAction::SendDisableSlot { slot_id }]);
            return actions;
        }
        proof {
            assert(state_ok(self@.0[port as int]));
        }
        self.apply(port, state, Some(slot_id));
        actions.push(PortAction::AllocateDevice { slot_id });
        assert(actions@ =~= seq![PortAction::AllocateDevice { slot_id }]);
        actions
    }

    /// Gives the slot of `port` back, where it has one, and sets the port
    /// idle: what a failure after the slot was asked for does.
    pub fn disable_slot(&mut self, port: u8) -> (r: Vec<PortAction>)
        requires
            table_wf(old(self)@),
        ensures
            ({
                let st = disable_slot_step(old(self)@.0[port as int], old(self)@.1[port as int]);
                &&& final(self)@ == table_after(old(self)@, port as int, st)
                &&& r@ == st.2
            }),
            table_wf(final(self)@),
    {
        let mut actions: Vec<PortAction> = Vec::new();
        self.disable_slot_locked(port, &mut actions);
        assert(actions@ =~= disable_slot_step(old(self)@.0[port as int], old(self)@.1[port as int]).2);
        actions
    }

    /// The Disable Slot command for `slot_id` of `port` completed with
    /// `completion_code`: the slot is released where the controller
    /// disabled it or never had it enabled. Gives whether the slot's
    /// context and device are to be dropped.
    pub fn disable_slot_done(&mut self, port: u8, slot_id: u8, completion_code: u8) -> (r: bool)
        requires
            table_wf(old(self)@),
        ensures
            r == (completion_code == COMPLETION_SUCCESS || completion_code == COMPLETION_SLOT_NOT_ENABLED),
            r ==> final(self)@ == table_after(old(self)@, port as int, release_slot_step(
                old(self)@.0[port as int],
                old(self)@.1[port as int],
                slot_id,
            )),
            !r ==> final(self)@ == old(self)@,
            table_wf(final(self)@),
    {
        if completion_code != COMPLETION_SUCCESS && completion_code != COMPLETION_SLOT_NOT_ENABLED {
            return false;
        }
        let state = self.state(port);
        let slot = self.slot(port);
        if slot == Some(slot_id) {
            self.apply(port, PortState::Idle, None);
        } else {
            proof {
                assert(self@.0 =~= self@.0.update(port as int, state));
                assert(self@.1 =~= self@.1.update(port as int, slot));
            }
        }
        true
    }

    /// Sending the Enable Slot command of `port` failed: the port goes idle.
    pub fn enable_slot_send_failed(&mut self, port: u8)
        requires
            table_wf(old(self)@),
        ensures
            final(self)@ == table_after(old(self)@, port as int, (PortState::Idle, old(self)@.1[port as int], Seq::empty())),
            table_wf(final(self)@),
    {
        let slot = self.slot(port);
        self.apply(port, PortState::Idle, slot);
    }

    /// Whether building the device of slot `slot_id` on `port` still goes
    /// ahead: the port has not lost that slot meanwhile.
    pub fn allocation_still_wanted(&self, port: u8, slot_id: u8) -> (r: bool)
        requires
            table_wf(self@),
        ensures
            r == (self@.1[port as int] == Some(slot_id)),
    {
        self.slot(port) == Some(slot_id)
    }

    /// A SET_CONFIGURATION request goes out for the device on `port`.
    pub fn begin_set_configuration(&mut self, port: u8)
        requires
            table_wf(old(self)@),
        ensures
            final(self)@ == table_after(old(self)@, port as int, (PortState::PendingSetConfiguration, old(self)@.1[port as int], Seq::empty())),
            table_wf(final(self)@),
    {
        let slot = self.slot(port);
        self.apply(port, PortState::PendingSetConfiguration, slot);
    }

    /// A control transfer of the device on `port` completed: a pending
    /// SET_CONFIGURATION leaves the port configured.
    pub fn control_transfer_done(&mut self, port: u8)
        requires
            table_wf(old(self)@),
        ensures
            old(self)@.0[port as int] == PortState::PendingSetConfiguration ==> final(self)@ == table_after(
                old(self)@,
                port as int,
                (PortState::Configured, old(self)@.1[port as int], Seq::empty()),
            ),
            old(self)@.0[port as int] != PortState::PendingSetConfiguration ==> final(self)@ == old(self)@,
            table_wf(final(self)@),
    {
        let state = self.state(port);
        if state == PortState::PendingSetConfiguration {
            let slot = self.slot(port);
            self.apply(port, PortState::Configured, slot);
        }
    }

    /// A device found connected to USB 2 port `port` at start-up: its
    /// changes are acknowledged and it is debounced. Ports without a
    /// device, and USB 3 ports, are left alone.
    pub fn init_port(&mut self, port: u8, connected: bool, is_usb2: bool) -> (r: Vec<PortAction>)
        requires
            table_wf(old(self)@),
        ensures
            connected && is_usb2 ==> final(self)@ == table_after(
                old(self)@,
                port as int,
                (PortState::Debounce { generation: 0 }, old(self)@.1[port as int], Seq::empty()),
            ) && r@ == seq![PortAction::AckChanges, PortAction::ScheduleDebounce { generation: 0 }],
            !(connected && is_usb2) ==> final(self)@ == old(self)@ && r@.len() == 0,
            table_wf(final(self)@),
    {
        let mut actions: Vec<PortAction> = Vec::new();
        if !connected || !is_usb2 {
            return actions;
        }
        let slot = self.slot(port);
        self.apply(port, PortState::Debounce { generation: 0 }, slot);
        actions.push(PortAction::AckChanges);
        actions.push(PortAction::ScheduleDebounce { generation: 0 });
        assert(actions@ =~= seq![PortAction::AckChanges, PortAction::ScheduleDebounce { generation: 0 }]);
        actions
    }
}

/// Whether SET_CONFIGURATION may go out on a port in `state`.
pub fn may_send_set_configuration(state: PortState) -> (r: bool)
    ensures
        r == (state == PortState::PendingSetConfiguration),
{
    state == PortState::PendingSetConfiguration
}

/// Every step keeps resets within their attempts: from a state whose reset
/// counts from one to the maximum, each handler leads to such a state.
pub proof fn law_steps_keep_reset_attempts_bounded(
    state: PortState,
    slot: Option<u8>,
    p: PortStatusControl,
    generation: usize,
    attempt: u8,
    now_ms: u64,
    start_ms: u64,
    slot_id: u8,
    code: u8,
)
    requires
        state_ok(state),
    ensures
        state_ok(status_change_step(state, slot, p).0),
        state_ok(debounce_step(state, slot, generation, p).0),
        state_ok(reset_timeout_step(state, slot, attempt, p).0),
        state_ok(resume_step(state, slot, now_ms).0),
        state_ok(rexit_step(state, slot, start_ms, now_ms, p).0),
        state_ok(enable_slot_done_step(state, slot, slot_id, code).0),
        state_ok(release_slot_step(state, slot, slot_id).0),
        state_ok(disable_slot_step(state, slot).0),
{
}

/// A detach, a status change whose device is gone, always leaves the port
/// idle, and its slot is given back where it had one.
pub proof fn law_detach_goes_idle(state: PortState, slot: Option<u8>, p: PortStatusControl)
    requires
        psc_csc(p),
        !psc_ccs(p),
    ensures
        status_change_step(state, slot, p).0 == PortState::Idle,
        forall|s: u8|
            slot == Some(s) && !(psc_prc(p) && state is ResetInProgress) ==> #[trigger] status_change_step(
                state,
                Some(s),
                p,
            ).2.contains(PortAction::SendDisableSlot { slot_id: s }),
{
    let st = status_change_step(state, slot, p);
    if let Some(s) = slot {
        if !(psc_prc(p) && state is ResetInProgress) {
            let acts = seq![PortAction::AckChanges] + Seq::<PortAction>::empty();
            assert(st.2 == acts + seq![PortAction::SendDisableSlot { slot_id: s }]);
            assert(st.2[1] == PortAction::SendDisableSlot { slot_id: s });
        }
    }
}

/// A port keeps the slot it has: a second slot handed to it is given back
/// and the first stays.
pub proof fn law_slot_not_replaced(state: PortState, s: u8, slot_id: u8)
    requires
        slot_id != 0,
    ensures
        enable_slot_done_step(state, Some(s), slot_id, COMPLETION_SUCCESS).1 == Some(s),
        enable_slot_done_step(state, Some(s), slot_id, COMPLETION_SUCCESS).2 == seq![
            PortAction::SendDisableSlot { slot_id },
        ],
{
}

/// A timer that fires for a debounce or a reset attempt that the port has
/// left behind changes nothing.
pub proof fn law_stale_timers_ignored(
    state: PortState,
    slot: Option<u8>,
    p: PortStatusControl,
    generation: usize,
    attempt: u8,
)
    ensures
        state != (PortState::Debounce { generation }) ==> debounce_step(state, slot, generation, p) == (
            state,
            slot,
            Seq::<PortAction>::empty(),
        ),
        state != (PortState::ResetInProgress { attempts: attempt }) ==> reset_timeout_step(state, slot, attempt, p) == (
            state,
            slot,
            Seq::<PortAction>::empty(),
        ),
{
}

/// A handler changes only the port it is given.
pub proof fn law_other_ports_unchanged(t: (Seq<PortState>, Seq<Option<u8>>), port: int, other: int, step: PortStep)
    requires
        table_wf(t),
        0 <= port < MAX_PORT_ENTRIES,
        0 <= other < MAX_PORT_ENTRIES,
        other != port,
    ensures
        table_after(t, port, step).0[other] == t.0[other],
        table_after(t, port, step).1[other] == t.1[other],
{
}

} // verus!
