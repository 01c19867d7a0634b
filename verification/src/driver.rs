//! The panel state machine.
//!
//! A [`PanelDriver`] tracks which protocol phase the panel is in and hands
//! out the plan of each phase. Every transition is explicit: a phase that
//! streams bytes to the panel (render, sleep-down) moves to an in-progress
//! state when its plan is issued and to its resting state only when the
//! runner confirms that the whole plan was replayed; a replay that fails
//! part-way is reported with [`PanelDriver::mark_failed`], which forces the
//! panel back to `PoweredDown`, the state from which
//! [`PanelDriver::power_on_and_reset`] always recovers.

use vstd::prelude::*;

use crate::DriverError;
use crate::protocol::BusOp;
use crate::protocol::blank_black_model;
use crate::protocol::blank_red_model;
use crate::protocol::clear_plan;
use crate::protocol::init_plan;
use crate::protocol::init_trace;
use crate::protocol::power_on_reset_plan;
use crate::protocol::power_on_reset_trace;
use crate::protocol::render_plan;
use crate::protocol::render_trace;
use crate::protocol::sleep_plan;
use crate::protocol::sleep_trace;

verus! {

/// The protocol phase the panel is in. Exactly one state is active per
/// panel at any time, and only the driver moves between them.
#[derive(Clone, Copy, Debug, PartialEq, Eq, Structural)]
pub enum PanelState {
    /// All lines low; nothing may run but a power-on and reset.
    PoweredDown,
    /// Powered and reset-pulsed; awaiting the configuration sequence.
    Resetting,
    /// Configured; ready to accept bitplanes.
    Initialized,
    /// A render plan has been issued and is being streamed to the panel.
    Rendering,
    /// The shutdown plan has been issued; the panel is entering deep sleep.
    Asleep,
}

/// The protocol driver of one panel: its plane size in bytes and its
/// current state.
#[derive(Clone, Copy)]
pub struct PanelDriver {
    plane_size: usize,
    state: PanelState,
}

impl PanelDriver {
    /// The byte length of one bitplane: `width * height / 8`.
    pub closed spec fn plane_size(&self) -> usize {
        self.plane_size
    }

    /// The state the panel is in.
    pub closed spec fn state(&self) -> PanelState {
        self.state
    }

    /// A driver for a panel of the given resolution, initially powered
    /// down.
    pub fn new(width: usize, height: usize) -> (d: PanelDriver)
        requires
            width * height <= usize::MAX,
        ensures
            d.plane_size() == width * height / 8,
            d.state() == PanelState::PoweredDown,
    {
        PanelDriver { plane_size: width * height / 8, state: PanelState::PoweredDown }
    }

    /// The byte length of one bitplane.
    pub fn plane_len(&self) -> (n: usize)
        ensures
            n == self.plane_size(),
    {
        self.plane_size
    }

    /// The state the panel is in.
    pub fn current_state(&self) -> (s: PanelState)
        ensures
            s == self.state(),
    {
        self.state
    }

    /// Drives the power line high and pulses reset. The recovery entry
    /// point: it may run from any state.
    pub(crate) fn power_on_and_reset(&mut self) -> (ops: Vec<BusOp>)
        ensures
            final(self).plane_size() == old(self).plane_size(),
            final(self).state() == PanelState::Resetting,
            ops@ == power_on_reset_trace(),
    {
        self.state = PanelState::Resetting;
        power_on_reset_plan()
    }

    /// Issues the fixed configuration sequence of this panel model.
    pub(crate) fn initialize(&mut self) -> (ops: Vec<BusOp>)
        requires
            old(self).state() == PanelState::Resetting,
        ensures
            final(self).plane_size() == old(self).plane_size(),
            final(self).state() == PanelState::Initialized,
            ops@ == init_trace(),
    {
        self.state = PanelState::Initialized;
        init_plan()
    }

    /// Issues the render plan for the two planes, or fails with
    /// `SizeMismatch` — before any bus operation and without a state
    /// change — when either plane's length is not the plane size.
    pub(crate) fn render(&mut self, black: &Vec<u8>, red: &Vec<u8>) -> (r: Result<
        Vec<BusOp>,
        DriverError,
    >)
        requires
            old(self).state() == PanelState::Initialized,
        ensures
            final(self).plane_size() == old(self).plane_size(),
            match r {
                Ok(ops) => black@.len() == old(self).plane_size() && red@.len() == old(
                    self,
                ).plane_size() && ops@ == render_trace(black@, red@) && final(self).state()
                    == PanelState::Rendering,
                Err(e) => e == DriverError::SizeMismatch && !(black@.len() == old(
                    self,
                ).plane_size() && red@.len() == old(self).plane_size()) && *final(self) == *old(
                    self,
                ),
            },
    {
        match render_plan(self.plane_size, black, red) {
            Ok(ops) => {
                self.state = PanelState::Rendering;
                Ok(ops)
            },
            Err(e) => Err(e),
        }
    }

    /// Issues the render plan of the two blank planes.
    pub(crate) fn clear(&mut self) -> (ops: Vec<BusOp>)
        requires
            old(self).state() == PanelState::Initialized,
        ensures
            final(self).plane_size() == old(self).plane_size(),
            final(self).state() == PanelState::Rendering,
            ops@ == render_trace(
                blank_black_model(old(self).plane_size() as nat),
                blank_red_model(old(self).plane_size() as nat),
            ),
    {
        self.state = PanelState::Rendering;
        clear_plan(self.plane_size)
    }

    /// Confirms that a render plan was replayed to the end, busy-wait
    /// included.
    pub(crate) fn complete_render(&mut self)
        requires
            old(self).state() == PanelState::Rendering,
        ensures
            final(self).plane_size() == old(self).plane_size(),
            final(self).state() == PanelState::Initialized,
    {
        self.state = PanelState::Initialized;
    }

    /// Issues the shutdown plan. It may run from any state: shutting the
    /// panel down is always permitted.
    pub(crate) fn sleep_down(&mut self) -> (ops: Vec<BusOp>)
        ensures
            final(self).plane_size() == old(self).plane_size(),
            final(self).state() == PanelState::Asleep,
            ops@ == sleep_trace(),
    {
        self.state = PanelState::Asleep;
        sleep_plan()
    }

    /// Confirms that the shutdown plan was replayed to the end. The
    /// session is over; the next operation must start from
    /// [`PanelDriver::power_on_and_reset`].
    pub(crate) fn complete_sleep(&mut self)
        requires
            old(self).state() == PanelState::Asleep,
        ensures
            final(self).plane_size() == old(self).plane_size(),
            final(self).state() == PanelState::PoweredDown,
    {
        self.state = PanelState::PoweredDown;
    }

    /// Records that a replay failed part-way. The panel is forced back to
    /// `PoweredDown`, so the next caller recovers deterministically from a
    /// power-on and reset.
    pub(crate) fn mark_failed(&mut self)
        ensures
            final(self).plane_size() == old(self).plane_size(),
            final(self).state() == PanelState::PoweredDown,
    {
        self.state = PanelState::PoweredDown;
    }
}

} // verus!
