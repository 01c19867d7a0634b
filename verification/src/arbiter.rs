//! The hardware arbitration layer.
//!
//! One panel is one physical, non-reentrant resource: two callers must
//! never have their command streams interleaved on its bus. An
//! [`ExclusiveHandle`] owns the panel's driver behind a lock; acquiring it
//! yields a [`PanelGuard`], which holds the driver by value, so exactly one
//! caller at a time can issue protocol operations. The guard is the only
//! way to reach the driver's state-changing operations, every plan a caller
//! replays is obtained while it holds the guard, and releasing the guard is
//! explicit, on every exit path, whether the operation succeeded or failed.

use vstd::prelude::*;
use vstd::rwlock::RwLock;
use vstd::rwlock::WriteHandle;

use crate::DriverError;
use crate::driver::PanelDriver;
use crate::driver::PanelState;
use crate::protocol::BusOp;
use crate::protocol::blank_black_model;
use crate::protocol::blank_red_model;
use crate::protocol::init_trace;
use crate::protocol::power_on_reset_trace;
use crate::protocol::render_trace;
use crate::protocol::sleep_trace;

verus! {

/// The single owner of a panel's driver. Created once at process start and
/// shared by reference among request handlers for the process lifetime.
pub struct ExclusiveHandle {
    plane: usize,
    lock: RwLock<PanelDriver, spec_fn(PanelDriver) -> bool>,
}

/// Sole possession of a panel, from [`ExclusiveHandle::acquire`] to
/// [`PanelGuard::release`].
pub struct PanelGuard<'a> {
    driver: PanelDriver,
    handle: WriteHandle<'a, PanelDriver, spec_fn(PanelDriver) -> bool>,
}

impl ExclusiveHandle {
    /// The byte length of one bitplane of the owned panel.
    pub closed spec fn plane_size(&self) -> usize {
        self.plane
    }

    /// The lock admits exactly the drivers of this handle's plane size.
    #[verifier::type_invariant]
    spec fn wf(&self) -> bool {
        forall|d: PanelDriver| #[trigger] self.lock.inv(d) <==> d.plane_size() == self.plane
    }

    /// Takes sole ownership of the given driver.
    pub fn new(driver: PanelDriver) -> (h: ExclusiveHandle)
        ensures
            h.plane_size() == driver.plane_size(),
    {
        let plane = driver.plane_len();
        let ghost ps = driver.plane_size();
        let lock = RwLock::<PanelDriver, spec_fn(PanelDriver) -> bool>::new(
            driver,
            Ghost(|d: PanelDriver| d.plane_size() == ps),
        );
        proof {
            assert forall|d: PanelDriver| #[trigger] lock.inv(d) <==> d.plane_size() == plane by {}
        }
        ExclusiveHandle { plane, lock }
    }

    /// The byte length of one bitplane. Request validation reads it before
    /// acquiring the guard, so malformed requests never hold the panel.
    pub fn plane_len(&self) -> (n: usize)
        ensures
            n == self.plane_size(),
    {
        self.plane
    }

    /// Blocks until the panel is free and takes sole possession of it.
    /// Callers are served in the order they acquire, never two at once.
    pub fn acquire(&self) -> (g: PanelGuard<'_>)
        ensures
            g.plane_size() == self.plane_size(),
    {
        proof {
            use_type_invariant(&*self);
        }
        let (driver, handle) = self.lock.acquire_write();
        PanelGuard { driver, handle }
    }
}

impl<'a> PanelGuard<'a> {
    /// The owned driver.
    pub closed spec fn driver(&self) -> PanelDriver {
        self.driver
    }

    /// The byte length of one bitplane of the owned panel.
    pub open spec fn plane_size(&self) -> usize {
        self.driver().plane_size()
    }

    /// The state the owned panel is in.
    pub open spec fn state(&self) -> PanelState {
        self.driver().state()
    }

    /// The guard can give the driver back to the lock it came from.
    #[verifier::type_invariant]
    spec fn wf(&self) -> bool {
        forall|d: PanelDriver| #[trigger] self.handle.rwlock().inv(d) <==> d.plane_size()
            == self.driver.plane_size()
    }

    /// The byte length of one bitplane.
    pub fn plane_len(&self) -> (n: usize)
        ensures
            n == self.plane_size(),
    {
        self.driver.plane_len()
    }

    /// The state the owned panel is in.
    pub fn current_state(&self) -> (s: PanelState)
        ensures
            s == self.state(),
    {
        self.driver.current_state()
    }

    /// Drives the power line high and pulses reset; recovers from any
    /// state.
    pub fn power_on_and_reset(&mut self) -> (ops: Vec<BusOp>)
        ensures
            final(self).plane_size() == old(self).plane_size(),
            final(self).state() == PanelState::Resetting,
            ops@ == power_on_reset_trace(),
    {
        proof {
            use_type_invariant(&*self);
        }
        let mut d = self.driver;
        let ops = d.power_on_and_reset();
        self.driver = d;
        ops
    }

    /// Issues the fixed configuration sequence.
    pub fn initialize(&mut self) -> (ops: Vec<BusOp>)
        requires
            old(self).state() == PanelState::Resetting,
        ensures
            final(self).plane_size() == old(self).plane_size(),
            final(self).state() == PanelState::Initialized,
            ops@ == init_trace(),
    {
        proof {
            use_type_invariant(&*self);
        }
        let mut d = self.driver;
        let ops = d.initialize();
        self.driver = d;
        ops
    }

    /// Issues the render plan for the two planes, or fails with
    /// `SizeMismatch` — without any bus operation or state change — when
    /// either plane's length is not the plane size.
    pub fn render(&mut self, black: &Vec<u8>, red: &Vec<u8>) -> (r: Result<Vec<BusOp>, DriverError>)
        requires
            old(self).state() == PanelState::Initialized,
        ensures
            final(self).plane_size() == old(self).plane_size(),
            match r {
                Ok(ops) => black@.len() == old(self).plane_size() && red@.len() == old(
                    self,
                ).plane_size() && ops@ == render_trace(black@, red@) && final(self).state()
                    == PanelState::Rendering,
                Err(e) => e == DriverError::SizeMismatch && !(black@.len() == old(
                    self,
                ).plane_size() && red@.len() == old(self).plane_size()) && final(self).state()
                    == PanelState::Initialized,
            },
    {
        proof {
            use_type_invariant(&*self);
        }
        let mut d = self.driver;
        let r = d.render(black, red);
        self.driver = d;
        r
    }

    /// Issues the render plan of the two blank planes.
    pub fn clear(&mut self) -> (ops: Vec<BusOp>)
        requires
            old(self).state() == PanelState::Initialized,
        ensures
            final(self).plane_size() == old(self).plane_size(),
            final(self).state() == PanelState::Rendering,
            ops@ == render_trace(
                blank_black_model(old(self).plane_size() as nat),
                blank_red_model(old(self).plane_size() as nat),
            ),
    {
        proof {
            use_type_invariant(&*self);
        }
        let mut d = self.driver;
        let ops = d.clear();
        self.driver = d;
        ops
    }

    /// Confirms that a render plan was replayed to the end.
    pub fn complete_render(&mut self)
        requires
            old(self).state() == PanelState::Rendering,
        ensures
            final(self).plane_size() == old(self).plane_size(),
            final(self).state() == PanelState::Initialized,
    {
        proof {
            use_type_invariant(&*self);
        }
        let mut d = self.driver;
        d.complete_render();
        self.driver = d;
    }

    /// Issues the shutdown plan; permitted from any state.
    pub fn sleep_down(&mut self) -> (ops: Vec<BusOp>)
        ensures
            final(self).plane_size() == old(self).plane_size(),
            final(self).state() == PanelState::Asleep,
            ops@ == sleep_trace(),
    {
        proof {
            use_type_invariant(&*self);
        }
        let mut d = self.driver;
        let ops = d.sleep_down();
        self.driver = d;
        ops
    }

    /// Confirms that the shutdown plan was replayed to the end.
    pub fn complete_sleep(&mut self)
        requires
            old(self).state() == PanelState::Asleep,
        ensures
            final(self).plane_size() == old(self).plane_size(),
            final(self).state() == PanelState::PoweredDown,
    {
        proof {
            use_type_invariant(&*self);
        }
        let mut d = self.driver;
        d.complete_sleep();
        self.driver = d;
    }

    /// Records a replay that failed part-way; the panel is forced back to
    /// `PoweredDown` so the next caller recovers deterministically.
    pub fn mark_failed(&mut self)
        ensures
            final(self).plane_size() == old(self).plane_size(),
            final(self).state() == PanelState::PoweredDown,
    {
        proof {
            use_type_invariant(&*self);
        }
        let mut d = self.driver;
        d.mark_failed();
        self.driver = d;
    }

    /// The whole render cycle of one request as a single plan: power-on
    /// and reset, initialization, the render of the two planes, and the
    /// shutdown, in that order with nothing between them — the plan a
    /// caller replays under the guard is its own four phases and no one
    /// else's. The plane lengths are validated before the first operation
    /// of the plan exists.
    pub fn run_render_cycle(&mut self, black: &Vec<u8>, red: &Vec<u8>) -> (r: Result<
        Vec<BusOp>,
        DriverError,
    >)
        ensures
            final(self).plane_size() == old(self).plane_size(),
            match r {
                Ok(ops) => black@.len() == old(self).plane_size() && red@.len() == old(
                    self,
                ).plane_size() && ops@ == power_on_reset_trace() + init_trace() + render_trace(
                    black@,
                    red@,
                ) + sleep_trace() && final(self).state() == PanelState::Asleep,
                Err(e) => e == DriverError::SizeMismatch && !(black@.len() == old(
                    self,
                ).plane_size() && red@.len() == old(self).plane_size()) && final(self).state()
                    == old(self).state(),
            },
    {
        let plane = self.driver.plane_len();
        if black.len() != plane || red.len() != plane {
            return Err(DriverError::SizeMismatch);
        }
        let mut ops = self.power_on_and_reset();
        let mut init_ops = self.initialize();
        ops.append(&mut init_ops);
        let mut render_ops = match self.render(black, red) {
            Ok(render_ops) => render_ops,
            Err(_) => {
                proof {
                    assert(false);
                }
                Vec::new()
            },
        };
        ops.append(&mut render_ops);
        self.complete_render();
        let mut sleep_ops = self.sleep_down();
        ops.append(&mut sleep_ops);
        proof {
            assert(ops@ =~= power_on_reset_trace() + init_trace() + render_trace(black@, red@)
                + sleep_trace());
        }
        Ok(ops)
    }

    /// The whole clear cycle as a single plan: power-on and reset,
    /// initialization, the render of the two blank planes, and the
    /// shutdown, in that order with nothing between them.
    pub fn run_clear_cycle(&mut self) -> (ops: Vec<BusOp>)
        ensures
            final(self).plane_size() == old(self).plane_size(),
            final(self).state() == PanelState::Asleep,
            ops@ == power_on_reset_trace() + init_trace() + render_trace(
                blank_black_model(old(self).plane_size() as nat),
                blank_red_model(old(self).plane_size() as nat),
            ) + sleep_trace(),
    {
        let mut ops = self.power_on_and_reset();
        let mut init_ops = self.initialize();
        ops.append(&mut init_ops);
        let mut clear_ops = self.clear();
        ops.append(&mut clear_ops);
        self.complete_render();
        let mut sleep_ops = self.sleep_down();
        ops.append(&mut sleep_ops);
        proof {
            assert(ops@ =~= power_on_reset_trace() + init_trace() + render_trace(
                blank_black_model(old(self).plane_size() as nat),
                blank_red_model(old(self).plane_size() as nat),
            ) + sleep_trace());
        }
        ops
    }

    /// Gives the panel back. Possession ends here and nowhere else; the
    /// next caller in line acquires it.
    pub fn release(self) {
        proof {
            use_type_invariant(&self);
        }
        let PanelGuard { driver, handle } = self;
        handle.release_write(driver);
    }
}

} // verus!
