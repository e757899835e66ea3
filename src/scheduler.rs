use vstd::prelude::*;
use vstd::arithmetic::div_mod::{lemma_fundamental_div_mod, lemma_mod_pos_bound};
use crate::config::{Configuration, ConfigurationError, configuration_error};
use crate::layout::{BotLayout, GeometryError, build_layout, geometry_error, layout_matches};
use crate::motors::{MotorsTorque, wheel_torque_spec, zero_torque};
use crate::trace::{ExecutionData, ExecutionStep};

verus! {

/// A call the guest makes into the host; the whole guest-to-host surface.
#[derive(Debug, Clone, Copy, PartialEq, Eq, Structural)]
pub enum DeviceOperation {
    /// Normalised motor powers, signed; out-of-range values are clamped.
    SetMotors { left_power: i32, right_power: i32 },
    ReadSensors,
    /// Block for this many microseconds of logical time.
    SleepFor { duration_us: u64 },
}

/// How a guest misbehaved.
#[derive(Debug, Clone, Copy, PartialEq, Eq, Structural)]
pub enum GuestFaultKind {
    /// The guest trapped.
    Trap,
    /// The guest used up its fuel without yielding.
    FuelExhausted,
    /// The guest passed malformed arguments to a device operation.
    MalformedCall,
    /// The guest called a device operation before the run started.
    CapabilityUnavailable,
}

/// Why a run ended in `Faulted`.
#[derive(Debug, Clone, Copy, PartialEq, Eq, Structural)]
pub enum FaultReason {
    /// The module could not be parsed or does not export `setup` and `run`.
    Load,
    Configuration(ConfigurationError),
    Geometry(GeometryError),
    Guest(GuestFaultKind),
    /// A pose or velocity was not finite after a step.
    SolverDivergence,
}

/// Phase of a run.
#[derive(Debug, Clone, Copy, PartialEq, Eq, Structural)]
pub enum RunState {
    Loading,
    Configuring,
    Running,
    Completed,
    Faulted(FaultReason),
}

/// What the host must do after handing a device operation to the scheduler.
#[derive(Debug, Clone, Copy, PartialEq, Eq, Structural)]
pub enum HostAction {
    /// Return to the guest.
    Resume,
    /// Sample the line sensors, then return the readings to the guest.
    ReadSensors,
    /// Advance the physics world this many fixed steps, recording each with
    /// [`Scheduler::record_step`], then return to the guest if still running.
    Advance(u64),
    /// Stop the guest: the run is over.
    Halt,
}

/// Mathematical state of a [`Scheduler`].
pub struct SchedulerModel<P> {
    pub state: RunState,
    pub fixed_dt: nat,
    pub budget: nat,
    /// Logical clock, in microseconds.
    pub clock: nat,
    /// Physics steps still owed to the current sleep.
    pub pending: nat,
    pub configuration: Option<Configuration>,
    pub motors: MotorsTorque,
    pub trace: Seq<ExecutionStep<P>>,
}

/// Physics steps a sleep of `d` microseconds asks for: `ceil(d / dt)`, and one
/// step for a zero sleep.
pub open spec fn sleep_steps(d: nat, dt: nat) -> nat
    recommends
        dt > 0,
{
    if d == 0 {
        1
    } else if d % dt == 0 {
        d / dt
    } else {
        d / dt + 1
    }
}

/// Steps left before the clock reaches the budget (at least one while below it).
pub open spec fn steps_to_budget<P>(m: SchedulerModel<P>) -> nat {
    sleep_steps((m.budget - m.clock) as nat, m.fixed_dt)
}

pub open spec fn min_nat(a: nat, b: nat) -> nat {
    if a <= b {
        a
    } else {
        b
    }
}

/// Steps a sleep of `d` actually runs: never past the first step that reaches the budget.
pub open spec fn planned_steps<P>(m: SchedulerModel<P>, d: nat) -> nat {
    min_nat(sleep_steps(d, m.fixed_dt), steps_to_budget(m))
}

pub open spec fn is_terminal(s: RunState) -> bool {
    s is Completed || s is Faulted
}

/// The invariant of every reachable scheduler state.
pub open spec fn model_wf<P>(m: SchedulerModel<P>) -> bool {
    &&& m.fixed_dt > 0
    &&& m.budget + m.fixed_dt <= u64::MAX
    &&& m.clock == m.trace.len() * m.fixed_dt
    &&& m.clock + m.pending * m.fixed_dt < m.budget + m.fixed_dt
    &&& forall|i: int| 0 <= i < m.trace.len() ==> #[trigger] m.trace[i].time_us == i * m.fixed_dt
    &&& m.pending > 0 ==> m.state is Running
    &&& m.state is Completed ==> m.clock >= m.budget
    &&& m.state is Running ==> m.configuration is Some && m.configuration->0.gear_ratio_den > 0
}

pub open spec fn initial_model<P>(fixed_dt: nat, budget: nat) -> SchedulerModel<P> {
    SchedulerModel {
        state: RunState::Loading,
        fixed_dt,
        budget,
        clock: 0,
        pending: 0,
        configuration: None,
        motors: MotorsTorque { left: zero_torque(), right: zero_torque() },
        trace: Seq::empty(),
    }
}

pub open spec fn with_state<P>(m: SchedulerModel<P>, s: RunState) -> SchedulerModel<P> {
    SchedulerModel { state: s, pending: 0, ..m }
}

/// The module was (or was not) instantiated and found to export `setup` and `run`.
pub open spec fn module_loaded_spec<P>(m: SchedulerModel<P>, ok: bool) -> SchedulerModel<P> {
    if ok {
        with_state(m, RunState::Configuring)
    } else {
        with_state(m, RunState::Faulted(FaultReason::Load))
    }
}

/// `setup()` returned `c`.
pub open spec fn configure_spec<P>(m: SchedulerModel<P>, c: Configuration) -> SchedulerModel<P> {
    match configuration_error(c) {
        Some(e) => with_state(m, RunState::Faulted(FaultReason::Configuration(e))),
        None => match geometry_error(c) {
            Some(g) => with_state(m, RunState::Faulted(FaultReason::Geometry(g))),
            None => SchedulerModel { state: RunState::Running, configuration: Some(c), ..m },
        },
    }
}

/// The guest issued `op` while the host was waiting on it.
pub open spec fn handle_spec<P>(m: SchedulerModel<P>, op: DeviceOperation) -> (SchedulerModel<P>, HostAction) {
    match m.state {
        RunState::Running => match op {
            DeviceOperation::SetMotors { left_power, right_power } => {
                let c = m.configuration->0;
                let motors = MotorsTorque {
                    left: wheel_torque_spec(left_power as int, c.gear_ratio_num as int, c.gear_ratio_den as int),
                    right: wheel_torque_spec(right_power as int, c.gear_ratio_num as int, c.gear_ratio_den as int),
                };
                (SchedulerModel { motors, ..m }, HostAction::Resume)
            },
            DeviceOperation::ReadSensors => (m, HostAction::ReadSensors),
            DeviceOperation::SleepFor { duration_us } => if m.clock >= m.budget {
                (with_state(m, RunState::Completed), HostAction::Halt)
            } else {
                let n = planned_steps(m, duration_us as nat);
                (SchedulerModel { pending: n, ..m }, HostAction::Advance(n as u64))
            },
        },
        RunState::Loading | RunState::Configuring => (
            with_state(m, RunState::Faulted(FaultReason::Guest(GuestFaultKind::CapabilityUnavailable))),
            HostAction::Halt,
        ),
        _ => (m, HostAction::Halt),
    }
}

/// One physics step of the current sleep ran; `finite` says whether every
/// pose and velocity after it is finite. The entry is stamped with the logical
/// time at which the step began.
pub open spec fn record_spec<P>(m: SchedulerModel<P>, body: P, left: P, right: P, finite: bool) -> SchedulerModel<P> {
    if !finite {
        with_state(m, RunState::Faulted(FaultReason::SolverDivergence))
    } else {
        let clock = m.clock + m.fixed_dt;
        let pending = (m.pending - 1) as nat;
        let step = ExecutionStep { time_us: m.clock as u64, body, left_wheel: left, right_wheel: right };
        SchedulerModel {
            state: if pending == 0 && clock >= m.budget {
                RunState::Completed
            } else {
                RunState::Running
            },
            clock,
            pending,
            trace: m.trace.push(step),
            ..m
        }
    }
}

/// The guest trapped or ran out of fuel; a run that is already over stays as it is.
pub open spec fn guest_fault_spec<P>(m: SchedulerModel<P>, kind: GuestFaultKind) -> SchedulerModel<P> {
    if is_terminal(m.state) {
        m
    } else {
        with_state(m, RunState::Faulted(FaultReason::Guest(kind)))
    }
}

/// Everything that can happen to a scheduler.
pub enum SchedulerEvent<P> {
    Loaded(bool),
    Setup(Configuration),
    Device(DeviceOperation),
    Step { body: P, left: P, right: P, finite: bool },
    Fault(GuestFaultKind),
}

pub open spec fn apply_event<P>(m: SchedulerModel<P>, e: SchedulerEvent<P>) -> SchedulerModel<P> {
    match e {
        SchedulerEvent::Loaded(ok) => module_loaded_spec(m, ok),
        SchedulerEvent::Setup(c) => configure_spec(m, c),
        SchedulerEvent::Device(op) => handle_spec(m, op).0,
        SchedulerEvent::Step { body, left, right, finite } => record_spec(m, body, left, right, finite),
        SchedulerEvent::Fault(kind) => guest_fault_spec(m, kind),
    }
}

/// The trace and fault a finished (or abandoned) run hands back.
pub struct RunOutcome<P> {
    pub trace: ExecutionData<P>,
    pub fault: Option<FaultReason>,
    pub clock_us: u64,
}

/// The co-simulation scheduler of one run. It owns the logical clock, the motor
/// torques, the effective configuration and the trace, and decides for each
/// guest call what the host does next.
pub struct Scheduler<P> {
    state: RunState,
    fixed_dt_us: u64,
    budget_us: u64,
    clock_us: u64,
    pending_steps: u64,
    configuration: Option<Configuration>,
    motors: MotorsTorque,
    trace: ExecutionData<P>,
}

impl<P> View for Scheduler<P> {
    type V = SchedulerModel<P>;

    closed spec fn view(&self) -> SchedulerModel<P> {
        SchedulerModel {
            state: self.state,
            fixed_dt: self.fixed_dt_us as nat,
            budget: self.budget_us as nat,
            clock: self.clock_us as nat,
            pending: self.pending_steps as nat,
            configuration: self.configuration,
            motors: self.motors,
            trace: self.trace.steps@,
        }
    }
}

pub(crate) proof fn lemma_ceil_bounds(x: nat, dt: nat)
    requires
        x > 0,
        dt > 0,
    ensures
        x <= sleep_steps(x, dt) * dt < x + dt,
        sleep_steps(x, dt) >= 1,
{
    lemma_fundamental_div_mod(x as int, dt as int);
    lemma_mod_pos_bound(x as int, dt as int);
    let q = x / dt;
    let r = x % dt;
    if r == 0 {
        assert(q * dt == x) by (nonlinear_arith)
            requires
                x == dt * q + r,
                r == 0,
        ;
        assert(q >= 1) by (nonlinear_arith)
            requires
                q * dt == x,
                x > 0,
                q >= 0,
        ;
    } else {
        assert((q + 1) * dt == x - r + dt) by (nonlinear_arith)
            requires
                x == dt * q + r,
        ;
    }
}

proof fn lemma_sleep_steps_positive(d: nat, dt: nat)
    requires
        dt > 0,
    ensures
        sleep_steps(d, dt) >= 1,
{
    if d > 0 {
        lemma_ceil_bounds(d, dt);
    }
}

/// `sleep_steps` computed without overflow.
fn sleep_steps_exec(d: u64, dt: u64) -> (r: u64)
    requires
        dt > 0,
    ensures
        r as nat == sleep_steps(d as nat, dt as nat),
        r >= 1,
{
    proof {
        lemma_sleep_steps_positive(d as nat, dt as nat);
    }
    if d == 0 {
        1
    } else if d % dt == 0 {
        d / dt
    } else {
        proof {
            lemma_fundamental_div_mod(d as int, dt as int);
            lemma_mod_pos_bound(d as int, dt as int);
            assert(dt >= 2);
            assert(d / dt < u64::MAX) by (nonlinear_arith)
                requires
                    d == dt * (d / dt) + d % dt,
                    d % dt >= 0,
                    dt >= 2,
                    d <= u64::MAX,
                    d / dt >= 0,
            ;
        }
        d / dt + 1
    }
}

impl<P> Scheduler<P> {
    /// A scheduler in `Loading`, with logical time at zero.
    pub fn new(fixed_dt_us: u64, budget_us: u64) -> (r: Scheduler<P>)
        requires
            fixed_dt_us > 0,
            budget_us + fixed_dt_us <= u64::MAX,
        ensures
            r@ == initial_model::<P>(fixed_dt_us as nat, budget_us as nat),
            model_wf(r@),
    {
        let r = Scheduler {
            state: RunState::Loading,
            fixed_dt_us,
            budget_us,
            clock_us: 0,
            pending_steps: 0,
            configuration: None,
            motors: MotorsTorque::new(),
            trace: ExecutionData::new(),
        };
        r
    }

    pub fn state(&self) -> (r: RunState)
        ensures
            r == self@.state,
    {
        self.state
    }

    pub fn clock_us(&self) -> (r: u64)
        ensures
            r == self@.clock,
    {
        self.clock_us
    }

    pub fn pending_steps(&self) -> (r: u64)
        ensures
            r == self@.pending,
    {
        self.pending_steps
    }

    pub fn fixed_dt_us(&self) -> (r: u64)
        ensures
            r == self@.fixed_dt,
    {
        self.fixed_dt_us
    }

    /// The configuration the run uses, once `setup()` has returned a valid one.
    pub fn configuration(&self) -> (r: Option<&Configuration>)
        ensures
            r == (match self@.configuration {
                Some(c) => Some(&c),
                None => None::<&Configuration>,
            }),
    {
        match &self.configuration {
            Some(c) => Some(c),
            None => None,
        }
    }

    pub fn motors(&self) -> (r: MotorsTorque)
        ensures
            r == self@.motors,
    {
        self.motors
    }

    pub fn trace_len(&self) -> (r: usize)
        ensures
            r == self@.trace.len(),
    {
        self.trace.len()
    }

    /// Records whether the guest module loaded and exports the expected interface.
    pub fn module_loaded(&mut self, ok: bool)
        requires
            model_wf(old(self)@),
            old(self)@.state is Loading,
        ensures
            model_wf(final(self)@),
            final(self)@ == module_loaded_spec(old(self)@, ok),
            final(self)@ == apply_event(old(self)@, SchedulerEvent::Loaded(ok)),
    {
        self.pending_steps = 0;
        if ok {
            self.state = RunState::Configuring;
        } else {
            self.state = RunState::Faulted(FaultReason::Load);
        }
    }

    /// Takes the record `setup()` returned: on success the run starts and the
    /// robot's collider layout is returned for the physics world to build.
    pub fn configure(&mut self, c: Configuration) -> (r: Result<BotLayout, FaultReason>)
        requires
            model_wf(old(self)@),
            old(self)@.state is Configuring,
        ensures
            model_wf(final(self)@),
            final(self)@ == configure_spec(old(self)@, c),
            final(self)@ == apply_event(old(self)@, SchedulerEvent::Setup(c)),
            match final(self)@.state {
                RunState::Running => r matches Ok(l) && layout_matches(l, c),
                RunState::Faulted(reason) => r == Err::<BotLayout, FaultReason>(reason),
                _ => false,
            },
    {
        match c.validate() {
            Err(e) => {
                self.pending_steps = 0;
                self.state = RunState::Faulted(FaultReason::Configuration(e));
                Err(FaultReason::Configuration(e))
            },
            Ok(()) => match build_layout(&c) {
                Err(g) => {
                    self.pending_steps = 0;
                    self.state = RunState::Faulted(FaultReason::Geometry(g));
                    Err(FaultReason::Geometry(g))
                },
                Ok(layout) => {
                    self.state = RunState::Running;
                    self.configuration = Some(c);
                    Ok(layout)
                },
            },
        }
    }

    /// Handles one device operation of the guest and says what the host does next.
    pub fn handle(&mut self, op: DeviceOperation) -> (r: HostAction)
        requires
            model_wf(old(self)@),
            old(self)@.pending == 0,
        ensures
            model_wf(final(self)@),
            (final(self)@, r) == handle_spec(old(self)@, op),
            final(self)@ == apply_event(old(self)@, SchedulerEvent::Device(op)),
    {
        match self.state {
            RunState::Running => match op {
                DeviceOperation::SetMotors { left_power, right_power } => {
                    let (num, den) = match &self.configuration {
                        Some(c) => (c.gear_ratio_num, c.gear_ratio_den),
                        None => (0, 1),
                    };
                    self.motors.set_motors_power(left_power, right_power, num, den);
                    HostAction::Resume
                },
                DeviceOperation::ReadSensors => HostAction::ReadSensors,
                DeviceOperation::SleepFor { duration_us } => {
                    if self.clock_us >= self.budget_us {
                        self.state = RunState::Completed;
                        HostAction::Halt
                    } else {
                        let wanted = sleep_steps_exec(duration_us, self.fixed_dt_us);
                        let left = sleep_steps_exec(self.budget_us - self.clock_us, self.fixed_dt_us);
                        let n = if wanted <= left { wanted } else { left };
                        proof {
                            let m = old(self)@;
                            lemma_ceil_bounds((m.budget - m.clock) as nat, m.fixed_dt);
                            assert(n * m.fixed_dt <= left * m.fixed_dt) by (nonlinear_arith)
                                requires
                                    n <= left,
                            ;
                        }
                        self.pending_steps = n;
                        HostAction::Advance(n)
                    }
                },
            },
            RunState::Loading | RunState::Configuring => {
                self.state = RunState::Faulted(FaultReason::Guest(GuestFaultKind::CapabilityUnavailable));
                HostAction::Halt
            },
            _ => HostAction::Halt,
        }
    }

    /// Records one physics step of the current sleep, with the poses after it.
    /// Returns whether the run is still going.
    pub fn record_step(&mut self, body: P, left: P, right: P, finite: bool) -> (r: bool)
        requires
            model_wf(old(self)@),
            old(self)@.pending > 0,
        ensures
            model_wf(final(self)@),
            final(self)@ == record_spec(old(self)@, body, left, right, finite),
            final(self)@ == apply_event(old(self)@, SchedulerEvent::Step { body, left, right, finite }),
            r == (final(self)@.state is Running),
    {
        if !finite {
            self.pending_steps = 0;
            self.state = RunState::Faulted(FaultReason::SolverDivergence);
            return false;
        }
        proof {
            let m = old(self)@;
            assert(m.pending * m.fixed_dt >= m.fixed_dt) by (nonlinear_arith)
                requires
                    m.pending >= 1,
                    m.fixed_dt > 0,
            ;
            assert((m.pending - 1) * m.fixed_dt == m.pending * m.fixed_dt - m.fixed_dt) by (nonlinear_arith);
            assert((m.trace.len() + 1) * m.fixed_dt == m.trace.len() * m.fixed_dt + m.fixed_dt) by (nonlinear_arith);
        }
        let step = ExecutionStep { time_us: self.clock_us, body, left_wheel: left, right_wheel: right };
        self.trace.record(step);
        self.clock_us = self.clock_us + self.fixed_dt_us;
        self.pending_steps = self.pending_steps - 1;
        if self.pending_steps == 0 && self.clock_us >= self.budget_us {
            self.state = RunState::Completed;
        }
        matches!(self.state, RunState::Running)
    }

    /// The guest trapped, ran out of fuel or made a malformed call.
    pub fn guest_fault(&mut self, kind: GuestFaultKind)
        requires
            model_wf(old(self)@),
        ensures
            model_wf(final(self)@),
            final(self)@ == guest_fault_spec(old(self)@, kind),
            final(self)@ == apply_event(old(self)@, SchedulerEvent::Fault(kind)),
    {
        match self.state {
            RunState::Completed | RunState::Faulted(_) => {},
            _ => {
                self.pending_steps = 0;
                self.state = RunState::Faulted(FaultReason::Guest(kind));
            },
        }
    }

    /// Ends the run and hands back its trace, possibly truncated at a fault,
    /// with the fault's reason.
    pub fn finalize(self) -> (r: RunOutcome<P>)
        ensures
            r.trace.steps@ == self@.trace,
            r.clock_us == self@.clock,
            r.fault == (match self@.state {
                RunState::Faulted(reason) => Some(reason),
                _ => None::<FaultReason>,
            }),
    {
        let fault = match self.state {
            RunState::Faulted(reason) => Some(reason),
            _ => None,
        };
        RunOutcome { trace: self.trace, fault, clock_us: self.clock_us }
    }
}

} // verus!
