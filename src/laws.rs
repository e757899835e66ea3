use vstd::prelude::*;
use crate::config::{Configuration, valid_configuration};
use crate::layout::geometry_error;
use crate::scheduler::{
    lemma_ceil_bounds,
    configure_spec, guest_fault_spec, handle_spec, is_terminal, model_wf, module_loaded_spec, planned_steps,
    record_spec, sleep_steps, with_state, apply_event, DeviceOperation, FaultReason, GuestFaultKind, HostAction,
    RunState, SchedulerEvent, SchedulerModel,
};

verus! {

/// `n` finite physics steps of the current sleep, each recorded with `pose`
/// for the chassis and both wheels.
pub open spec fn record_n<P>(m: SchedulerModel<P>, n: nat, pose: P) -> SchedulerModel<P>
    decreases n,
{
    if n == 0 {
        m
    } else {
        record_n(record_spec(m, pose, pose, pose, true), (n - 1) as nat, pose)
    }
}

/// One call `op` of the guest, followed by the physics steps it asks for.
pub open spec fn guest_call<P>(m: SchedulerModel<P>, op: DeviceOperation, pose: P) -> SchedulerModel<P> {
    let (m1, a) = handle_spec(m, op);
    match a {
        HostAction::Advance(n) => record_n(m1, n as nat, pose),
        _ => m1,
    }
}

/// One `SleepFor(d)` call of the guest, followed by the physics steps it asks for.
pub open spec fn sleep_cycle<P>(m: SchedulerModel<P>, d: u64, pose: P) -> SchedulerModel<P> {
    guest_call(m, DeviceOperation::SleepFor { duration_us: d }, pose)
}

/// A guest that makes the calls `ops` in turn.
pub open spec fn guest_run<P>(m: SchedulerModel<P>, ops: Seq<DeviceOperation>, pose: P) -> SchedulerModel<P>
    decreases ops.len(),
{
    if ops.len() == 0 {
        m
    } else {
        guest_run(guest_call(m, ops[0], pose), ops.drop_first(), pose)
    }
}

/// How many of the calls `ops` are sleeps.
pub open spec fn sleep_count(ops: Seq<DeviceOperation>) -> nat
    decreases ops.len(),
{
    if ops.len() == 0 {
        0
    } else {
        (if ops[0] is SleepFor {
            1nat
        } else {
            0nat
        }) + sleep_count(ops.drop_first())
    }
}

/// The state after the events `es`, in order.
pub open spec fn replay<P>(m: SchedulerModel<P>, es: Seq<SchedulerEvent<P>>) -> SchedulerModel<P>
    decreases es.len(),
{
    if es.len() == 0 {
        m
    } else {
        replay(apply_event(m, es[0]), es.drop_first())
    }
}

/// An event the scheduler takes in state `m`: the load result while loading,
/// the setup record while configuring, a guest call while no step is owed, a
/// physics step while one is, and a guest fault at any time.
pub open spec fn admissible<P>(m: SchedulerModel<P>, e: SchedulerEvent<P>) -> bool {
    match e {
        SchedulerEvent::Loaded(_) => m.state is Loading,
        SchedulerEvent::Setup(_) => m.state is Configuring,
        SchedulerEvent::Device(_) => m.pending == 0,
        SchedulerEvent::Step { .. } => m.pending > 0,
        SchedulerEvent::Fault(_) => true,
    }
}

/// Every event of `es` is admissible in the state the ones before it lead to.
pub open spec fn all_admissible<P>(m: SchedulerModel<P>, es: Seq<SchedulerEvent<P>>) -> bool
    decreases es.len(),
{
    es.len() == 0 || (admissible(m, es[0]) && all_admissible(apply_event(m, es[0]), es.drop_first()))
}

/// Replaying one more event is applying it to the replay so far. Each method
/// of `Scheduler` ensures `final(self)@ == apply_event(old(self)@, e)` for its
/// event `e`, so after any series of calls a scheduler is exactly the replay of
/// those calls' events from the state it started in.
pub proof fn lemma_replay_push<P>(m: SchedulerModel<P>, es: Seq<SchedulerEvent<P>>, e: SchedulerEvent<P>)
    ensures
        replay(m, es.push(e)) == apply_event(replay(m, es), e),
    decreases es.len(),
{
    if es.len() == 0 {
        assert(es.push(e).drop_first() =~= Seq::<SchedulerEvent<P>>::empty());
        assert(es.push(e)[0] == e);
        assert(replay(m, es) == m);
        assert(replay(apply_event(m, e), Seq::<SchedulerEvent<P>>::empty()) == apply_event(m, e));
        assert(replay(m, es.push(e)) == replay(apply_event(m, e), es.push(e).drop_first()));
    } else {
        assert(es.push(e).drop_first() =~= es.drop_first().push(e));
        assert(es.push(e)[0] == es[0]);
        lemma_replay_push(apply_event(m, es[0]), es.drop_first(), e);
        assert(replay(m, es.push(e)) == replay(apply_event(m, es[0]), es.push(e).drop_first()));
        assert(replay(m, es) == replay(apply_event(m, es[0]), es.drop_first()));
    }
}

proof fn lemma_with_state_wf<P>(m: SchedulerModel<P>, s: RunState)
    requires
        model_wf(m),
        !(s is Running),
        s is Completed ==> m.clock >= m.budget,
    ensures
        model_wf(with_state(m, s)),
{
    assert(m.pending * m.fixed_dt >= 0) by (nonlinear_arith);
}

proof fn lemma_sleep_plan_wf<P>(m: SchedulerModel<P>, d: u64)
    requires
        model_wf(m),
        m.state is Running,
        m.pending == 0,
        m.clock < m.budget,
    ensures
        model_wf(handle_spec(m, DeviceOperation::SleepFor { duration_us: d }).0),
        planned_steps(m, d as nat) >= 1,
        handle_spec(m, DeviceOperation::SleepFor { duration_us: d }).0.pending == planned_steps(m, d as nat),
{
    let x = (m.budget - m.clock) as nat;
    lemma_ceil_bounds(x, m.fixed_dt);
    if d > 0 {
        lemma_ceil_bounds(d as nat, m.fixed_dt);
    }
    let n = planned_steps(m, d as nat);
    assert(n >= 1);
    assert(n * m.fixed_dt <= sleep_steps(x, m.fixed_dt) * m.fixed_dt) by (nonlinear_arith)
        requires
            n <= sleep_steps(x, m.fixed_dt),
    ;
}

/// Every admissible event keeps the scheduler's invariant.
pub proof fn lemma_event_preserves_wf<P>(m: SchedulerModel<P>, e: SchedulerEvent<P>)
    requires
        model_wf(m),
        admissible(m, e),
    ensures
        model_wf(apply_event(m, e)),
{
    match e {
        SchedulerEvent::Loaded(ok) => {
            lemma_with_state_wf(m, RunState::Configuring);
            lemma_with_state_wf(m, RunState::Faulted(FaultReason::Load));
        },
        SchedulerEvent::Setup(c) => {
            assert(m.pending == 0);
            match crate::config::configuration_error(c) {
                Some(err) => lemma_with_state_wf(m, RunState::Faulted(FaultReason::Configuration(err))),
                None => match geometry_error(c) {
                    Some(g) => lemma_with_state_wf(m, RunState::Faulted(FaultReason::Geometry(g))),
                    None => {},
                },
            }
        },
        SchedulerEvent::Device(op) => {
            match m.state {
                RunState::Running => {
                    if let DeviceOperation::SleepFor { duration_us } = op {
                        if m.clock >= m.budget {
                            lemma_with_state_wf(m, RunState::Completed);
                        } else {
                            lemma_sleep_plan_wf(m, duration_us);
                        }
                    }
                },
                RunState::Loading | RunState::Configuring => {
                    lemma_with_state_wf(
                        m,
                        RunState::Faulted(FaultReason::Guest(GuestFaultKind::CapabilityUnavailable)),
                    );
                },
                _ => {},
            }
        },
        SchedulerEvent::Step { body, left, right, finite } => {
            if finite {
                lemma_record_step_any(m, body, left, right);
            } else {
                lemma_with_state_wf(m, RunState::Faulted(FaultReason::SolverDivergence));
            }
        },
        SchedulerEvent::Fault(kind) => {
            if !is_terminal(m.state) {
                lemma_with_state_wf(m, RunState::Faulted(FaultReason::Guest(kind)));
            }
        },
    }
}

/// Runs are reproducible and their traces are stamped by index alone: from a
/// well-formed state, any series of admissible events keeps the invariant, so
/// the state reached, trace included, is fixed by the start and the events,
/// entry `i` of the trace is stamped `i * fixed_dt`, and the clock equals the
/// number of recorded steps times `fixed_dt`.
pub proof fn lemma_replay_is_deterministic<P>(m: SchedulerModel<P>, es: Seq<SchedulerEvent<P>>)
    requires
        model_wf(m),
        all_admissible(m, es),
    ensures
        model_wf(replay(m, es)),
        forall|i: int|
            0 <= i < replay(m, es).trace.len() ==> #[trigger] replay(m, es).trace[i].time_us == i * m.fixed_dt,
        replay(m, es).clock == replay(m, es).trace.len() * m.fixed_dt,
        replay(m, es).fixed_dt == m.fixed_dt,
    decreases es.len(),
{
    if es.len() > 0 {
        lemma_event_preserves_wf(m, es[0]);
        lemma_fixed_dt_kept(m, es[0]);
        lemma_replay_is_deterministic(apply_event(m, es[0]), es.drop_first());
    }
}

proof fn lemma_fixed_dt_kept<P>(m: SchedulerModel<P>, e: SchedulerEvent<P>)
    ensures
        apply_event(m, e).fixed_dt == m.fixed_dt,
        apply_event(m, e).budget == m.budget,
{
}

proof fn lemma_record_step<P>(m: SchedulerModel<P>, pose: P)
    requires
        model_wf(m),
        m.pending > 0,
    ensures
        ({
            let m1 = record_spec(m, pose, pose, pose, true);
            &&& model_wf(m1)
            &&& m1.clock == m.clock + m.fixed_dt
            &&& m1.trace.len() == m.trace.len() + 1
            &&& m1.pending == m.pending - 1
            &&& m1.configuration == m.configuration
            &&& m1.fixed_dt == m.fixed_dt
            &&& m1.budget == m.budget
            &&& m1.state == (if m1.pending == 0 && m1.clock >= m.budget {
                RunState::Completed
            } else {
                RunState::Running
            })
        }),
{
    lemma_record_step_any(m, pose, pose, pose);
}

proof fn lemma_record_step_any<P>(m: SchedulerModel<P>, body: P, left: P, right: P)
    requires
        model_wf(m),
        m.pending > 0,
    ensures
        ({
            let m1 = record_spec(m, body, left, right, true);
            &&& model_wf(m1)
            &&& m1.clock == m.clock + m.fixed_dt
            &&& m1.trace.len() == m.trace.len() + 1
            &&& m1.pending == m.pending - 1
            &&& m1.configuration == m.configuration
            &&& m1.fixed_dt == m.fixed_dt
            &&& m1.budget == m.budget
            &&& m1.state == (if m1.pending == 0 && m1.clock >= m.budget {
                RunState::Completed
            } else {
                RunState::Running
            })
        }),
{
    let m1 = record_spec(m, body, left, right, true);
    assert(m.pending * m.fixed_dt >= m.fixed_dt) by (nonlinear_arith)
        requires
            m.pending >= 1,
            m.fixed_dt > 0,
    ;
    assert((m.pending - 1) * m.fixed_dt == m.pending * m.fixed_dt - m.fixed_dt) by (nonlinear_arith);
    assert((m.trace.len() + 1) * m.fixed_dt == m.trace.len() * m.fixed_dt + m.fixed_dt) by (nonlinear_arith);
    assert forall|i: int| 0 <= i < m1.trace.len() implies #[trigger] m1.trace[i].time_us == i * m1.fixed_dt by {
        if i < m.trace.len() {
            assert(m1.trace[i] == m.trace[i]);
        }
    }
}

proof fn lemma_record_n<P>(m: SchedulerModel<P>, n: nat, pose: P)
    requires
        model_wf(m),
        m.state is Running,
        0 < n <= m.pending,
    ensures
        ({
            let m1 = record_n(m, n, pose);
            &&& model_wf(m1)
            &&& m1.clock == m.clock + n * m.fixed_dt
            &&& m1.trace.len() == m.trace.len() + n
            &&& m1.pending == m.pending - n
            &&& m1.configuration == m.configuration
            &&& m1.fixed_dt == m.fixed_dt
            &&& m1.budget == m.budget
            &&& m1.state == (if m1.pending == 0 && m1.clock >= m.budget {
                RunState::Completed
            } else {
                RunState::Running
            })
        }),
    decreases n,
{
    lemma_record_step(m, pose);
    let m1 = record_spec(m, pose, pose, pose, true);
    assert(record_n(m, n, pose) == record_n(m1, (n - 1) as nat, pose));
    if n > 1 {
        lemma_record_n(m1, (n - 1) as nat, pose);
        assert(m.clock + m.fixed_dt + (n - 1) * m.fixed_dt == m.clock + n * m.fixed_dt) by (nonlinear_arith);
    } else {
        assert(record_n(m1, 0, pose) == m1);
        assert(n == 1);
        assert(n * m.fixed_dt == m.fixed_dt) by (nonlinear_arith)
            requires
                n == 1,
        ;
    }
}

proof fn lemma_ceil_covers(x: nat, dt: nat, s: nat)
    requires
        x > 0,
        dt > 0,
        s * dt <= x,
    ensures
        s <= sleep_steps(x, dt),
        x <= sleep_steps(x, dt) * dt < x + dt,
{
    lemma_ceil_bounds(x, dt);
    let c = sleep_steps(x, dt);
    assert(s <= c) by (nonlinear_arith)
        requires
            s * dt <= x,
            x <= c * dt,
            dt > 0,
    ;
}

/// A sleep that the budget does not cut short advances the logical clock by
/// exactly `ceil(d / fixed_dt) * fixed_dt` and appends exactly `ceil(d / fixed_dt)`
/// trace entries; a zero sleep still runs one step.
pub proof fn lemma_sleep_to_steps<P>(m: SchedulerModel<P>, d: u64, pose: P)
    requires
        model_wf(m),
        m.state is Running,
        m.pending == 0,
        m.clock + sleep_steps(d as nat, m.fixed_dt) * m.fixed_dt <= m.budget,
    ensures
        handle_spec(m, DeviceOperation::SleepFor { duration_us: d }).1
            == HostAction::Advance(sleep_steps(d as nat, m.fixed_dt) as u64),
        sleep_cycle(m, d, pose).clock == m.clock + sleep_steps(d as nat, m.fixed_dt) * m.fixed_dt,
        sleep_cycle(m, d, pose).trace.len() == m.trace.len() + sleep_steps(d as nat, m.fixed_dt),
        d == 0 ==> sleep_cycle(m, d, pose).trace.len() == m.trace.len() + 1,
{
    let s = sleep_steps(d as nat, m.fixed_dt);
    if d > 0 {
        lemma_ceil_bounds(d as nat, m.fixed_dt);
    }
    assert(s * m.fixed_dt >= m.fixed_dt) by (nonlinear_arith)
        requires
            s >= 1,
            m.fixed_dt > 0,
    ;
    lemma_ceil_covers((m.budget - m.clock) as nat, m.fixed_dt, s);
    let m1 = handle_spec(m, DeviceOperation::SleepFor { duration_us: d }).0;
    assert(planned_steps(m, d as nat) == s);
    assert(m1.pending == s);
    lemma_record_n(m1, s, pose);
}

proof fn lemma_sleep_cycle<P>(m: SchedulerModel<P>, d: u64, pose: P)
    requires
        model_wf(m),
        m.state is Running,
        m.pending == 0,
    ensures
        ({
            let m1 = sleep_cycle(m, d, pose);
            &&& model_wf(m1)
            &&& m1.pending == 0
            &&& m1.configuration == m.configuration
            &&& m1.fixed_dt == m.fixed_dt
            &&& m1.budget == m.budget
            &&& (m1.state is Completed || (m1.state is Running && m1.clock >= m.clock + m.fixed_dt
                && m1.clock < m.budget))
            &&& (m.clock >= m.budget ==> m1.state is Completed)
        }),
{
    if m.clock < m.budget {
        let x = (m.budget - m.clock) as nat;
        lemma_ceil_bounds(x, m.fixed_dt);
        let ss = sleep_steps(d as nat, m.fixed_dt);
        if d > 0 {
            lemma_ceil_bounds(d as nat, m.fixed_dt);
        }
        let n = planned_steps(m, d as nat);
        assert(n >= 1);
        assert(n * m.fixed_dt <= sleep_steps(x, m.fixed_dt) * m.fixed_dt) by (nonlinear_arith)
            requires
                n <= sleep_steps(x, m.fixed_dt),
        ;
        assert(n * m.fixed_dt >= m.fixed_dt) by (nonlinear_arith)
            requires
                n >= 1,
                m.fixed_dt > 0,
        ;
        let m1 = handle_spec(m, DeviceOperation::SleepFor { duration_us: d }).0;
        assert(model_wf(m1));
        lemma_record_n(m1, n, pose);
    }
}

/// Whatever a guest does between sleeps (setting motors, reading sensors) and
/// whatever it sleeps for (zero included), it cannot outrun the budget: once it
/// has made enough sleeps the run is `Completed`, with the logical clock at or
/// past the budget and less than one step beyond it.
pub proof fn lemma_budget_termination<P>(m: SchedulerModel<P>, ops: Seq<DeviceOperation>, pose: P)
    requires
        model_wf(m),
        m.state is Running,
        m.pending == 0,
        sleep_count(ops) >= 1,
        (sleep_count(ops) - 1) * m.fixed_dt >= m.budget - m.clock,
    ensures
        guest_run(m, ops, pose).state is Completed,
        m.budget <= guest_run(m, ops, pose).clock < m.budget + m.fixed_dt,
    decreases ops.len(),
{
    if ops.len() == 0 {
        assert(sleep_count(ops) == 0);
    } else {
        let op = ops[0];
        let rest = ops.drop_first();
        let m1 = guest_call(m, op, pose);
        assert(guest_run(m, ops, pose) == guest_run(m1, rest, pose));
        if let DeviceOperation::SleepFor { duration_us } = op {
            lemma_sleep_cycle(m, duration_us, pose);
            assert(sleep_count(rest) == sleep_count(ops) - 1);
            if m1.state is Completed {
                lemma_completed_stays(m1, rest, pose);
                assert(m1.clock + m1.pending * m1.fixed_dt == m1.clock);
            } else {
                assert((sleep_count(rest) - 1) * m.fixed_dt == (sleep_count(ops) - 1) * m.fixed_dt - m.fixed_dt)
                    by (nonlinear_arith)
                    requires
                        sleep_count(rest) == sleep_count(ops) - 1,
                ;
                assert(m1.fixed_dt == m.fixed_dt && m1.budget == m.budget);
                assert(sleep_count(rest) >= 1) by (nonlinear_arith)
                    requires
                        (sleep_count(rest) - 1) * m.fixed_dt >= m.budget - m1.clock,
                        m1.clock < m.budget,
                        m.fixed_dt > 0,
                ;
                lemma_budget_termination(m1, rest, pose);
            }
        } else {
            assert(sleep_count(rest) == sleep_count(ops));
            assert(m1 == handle_spec(m, op).0);
            assert(model_wf(m1));
            lemma_budget_termination(m1, rest, pose);
        }
    }
}

proof fn lemma_completed_stays<P>(m: SchedulerModel<P>, ops: Seq<DeviceOperation>, pose: P)
    requires
        model_wf(m),
        m.state is Completed,
    ensures
        guest_run(m, ops, pose) == m,
    decreases ops.len(),
{
    if ops.len() > 0 {
        lemma_completed_stays(m, ops.drop_first(), pose);
    }
}

/// A guest that burns its fuel without a device call faults the run with a
/// `GuestFault`, and the trace gathered so far is kept.
pub proof fn lemma_fuel_exhaustion_faults<P>(m: SchedulerModel<P>)
    requires
        model_wf(m),
        !is_terminal(m.state),
    ensures
        guest_fault_spec(m, GuestFaultKind::FuelExhausted).state
            == RunState::Faulted(FaultReason::Guest(GuestFaultKind::FuelExhausted)),
        guest_fault_spec(m, GuestFaultKind::FuelExhausted).trace == m.trace,
        model_wf(guest_fault_spec(m, GuestFaultKind::FuelExhausted)),
{
}

/// The record `setup()` returns is the run's effective configuration: the run
/// starts with exactly that record whenever it is valid and makes a body, and
/// nothing the guest or the physics does afterwards changes it.
pub proof fn lemma_configuration_round_trip<P>(m: SchedulerModel<P>, c: Configuration, e: SchedulerEvent<P>)
    requires
        model_wf(m),
        m.state is Configuring,
    ensures
        (configure_spec(m, c).state is Running) <==> (valid_configuration(c) && geometry_error(c) is None),
        configure_spec(m, c).state is Running ==> configure_spec(m, c).configuration == Some(c),
        configure_spec(m, c).state is Running && !(e is Setup) ==>
            apply_event(configure_spec(m, c), e).configuration == Some(c),
{
}

/// Setting the motors and reading the sensors take no logical time and record
/// no step: only sleeps move the clock.
pub proof fn lemma_device_calls_keep_time<P>(m: SchedulerModel<P>, op: DeviceOperation)
    requires
        model_wf(m),
        !(op is SleepFor),
    ensures
        handle_spec(m, op).0.clock == m.clock,
        handle_spec(m, op).0.trace == m.trace,
{
}

/// The logical clock never runs backwards, and the trace only grows: every
/// event leaves the earlier entries as they were.
pub proof fn lemma_clock_monotonic<P>(m: SchedulerModel<P>, e: SchedulerEvent<P>)
    requires
        model_wf(m),
        e is Step ==> m.pending > 0,
    ensures
        apply_event(m, e).clock >= m.clock,
        apply_event(m, e).trace.len() >= m.trace.len(),
        apply_event(m, e).trace.subrange(0, m.trace.len() as int) == m.trace,
{
    let m1 = apply_event(m, e);
    assert(m1.trace.subrange(0, m.trace.len() as int) =~= m.trace);
}

} // verus!
