use vstd::prelude::*;

use crate::error::Error;
use crate::protocol::{
    contains, edge_find, edge_find_bytes, extreme_limit, high_accuracy, high_accuracy_bytes,
    home_flag_reached, homing_off, homing_off_bytes, homing_on, homing_on_bytes,
    initialized_reply, initialized_reply_bytes, is_extreme_limit, is_home_flag_reached, is_off_limit,
    is_stationary, limit_status, limit_status_bytes, motion_status, motion_status_bytes,
    off_limit, relative_bytes, relative_command, scan, scan_bytes, soft_stop, soft_stop_bytes,
    stationary, status_of, uninitialized_reply, uninitialized_reply_bytes, StatusCode, ADVANCE_STEPS, BACK_OFF_STEPS,
};
use crate::serial::{overlay, zeros, Request, Serial, Transfer, RECV_LEN};

verus! {

/// Settle delay after each write, in milliseconds.
pub const WR_DLY: u64 = 50;
/// Settle delay after the slow edge-find command.
pub const EDGE_FIND_DELAY_MS: u64 = 350;
/// Settle delay after the extra soft stop when motion is seen after homing.
pub const SETTLE_STOP_DELAY_MS: u64 = 500;
/// Interval between limit-status polls while scanning for the home flag.
pub const SCAN_POLL_MS: u64 = 800;
/// Interval between motion-status polls.
pub const MOTION_POLL_MS: u64 = 500;
/// How many times `stop` sends the soft-stop command.
pub const STOP_REPEATS: u8 = 3;
/// While waiting for the stage to settle after homing, the soft stop is sent
/// again each time this many checks in a row have seen motion.
pub const RESEND_EVERY: u8 = 4;

/// Which identification reply the controller gave.
#[derive(Clone, Copy, Debug, PartialEq, Eq, Structural)]
pub enum Firmware {
    Uninitialized,
    Initialized,
}

/// The operation in flight under the move gate, at the point where it waits
/// for the outcome of the request it last handed out.
#[derive(Clone, Copy, Debug, PartialEq, Eq, Structural)]
pub enum Job {
    Idle,
    /// Homing: the homing circuit is being enabled.
    HomeEnable,
    /// Homing: the first limit-status query, which picks the direction.
    HomeLocate,
    /// Homing: constant-velocity motion is being commanded.
    HomeScanStart { upward: bool },
    /// Homing: a limit-status poll during the scan.
    HomeScanPoll { upward: bool },
    /// Homing: the pause between two scan polls.
    HomeScanPause { upward: bool },
    /// Homing: one of the six writes that locate the edge of the home flag.
    HomeEdge { stage: u8 },
    /// Homing: the first motion check after the edge was found.
    HomeSettleCheck,
    /// Homing: the extra soft stop after motion was seen.
    HomeSettleStop,
    /// Homing: a motion poll while waiting for the stage to settle;
    /// `attempts` counts the checks that saw motion since the soft stop was
    /// last sent again.
    HomeSettlePoll { attempts: u8 },
    /// Homing: a repeated soft stop while waiting for the stage to settle.
    HomeSettleResend,
    /// Homing: the pause between two settle polls.
    HomeSettlePause { attempts: u8 },
    /// Moving: the relative move `index` of the plan is being sent.
    MoveSend { index: usize },
    /// Moving: a motion poll after relative move `index`.
    MovePoll { index: usize },
    /// Moving: the pause between two motion polls.
    MovePause { index: usize },
}

impl Job {
    pub open spec fn is_home(self) -> bool {
        match self {
            Job::HomeEnable | Job::HomeLocate | Job::HomeScanStart { .. } | Job::HomeScanPoll { .. }
            | Job::HomeScanPause { .. } | Job::HomeEdge { .. } | Job::HomeSettleCheck
            | Job::HomeSettleStop | Job::HomeSettlePoll { .. } | Job::HomeSettleResend
            | Job::HomeSettlePause { .. } => true,
            _ => false,
        }
    }

    pub open spec fn is_move(self) -> bool {
        match self {
            Job::MoveSend { .. } | Job::MovePoll { .. } | Job::MovePause { .. } => true,
            _ => false,
        }
    }

    fn homing(&self) -> (r: bool)
        ensures
            r == self.is_home(),
    {
        match self {
            Job::HomeEnable | Job::HomeLocate | Job::HomeScanStart { .. } | Job::HomeScanPoll { .. }
            | Job::HomeScanPause { .. } | Job::HomeEdge { .. } | Job::HomeSettleCheck
            | Job::HomeSettleStop | Job::HomeSettlePoll { .. } | Job::HomeSettleResend
            | Job::HomeSettlePause { .. } => true,
            _ => false,
        }
    }

    fn moving(&self) -> (r: bool)
        ensures
            r == self.is_move(),
    {
        match self {
            Job::MoveSend { .. } | Job::MovePoll { .. } | Job::MovePause { .. } => true,
            _ => false,
        }
    }
}

/// What the caller does next on behalf of an operation.
#[derive(Debug, PartialEq, Eq)]
pub enum Step {
    /// Carry out the request and resume the operation with its outcome.
    Perform(Request),
    /// The operation is over, with this result.
    Finished(Result<(), Error>),
}

/// What a [`Step`] asks for, as plain values.
pub enum StepView {
    Perform(Transfer),
    Finished(Result<(), Error>),
}

impl View for Step {
    type V = StepView;

    open spec fn view(&self) -> StepView {
        match self {
            Step::Perform(q) => StepView::Perform(q@),
            Step::Finished(res) => StepView::Finished(*res),
        }
    }
}

/// The answer to a motion question.
#[derive(Debug, PartialEq, Eq)]
pub enum Motion {
    /// An operation is in flight, so the stage is taken to be moving.
    Moving,
    /// The device must be asked: carry out this query and hand its reply to
    /// `motion_reply`.
    Ask(Request),
}

/// The outcome of a request as handed back by the caller: the bytes read
/// (empty where nothing was read) or the transport's failure.
pub open spec fn reply_view(reply: &Result<Vec<u8>, Error>) -> Result<Seq<u8>, Error> {
    match reply {
        Ok(v) => Ok(v@),
        Err(e) => Err(*e),
    }
}

/// The driver's state as plain values.
pub struct DriverView {
    /// The receive buffer of the link.
    pub recv: Seq<u8>,
    /// Steps from the home reference.
    pub position: int,
    pub moving: bool,
    pub homing: bool,
    /// A home operation has succeeded since the driver was made.
    pub homed: bool,
    pub move_gate: bool,
    pub stop_gate: bool,
    pub backlash_gate: bool,
    pub job: Job,
    /// The relative moves of the current or last move.
    pub plan: Seq<int>,
    /// Position at the start of the current or last move.
    pub origin: int,
    /// Target of the current or last move.
    pub destination: int,
    /// The relative moves written so far by the current or last move.
    pub issued: Seq<int>,
    /// Soft stops written by the current or last stop.
    pub soft_stops: nat,
}

/// `x` fits in an `i64`.
pub open spec fn in_i64(x: int) -> bool {
    i64::MIN <= x <= i64::MAX
}

/// The relative moves that bring `position` to `target`. Moving downwards with
/// a positive backlash correction overshoots by the correction and comes back
/// up, so that the final approach is always upwards.
pub open spec fn move_plan(position: int, target: int, backlash_correction: int) -> Seq<int> {
    let delta = target - position;
    if delta < 0 && backlash_correction > 0 {
        seq![delta - backlash_correction, backlash_correction]
    } else {
        seq![delta]
    }
}

/// Every position that the move passes through, and every relative move,
/// fits in an `i64`.
pub open spec fn move_fits(position: int, target: int, backlash_correction: int) -> bool {
    let delta = target - position;
    &&& in_i64(delta)
    &&& (delta < 0 && backlash_correction > 0) ==> in_i64(delta - backlash_correction) && in_i64(
        target - backlash_correction,
    )
}

/// The relative moves of `plan` that are written: a move of zero steps is skipped.
pub open spec fn sent(plan: Seq<int>) -> Seq<int>
    decreases plan.len(),
{
    if plan.len() == 0 {
        Seq::empty()
    } else if plan.last() == 0 {
        sent(plan.drop_last())
    } else {
        sent(plan.drop_last()).push(plan.last())
    }
}

/// The sum of the relative moves of `plan`.
pub open spec fn total(plan: Seq<int>) -> int
    decreases plan.len(),
{
    if plan.len() == 0 {
        0
    } else {
        total(plan.drop_last()) + plan.last()
    }
}

/// The relative-move commands written for `plan`.
pub open spec fn relative_commands(plan: Seq<int>) -> Seq<Seq<u8>> {
    sent(plan).map_values(|s: int| relative_bytes(s))
}

/// A move is under way at relative move `index`.
pub open spec fn move_progress(s: DriverView, index: int) -> bool {
    &&& 1 <= s.plan.len() <= 2
    &&& 0 <= index < s.plan.len()
    &&& total(s.plan) == s.destination - s.origin
    &&& s.position == s.origin + total(s.plan.take(index))
    &&& in_i64(s.origin + s.plan[0])
    &&& in_i64(s.destination)
    &&& s.issued == sent(s.plan.take(index + 1))
}

/// What always holds of the driver's state: the flags and gates follow the
/// operation in flight, a stop has written fewer than three soft stops while
/// it runs, and a move keeps its position equal to the start plus the
/// relative moves completed.
pub open spec fn view_inv(s: DriverView) -> bool {
    &&& s.recv.len() == RECV_LEN
    &&& in_i64(s.position)
    &&& s.plan.len() <= 2
    &&& s.homing == s.job.is_home()
    &&& s.moving == s.job.is_move()
    &&& s.move_gate == !(s.job is Idle)
    &&& s.backlash_gate == (s.job.is_move() && s.plan.len() == 2)
    &&& s.soft_stops <= STOP_REPEATS
    &&& s.stop_gate ==> s.soft_stops < STOP_REPEATS
    &&& match s.job {
        Job::HomeEdge { stage } => stage <= 5,
        Job::HomeSettlePoll { attempts } => attempts < RESEND_EVERY,
        Job::HomeSettlePause { attempts } => attempts < RESEND_EVERY,
        Job::MoveSend { index } => move_progress(s, index as int) && s.plan[index as int] != 0,
        Job::MovePoll { index } => move_progress(s, index as int),
        Job::MovePause { index } => move_progress(s, index as int),
        _ => true,
    }
}

/// `s` with `job` in flight and the flags and gates that go with it.
pub open spec fn with_job(s: DriverView, job: Job) -> DriverView {
    DriverView {
        job,
        homing: job.is_home(),
        moving: job.is_move(),
        move_gate: !(job is Idle),
        backlash_gate: job.is_move() && s.plan.len() == 2,
        ..s
    }
}

/// Go on with `job`, handing out `t`.
pub open spec fn perform(s: DriverView, job: Job, t: Transfer) -> (DriverView, StepView) {
    (with_job(s, job), StepView::Perform(t))
}

/// End the operation under the move gate with `res`.
pub open spec fn finish(s: DriverView, res: Result<(), Error>) -> (DriverView, StepView) {
    (with_job(s, Job::Idle), StepView::Finished(res))
}

/// The limit-status query, read back.
pub open spec fn limit_query() -> Transfer {
    Transfer::WriteRead(limit_status_bytes(), WR_DLY)
}

/// The motion-status query, read back.
pub open spec fn motion_query() -> Transfer {
    Transfer::WriteRead(motion_status_bytes(), WR_DLY)
}

/// The writes that locate the edge of the home flag, in order: soft stop,
/// back off three motor revolutions, advance two, high-accuracy mode on,
/// slow edge-find, homing circuit off.
pub open spec fn edge_transfer(stage: u8) -> Transfer {
    if stage == 0 {
        Transfer::Write(soft_stop_bytes(), WR_DLY)
    } else if stage == 1 {
        Transfer::Write(relative_bytes(BACK_OFF_STEPS as int), WR_DLY)
    } else if stage == 2 {
        Transfer::Write(relative_bytes(ADVANCE_STEPS as int), WR_DLY)
    } else if stage == 3 {
        Transfer::Write(high_accuracy_bytes(), WR_DLY)
    } else if stage == 4 {
        Transfer::Write(edge_find_bytes(), EDGE_FIND_DELAY_MS)
    } else {
        Transfer::Write(homing_off_bytes(), WR_DLY)
    }
}

/// Starts relative move `index` of the plan, or ends the move after the last.
pub open spec fn start_relative_spec(s: DriverView, index: int) -> (DriverView, StepView) {
    if index >= s.plan.len() {
        finish(s, Ok(()))
    } else if s.plan[index] == 0 {
        perform(s, Job::MovePoll { index: index as usize }, motion_query())
    } else {
        perform(
            DriverView { issued: s.issued.push(s.plan[index]), ..s },
            Job::MoveSend { index: index as usize },
            Transfer::Write(relative_bytes(s.plan[index]), WR_DLY),
        )
    }
}

/// The scan has reached the transition it looks for.
pub open spec fn scan_done(upward: bool, b: Seq<u8>) -> bool {
    if upward {
        off_limit(b)
    } else {
        home_flag_reached(b)
    }
}

/// One step of the operation under the move gate: the next state and what
/// the caller does next, given the outcome of the last request.
pub open spec fn resume_spec(s: DriverView, reply: Result<Seq<u8>, Error>) -> (DriverView, StepView) {
    match reply {
        Err(e) => finish(s, Err(e)),
        Ok(data) => {
            let q = DriverView { recv: overlay(s.recv, data), ..s };
            match s.job {
                Job::Idle => (s, StepView::Finished(Err(Error::Busy))),
                Job::HomeEnable => perform(q, Job::HomeLocate, limit_query()),
                Job::HomeLocate => match status_of(q.recv) {
                    StatusCode::HomeFlagBlocked => perform(
                        q,
                        Job::HomeScanStart { upward: true },
                        Transfer::Write(scan_bytes(true), WR_DLY),
                    ),
                    StatusCode::OffLimit => perform(
                        q,
                        Job::HomeScanStart { upward: false },
                        Transfer::Write(scan_bytes(false), WR_DLY),
                    ),
                    StatusCode::Unknown => finish(q, Err(Error::Protocol)),
                },
                Job::HomeScanStart { upward } => perform(s, Job::HomeScanPoll { upward }, limit_query()),
                Job::HomeScanPoll { upward } => if extreme_limit(q.recv) {
                    finish(q, Err(Error::Limit))
                } else if scan_done(upward, q.recv) {
                    perform(q, Job::HomeEdge { stage: 0 }, edge_transfer(0))
                } else {
                    perform(q, Job::HomeScanPause { upward }, Transfer::Sleep(SCAN_POLL_MS))
                },
                Job::HomeScanPause { upward } => perform(s, Job::HomeScanPoll { upward }, limit_query()),
                Job::HomeEdge { stage } => if stage < 5 {
                    perform(s, Job::HomeEdge { stage: (stage + 1) as u8 }, edge_transfer((stage + 1) as u8))
                } else {
                    perform(s, Job::HomeSettleCheck, motion_query())
                },
                Job::HomeSettleCheck => if stationary(q.recv) {
                    perform(q, Job::HomeSettlePoll { attempts: 0 }, motion_query())
                } else {
                    perform(
                        q,
                        Job::HomeSettleStop,
                        Transfer::Write(soft_stop_bytes(), SETTLE_STOP_DELAY_MS),
                    )
                },
                Job::HomeSettleStop => perform(s, Job::HomeSettlePoll { attempts: 0 }, motion_query()),
                Job::HomeSettlePoll { attempts } => if stationary(q.recv) {
                    finish(DriverView { position: 0, homed: true, ..q }, Ok(()))
                } else if attempts + 1 >= RESEND_EVERY {
                    perform(q, Job::HomeSettleResend, Transfer::Write(soft_stop_bytes(), WR_DLY))
                } else {
                    perform(
                        q,
                        Job::HomeSettlePause { attempts: (attempts + 1) as u8 },
                        Transfer::Sleep(MOTION_POLL_MS),
                    )
                },
                Job::HomeSettleResend => perform(
                    s,
                    Job::HomeSettlePause { attempts: 0 },
                    Transfer::Sleep(MOTION_POLL_MS),
                ),
                Job::HomeSettlePause { attempts } => perform(
                    s,
                    Job::HomeSettlePoll { attempts },
                    motion_query(),
                ),
                Job::MoveSend { index } => perform(s, Job::MovePoll { index }, motion_query()),
                Job::MovePoll { index } => if stationary(q.recv) {
                    start_relative_spec(
                        DriverView { position: q.position + q.plan[index as int], ..q },
                        index + 1,
                    )
                } else {
                    perform(q, Job::MovePause { index }, Transfer::Sleep(MOTION_POLL_MS))
                },
                Job::MovePause { index } => perform(s, Job::MovePoll { index }, motion_query()),
            }
        },
    }
}

/// One step of a stop: three soft stops written back to back.
pub open spec fn resume_stop_spec(s: DriverView, reply: Result<Seq<u8>, Error>) -> (DriverView, StepView) {
    match reply {
        Err(e) => (DriverView { stop_gate: false, ..s }, StepView::Finished(Err(e))),
        Ok(_) => if s.soft_stops + 1 >= STOP_REPEATS {
            (
                DriverView { stop_gate: false, soft_stops: s.soft_stops + 1, ..s },
                StepView::Finished(Ok(())),
            )
        } else {
            (
                DriverView { soft_stops: s.soft_stops + 1, ..s },
                StepView::Perform(Transfer::Write(soft_stop_bytes(), WR_DLY)),
            )
        },
    }
}

proof fn lemma_take_step(p: Seq<int>, i: int)
    requires
        0 <= i < p.len(),
    ensures
        total(p.take(i + 1)) == total(p.take(i)) + p[i],
        sent(p.take(i + 1)) == if p[i] == 0 {
            sent(p.take(i))
        } else {
            sent(p.take(i)).push(p[i])
        },
{
    assert(p.take(i + 1).drop_last() =~= p.take(i));
}

/// The relative moves of a plan add up to the distance to the target.
pub proof fn lemma_plan_total(position: int, target: int, backlash_correction: int)
    ensures
        total(move_plan(position, target, backlash_correction)) == target - position,
{
    let plan = move_plan(position, target, backlash_correction);
    let first = seq![plan[0]];
    assert(first.drop_last() =~= Seq::<int>::empty());
    assert(total(Seq::<int>::empty()) == 0);
    assert(total(first) == plan[0]);
    if plan.len() == 2 {
        assert(plan.drop_last() =~= first);
        assert(total(plan) == total(first) + plan[1]);
    } else {
        assert(plan =~= first);
    }
}

proof fn lemma_start_relative(s: DriverView, index: int)
    requires
        view_inv(with_job(s, Job::Idle)),
        1 <= s.plan.len() <= 2,
        0 <= index <= s.plan.len(),
        total(s.plan) == s.destination - s.origin,
        s.position == s.origin + total(s.plan.take(index)),
        in_i64(s.origin + s.plan[0]),
        in_i64(s.destination),
        s.issued == sent(s.plan.take(index)),
    ensures
        view_inv(start_relative_spec(s, index).0),
        start_relative_spec(s, index).1 is Finished ==> {
            &&& start_relative_spec(s, index).1 == StepView::Finished(Ok(()))
            &&& start_relative_spec(s, index).0.position == s.destination
            &&& start_relative_spec(s, index).0.issued == sent(s.plan)
        },
{
    if index < s.plan.len() {
        lemma_take_step(s.plan, index);
    } else {
        assert(s.plan.take(index) =~= s.plan);
    }
}

proof fn lemma_resume(s: DriverView, reply: Result<Seq<u8>, Error>)
    requires
        view_inv(s),
        s.move_gate,
    ensures
        view_inv(resume_spec(s, reply).0),
        resume_spec(s, reply).1 is Finished ==> resume_spec(s, reply).0.job is Idle,
        s.job.is_move() && resume_spec(s, reply).1 == StepView::Finished(Ok(())) ==> {
            &&& resume_spec(s, reply).0.position == resume_spec(s, reply).0.destination
            &&& resume_spec(s, reply).0.issued == sent(resume_spec(s, reply).0.plan)
        },
        s.job.is_home() && resume_spec(s, reply).1 is Perform ==> resume_spec(s, reply).0.job.is_home(),
        s.job.is_move() && resume_spec(s, reply).1 is Perform ==> resume_spec(s, reply).0.job.is_move(),
        resume_spec(s, reply).0.plan == s.plan,
        resume_spec(s, reply).0.destination == s.destination,
{
    match reply {
        Err(e) => {},
        Ok(data) => {
            let q = DriverView { recv: overlay(s.recv, data), ..s };
            assert(q.recv.len() == RECV_LEN);
            match s.job {
                Job::MovePoll { index } => {
                    if stationary(q.recv) {
                        let t = DriverView { position: q.position + q.plan[index as int], ..q };
                        lemma_take_step(s.plan, index as int);
                        if index + 1 == s.plan.len() {
                            assert(s.plan.take(index + 1) =~= s.plan);
                        }
                        lemma_start_relative(t, index + 1);
                    }
                },
                _ => {},
            }
        },
    }
}

/// Driver of a McPherson 789A-4 controller on one serial link.
///
/// Homing and moving share the move gate; stopping has a gate of its own, so
/// a stop can run while a home or a move is under way. A call that finds its
/// gate held returns [`Error::Busy`] and hands out nothing to send.
pub struct Mp789a4 {
    comms: Serial,
    position: i64,
    firmware: Firmware,
    moving: bool,
    homing: bool,
    homed: bool,
    move_gate: bool,
    stop_gate: bool,
    backlash_gate: bool,
    job: Job,
    plan: Vec<i64>,
    origin: Ghost<int>,
    destination: Ghost<int>,
    issued: Ghost<Seq<int>>,
    soft_stops: u8,
}

impl View for Mp789a4 {
    type V = DriverView;

    closed spec fn view(&self) -> DriverView {
        DriverView {
            recv: self.comms.received(),
            position: self.position as int,
            moving: self.moving,
            homing: self.homing,
            homed: self.homed,
            move_gate: self.move_gate,
            stop_gate: self.stop_gate,
            backlash_gate: self.backlash_gate,
            job: self.job,
            plan: self.plan@.map_values(|x: i64| x as int),
            origin: self.origin@,
            destination: self.destination@,
            issued: self.issued@,
            soft_stops: self.soft_stops as nat,
        }
    }
}

/// The state of a driver whose identification reply left `recv` in the
/// receive buffer: nothing in flight, not yet homed, at position zero.
pub open spec fn fresh(recv: Seq<u8>) -> DriverView {
    DriverView {
        recv,
        position: 0,
        moving: false,
        homing: false,
        homed: false,
        move_gate: false,
        stop_gate: false,
        backlash_gate: false,
        job: Job::Idle,
        plan: Seq::empty(),
        origin: 0,
        destination: 0,
        issued: Seq::empty(),
        soft_stops: 0,
    }
}

/// The identification reply, as it stands in the receive buffer, is one of
/// the two that the firmware gives.
pub open spec fn handshake_ok(recv: Seq<u8>) -> bool {
    contains(recv, uninitialized_reply_bytes()) || contains(recv, initialized_reply_bytes())
}

impl Mp789a4 {
    /// The driver's internal invariant.
    pub closed spec fn inv(&self) -> bool {
        &&& self.comms.delay() == WR_DLY
        &&& view_inv(self@)
    }

    /// The identification probe to send on a freshly opened link; its reply
    /// goes to [`Mp789a4::new`].
    pub fn identification_probe() -> (r: Request)
        ensures
            r@ == Transfer::WriteRead(crate::protocol::probe_bytes(), WR_DLY),
    {
        Request::WriteRead { bytes: crate::protocol::probe(), settle_ms: WR_DLY }
    }

    /// A driver for the controller on `port_name`, given the reply to the
    /// identification probe. Fails with [`Error::Handshake`] unless the reply
    /// is one of the two firmware replies. The driver is not homed yet.
    pub fn new(port_name: String, reply: &[u8]) -> (r: Result<Mp789a4, Error>)
        ensures
            r is Ok <==> handshake_ok(overlay(zeros(RECV_LEN as nat), reply@)),
            r is Err ==> r->Err_0 == Error::Handshake,
            r is Ok ==> {
                &&& r->Ok_0.inv()
                &&& r->Ok_0@ == fresh(overlay(zeros(RECV_LEN as nat), reply@))
                &&& r->Ok_0.port_name_spec() == port_name@
                &&& (r->Ok_0.firmware() == Firmware::Uninitialized <==> contains(
                    r->Ok_0@.recv,
                    uninitialized_reply_bytes(),
                ))
            },
    {
        let mut comms: Serial = Serial::new(port_name, WR_DLY);
        comms.receive(reply);
        let uninit: Vec<u8> = uninitialized_reply();
        let init: Vec<u8> = initialized_reply();
        let firmware: Firmware = if comms.recv_contains(uninit.as_slice()) {
            Firmware::Uninitialized
        } else if comms.recv_contains(init.as_slice()) {
            Firmware::Initialized
        } else {
            return Err(Error::Handshake);
        };
        let dev = Mp789a4 {
            comms,
            position: 0,
            firmware,
            moving: false,
            homing: false,
            homed: false,
            move_gate: false,
            stop_gate: false,
            backlash_gate: false,
            job: Job::Idle,
            plan: Vec::new(),
            origin: Ghost(0),
            destination: Ghost(0),
            issued: Ghost(Seq::empty()),
            soft_stops: 0,
        };
        assert(dev@.plan =~= Seq::<int>::empty());
        assert(dev@ == fresh(overlay(zeros(RECV_LEN as nat), reply@)));
        Ok(dev)
    }

    /// Which identification reply the controller gave.
    pub closed spec fn firmware_spec(&self) -> Firmware {
        self.firmware
    }

    #[verifier::when_used_as_spec(firmware_spec)]
    pub fn firmware(&self) -> (r: Firmware)
        ensures
            r == self.firmware_spec(),
    {
        self.firmware
    }

    /// The state in which a move from the current position to `target`
    /// begins, before its first request.
    pub open spec fn begin_move(s: DriverView, target: int, backlash_correction: int) -> DriverView {
        DriverView {
            plan: move_plan(s.position, target, backlash_correction),
            origin: s.position,
            destination: target,
            issued: Seq::empty(),
            ..s
        }
    }

    fn set_job(&mut self, job: Job)
        requires
            old(self).plan@.len() <= 2,
        ensures
            final(self)@ == with_job(old(self)@, job),
            final(self).comms.delay() == old(self).comms.delay(),
            final(self).plan@ == old(self).plan@,
    {
        self.homing = job.homing();
        self.moving = job.moving();
        self.move_gate = !matches!(job, Job::Idle);
        self.backlash_gate = job.moving() && self.plan.len() == 2;
        self.job = job;
    }
}

impl Mp789a4 {
    /// Starts relative move `index` of the plan: writes its command, or goes
    /// straight to polling where the move is zero steps.
    fn send_relative(&mut self, index: usize) -> (r: Request)
        requires
            old(self).comms.delay() == WR_DLY,
            index < old(self).plan@.len() <= 2,
        ensures
            (final(self)@, StepView::Perform(r@)) == start_relative_spec(old(self)@, index as int),
            final(self).comms.delay() == WR_DLY,
            final(self).plan@ == old(self).plan@,
    {
        let steps: i64 = self.plan[index];
        if steps == 0 {
            self.set_job(Job::MovePoll { index });
            self.comms.xfer(motion_status())
        } else {
            self.issued = Ghost(self.issued@.push(steps as int));
            self.set_job(Job::MoveSend { index });
            self.comms.write(relative_command(steps))
        }
    }

    fn start_relative(&mut self, index: usize) -> (r: Step)
        requires
            old(self).comms.delay() == WR_DLY,
            old(self).plan@.len() <= 2,
            index <= old(self).plan@.len(),
        ensures
            (final(self)@, r@) == start_relative_spec(old(self)@, index as int),
            final(self).comms.delay() == WR_DLY,
            final(self).plan@ == old(self).plan@,
    {
        if index >= self.plan.len() {
            self.set_job(Job::Idle);
            Step::Finished(Ok(()))
        } else {
            Step::Perform(self.send_relative(index))
        }
    }

    /// The request of each edge-finding write; see [`edge_transfer`].
    fn edge_request(&self, stage: u8) -> (r: Request)
        requires
            self.comms.delay() == WR_DLY,
        ensures
            r@ == edge_transfer(stage),
    {
        if stage == 0 {
            self.comms.write(soft_stop())
        } else if stage == 1 {
            self.comms.write(relative_command(BACK_OFF_STEPS))
        } else if stage == 2 {
            self.comms.write(relative_command(ADVANCE_STEPS))
        } else if stage == 3 {
            self.comms.write(high_accuracy())
        } else if stage == 4 {
            self.comms.xfer_sleep(edge_find(), EDGE_FIND_DELAY_MS)
        } else {
            self.comms.write(homing_off())
        }
    }

    /// Starts homing. Fails with [`Error::Busy`], changing nothing, while a
    /// home or a move holds the move gate.
    pub fn home(&mut self) -> (r: Result<Request, Error>)
        requires
            old(self).inv(),
        ensures
            final(self).inv(),
            r is Err <==> old(self)@.move_gate,
            r is Err ==> r->Err_0 == Error::Busy && final(self)@ == old(self)@,
            r is Ok ==> {
                &&& r->Ok_0@ == Transfer::WriteRead(homing_on_bytes(), WR_DLY)
                &&& final(self)@ == with_job(old(self)@, Job::HomeEnable)
            },
    {
        if self.move_gate {
            return Err(Error::Busy);
        }
        self.set_job(Job::HomeEnable);
        Ok(self.comms.xfer(homing_on()))
    }

    /// Starts a move to `target`. Downward moves with a positive
    /// `backlash_correction` overshoot by it and come back up. Changes
    /// nothing and fails with [`Error::Busy`] while a home or a move holds the
    /// move gate, else with [`Error::NotHomed`] before the first successful
    /// home, else with [`Error::OutOfRange`] where a step count of the move
    /// would not fit in an `i64`.
    pub fn move_to(&mut self, target: i64, backlash_correction: i64) -> (r: Result<Request, Error>)
        requires
            old(self).inv(),
        ensures
            final(self).inv(),
            r is Ok <==> !old(self)@.move_gate && old(self)@.homed && move_fits(
                old(self)@.position,
                target as int,
                backlash_correction as int,
            ),
            r is Err ==> final(self)@ == old(self)@,
            old(self)@.move_gate ==> r is Err && r->Err_0 == Error::Busy,
            !old(self)@.move_gate && !old(self)@.homed ==> r is Err && r->Err_0 == Error::NotHomed,
            r is Err && r->Err_0 == Error::OutOfRange <==> !old(self)@.move_gate && old(self)@.homed
                && !move_fits(old(self)@.position, target as int, backlash_correction as int),
            r is Ok ==> (final(self)@, StepView::Perform(r->Ok_0@)) == start_relative_spec(
                Self::begin_move(old(self)@, target as int, backlash_correction as int),
                0,
            ),
            r is Ok ==> final(self)@.plan == move_plan(
                old(self)@.position,
                target as int,
                backlash_correction as int,
            ),
    {
        if self.move_gate || self.backlash_gate {
            return Err(Error::Busy);
        }
        if !self.homed {
            return Err(Error::NotHomed);
        }
        if !self.can_move_to(target, backlash_correction) {
            return Err(Error::OutOfRange);
        }
        let delta: i64 = target - self.position;
        let mut plan: Vec<i64> = Vec::new();
        if delta < 0 && backlash_correction > 0 {
            plan.push(delta - backlash_correction);
            plan.push(backlash_correction);
        } else {
            plan.push(delta);
        }
        self.plan = plan;
        self.origin = Ghost(self.position as int);
        self.destination = Ghost(target as int);
        self.issued = Ghost(Seq::empty());
        let ghost begun = Self::begin_move(old(self)@, target as int, backlash_correction as int);
        assert(self@.plan =~= begun.plan);
        assert(self@ == begun);
        proof {
            assert(begun.plan.take(0) =~= Seq::<int>::empty());
            assert(sent(Seq::<int>::empty()) == Seq::<int>::empty());
            lemma_plan_total(old(self)@.position, target as int, backlash_correction as int);
            lemma_start_relative(begun, 0);
        }
        Ok(self.send_relative(0))
    }

    /// Carries the operation under the move gate one step further, given the
    /// outcome of the request it last handed out: the bytes read, or the
    /// transport's failure, which ends the operation unchanged.
    pub fn resume(&mut self, reply: Result<Vec<u8>, Error>) -> (r: Step)
        requires
            old(self).inv(),
            old(self)@.move_gate,
        ensures
            final(self).inv(),
            (final(self)@, r@) == resume_spec(old(self)@, reply_view(&reply)),
            r is Finished ==> {
                &&& !final(self)@.homing
                &&& !final(self)@.moving
                &&& !final(self)@.move_gate
            },
            old(self)@.job.is_home() && r@ == StepView::Finished(Ok(())) ==> final(self)@.position
                == 0,
            old(self)@.job.is_move() && r@ == StepView::Finished(Ok(())) ==> {
                &&& final(self)@.position == final(self)@.destination
                &&& final(self)@.issued == sent(final(self)@.plan)
            },
    {
        let ghost rv = reply_view(&reply);
        proof {
            lemma_resume(self@, rv);
        }
        let data: Vec<u8> = match reply {
            Ok(data) => data,
            Err(e) => {
                self.set_job(Job::Idle);
                return Step::Finished(Err(e));
            },
        };
        match self.job {
            Job::Idle => Step::Finished(Err(Error::Busy)),
            Job::HomeEnable => {
                self.comms.receive(data.as_slice());
                self.set_job(Job::HomeLocate);
                Step::Perform(self.comms.xfer(limit_status()))
            },
            Job::HomeLocate => {
                self.comms.receive(data.as_slice());
                match StatusCode::classify(self.comms.recv()) {
                    StatusCode::HomeFlagBlocked => {
                        self.set_job(Job::HomeScanStart { upward: true });
                        Step::Perform(self.comms.write(scan(true)))
                    },
                    StatusCode::OffLimit => {
                        self.set_job(Job::HomeScanStart { upward: false });
                        Step::Perform(self.comms.write(scan(false)))
                    },
                    StatusCode::Unknown => {
                        self.set_job(Job::Idle);
                        Step::Finished(Err(Error::Protocol))
                    },
                }
            },
            Job::HomeScanStart { upward } => {
                self.set_job(Job::HomeScanPoll { upward });
                Step::Perform(self.comms.xfer(limit_status()))
            },
            Job::HomeScanPoll { upward } => {
                self.comms.receive(data.as_slice());
                let done: bool = if upward {
                    is_off_limit(self.comms.recv())
                } else {
                    is_home_flag_reached(self.comms.recv())
                };
                if is_extreme_limit(self.comms.recv()) {
                    self.set_job(Job::Idle);
                    Step::Finished(Err(Error::Limit))
                } else if done {
                    self.set_job(Job::HomeEdge { stage: 0 });
                    Step::Perform(self.edge_request(0))
                } else {
                    self.set_job(Job::HomeScanPause { upward });
                    Step::Perform(Request::Sleep { ms: SCAN_POLL_MS })
                }
            },
            Job::HomeScanPause { upward } => {
                self.set_job(Job::HomeScanPoll { upward });
                Step::Perform(self.comms.xfer(limit_status()))
            },
            Job::HomeEdge { stage } => {
                if stage < 5 {
                    self.set_job(Job::HomeEdge { stage: stage + 1 });
                    Step::Perform(self.edge_request(stage + 1))
                } else {
                    self.set_job(Job::HomeSettleCheck);
                    Step::Perform(self.comms.xfer(motion_status()))
                }
            },
            Job::HomeSettleCheck => {
                self.comms.receive(data.as_slice());
                if is_stationary(self.comms.recv()) {
                    self.set_job(Job::HomeSettlePoll { attempts: 0 });
                    Step::Perform(self.comms.xfer(motion_status()))
                } else {
                    self.set_job(Job::HomeSettleStop);
                    Step::Perform(self.comms.xfer_sleep(soft_stop(), SETTLE_STOP_DELAY_MS))
                }
            },
            Job::HomeSettleStop => {
                self.set_job(Job::HomeSettlePoll { attempts: 0 });
                Step::Perform(self.comms.xfer(motion_status()))
            },
            Job::HomeSettlePoll { attempts } => {
                self.comms.receive(data.as_slice());
                if is_stationary(self.comms.recv()) {
                    self.position = 0;
                    self.homed = true;
                    self.set_job(Job::Idle);
                    Step::Finished(Ok(()))
                } else if attempts + 1 >= RESEND_EVERY {
                    self.set_job(Job::HomeSettleResend);
                    Step::Perform(self.comms.write(soft_stop()))
                } else {
                    self.set_job(Job::HomeSettlePause { attempts: attempts + 1 });
                    Step::Perform(Request::Sleep { ms: MOTION_POLL_MS })
                }
            },
            Job::HomeSettleResend => {
                self.set_job(Job::HomeSettlePause { attempts: 0 });
                Step::Perform(Request::Sleep { ms: MOTION_POLL_MS })
            },
            Job::HomeSettlePause { attempts } => {
                self.set_job(Job::HomeSettlePoll { attempts });
                Step::Perform(self.comms.xfer(motion_status()))
            },
            Job::MoveSend { index } => {
                self.set_job(Job::MovePoll { index });
                Step::Perform(self.comms.xfer(motion_status()))
            },
            Job::MovePoll { index } => {
                self.comms.receive(data.as_slice());
                if is_stationary(self.comms.recv()) {
                    self.position = self.position + self.plan[index];
                    self.start_relative(index + 1)
                } else {
                    self.set_job(Job::MovePause { index });
                    Step::Perform(Request::Sleep { ms: MOTION_POLL_MS })
                }
            },
            Job::MovePause { index } => {
                self.set_job(Job::MovePoll { index });
                Step::Perform(self.comms.xfer(motion_status()))
            },
        }
    }
}

impl Mp789a4 {
    /// Starts a stop: the soft-stop command, written three times back to
    /// back. It has a gate of its own, so it runs while a home or a move is
    /// under way. Fails with [`Error::Busy`], changing nothing, while another
    /// stop holds that gate.
    pub fn stop(&mut self) -> (r: Result<Request, Error>)
        requires
            old(self).inv(),
        ensures
            final(self).inv(),
            r is Err <==> old(self)@.stop_gate,
            r is Err ==> r->Err_0 == Error::Busy && final(self)@ == old(self)@,
            r is Ok ==> {
                &&& r->Ok_0@ == Transfer::Write(soft_stop_bytes(), WR_DLY)
                &&& final(self)@ == (DriverView { stop_gate: true, soft_stops: 0, ..old(self)@ })
            },
    {
        if self.stop_gate {
            return Err(Error::Busy);
        }
        self.stop_gate = true;
        self.soft_stops = 0;
        Ok(self.comms.write(soft_stop()))
    }

    /// Carries a stop one step further, given the outcome of its last write.
    /// Each write that succeeds is counted; the stop ends after the third.
    pub fn resume_stop(&mut self, reply: Result<Vec<u8>, Error>) -> (r: Step)
        requires
            old(self).inv(),
            old(self)@.stop_gate,
        ensures
            final(self).inv(),
            (final(self)@, r@) == resume_stop_spec(old(self)@, reply_view(&reply)),
            r is Perform ==> r@ == StepView::Perform(Transfer::Write(soft_stop_bytes(), WR_DLY)),
            r is Finished <==> !final(self)@.stop_gate,
            r@ == StepView::Finished(Ok(())) <==> final(self)@.soft_stops == STOP_REPEATS,
    {
        match reply {
            Err(e) => {
                self.stop_gate = false;
                Step::Finished(Err(e))
            },
            Ok(_) => {
                self.soft_stops = self.soft_stops + 1;
                if self.soft_stops >= STOP_REPEATS {
                    self.stop_gate = false;
                    Step::Finished(Ok(()))
                } else {
                    Step::Perform(self.comms.write(soft_stop()))
                }
            },
        }
    }

    /// Whether the stage moves. While a move is under way the answer is yes
    /// with no I/O; otherwise the device must be asked.
    pub fn is_moving(&self) -> (r: Motion)
        requires
            self.inv(),
        ensures
            self@.moving ==> r is Moving,
            !self@.moving ==> r is Ask && r->Ask_0@ == motion_query(),
    {
        if self.moving {
            Motion::Moving
        } else {
            Motion::Ask(self.comms.xfer(motion_status()))
        }
    }

    /// Reads the reply to the query of [`Mp789a4::is_moving`]: anything but
    /// a clean "stationary, off any limit" counts as motion.
    pub fn motion_reply(&mut self, reply: &[u8]) -> (r: bool)
        requires
            old(self).inv(),
            !old(self)@.moving,
        ensures
            final(self).inv(),
            final(self)@ == (DriverView { recv: overlay(old(self)@.recv, reply@), ..old(self)@ }),
            r == !stationary(final(self)@.recv),
    {
        self.comms.receive(reply);
        !is_stationary(self.comms.recv())
    }

    /// Whether a home or a move is under way.
    pub fn is_busy(&self) -> (r: bool)
        requires
            self.inv(),
        ensures
            r == self@.move_gate,
    {
        self.move_gate
    }

    /// Whether a stop is under way.
    pub fn is_stopping(&self) -> (r: bool)
        requires
            self.inv(),
        ensures
            r == self@.stop_gate,
    {
        self.stop_gate
    }

    pub fn is_homing(&self) -> (r: bool)
        requires
            self.inv(),
        ensures
            r == self@.homing,
    {
        self.homing
    }

    /// Whether a home has succeeded since the driver was made.
    pub fn is_homed(&self) -> (r: bool)
        requires
            self.inv(),
        ensures
            r == self@.homed,
    {
        self.homed
    }

    /// Steps from the home reference, counted in software.
    pub fn get_position(&self) -> (r: i64)
        requires
            self.inv(),
        ensures
            r == self@.position,
    {
        self.position
    }

    /// Whether a move from the current position to `target` stays within
    /// the range of step counts; [`Mp789a4::move_to`] requires it.
    pub fn can_move_to(&self, target: i64, backlash_correction: i64) -> (r: bool)
        requires
            self.inv(),
        ensures
            r == move_fits(self@.position, target as int, backlash_correction as int),
    {
        let delta: i128 = target as i128 - self.position as i128;
        let fits = |x: i128| -> (b: bool)
            ensures
                b == in_i64(x as int),
            { i64::MIN as i128 <= x && x <= i64::MAX as i128 };
        if !fits(delta) {
            return false;
        }
        if delta < 0 && backlash_correction > 0 {
            fits(delta - backlash_correction as i128) && fits(
                target as i128 - backlash_correction as i128,
            )
        } else {
            true
        }
    }

    pub fn short_name(&self) -> (r: String)
        ensures
            r@ == "MP789A4"@,
    {
        "MP789A4".to_string()
    }

    pub fn long_name(&self) -> (r: String)
        ensures
            r@ == "McPherson 789A-4"@,
    {
        "McPherson 789A-4".to_string()
    }

    pub closed spec fn port_name_spec(&self) -> Seq<char> {
        self.comms.name()
    }

    pub fn port_name(&self) -> (r: String)
        ensures
            r@ == self.port_name_spec(),
    {
        self.comms.port_name().clone()
    }
}

/// A simulated 789A-4 with no transport: every operation completes at once.
pub struct Mp789a4Virtual {
    position: i64,
}

impl Mp789a4Virtual {
    /// Steps from the home reference.
    pub closed spec fn position_spec(&self) -> int {
        self.position as int
    }

    /// A simulated driver, homed at once.
    pub fn new(port_name: String) -> (r: Result<Mp789a4Virtual, Error>)
        ensures
            r is Ok,
            r is Ok ==> r->Ok_0.position_spec() == 0,
    {
        let mut dev = Mp789a4Virtual {
            position: 0,
        };
        match dev.home() {
            Ok(()) => Ok(dev),
            Err(e) => Err(e),
        }
    }

    pub fn home(&mut self) -> (r: Result<(), Error>)
        ensures
            r is Ok,
            final(self).position_spec() == 0,
    {
        self.position = 0;
        Ok(())
    }

    pub fn get_position(&self) -> (r: i64)
        ensures
            r == self.position_spec(),
    {
        self.position
    }

    pub fn stop(&mut self) -> (r: Result<(), Error>)
        ensures
            r is Ok,
            final(self).position_spec() == old(self).position_spec(),
    {
        Ok(())
    }

    /// A simulated stage has no motion to report and answers yes.
    pub fn is_moving(&self) -> (r: bool)
        ensures
            r,
    {
        true
    }

    pub fn is_homing(&self) -> (r: bool)
        ensures
            !r,
    {
        false
    }

    /// Moves by `steps`; fails with [`Error::OutOfRange`], changing nothing,
    /// where the new position would not fit in an `i64`.
    pub fn move_relative(&mut self, steps: i64) -> (r: Result<(), Error>)
        ensures
            r is Ok <==> in_i64(old(self).position_spec() + steps),
            r is Ok ==> final(self).position_spec() == old(self).position_spec() + steps,
            r is Err ==> r->Err_0 == Error::OutOfRange && final(self).position_spec() == old(
                self,
            ).position_spec(),
    {
        match self.position.checked_add(steps) {
            Some(p) => {
                self.position = p;
                Ok(())
            },
            None => Err(Error::OutOfRange),
        }
    }

    /// Moves straight to `target`; the backlash correction has nothing to
    /// correct here.
    pub fn move_to(&mut self, target: i64, backlash_correction: i64) -> (r: Result<(), Error>)
        ensures
            r is Ok,
            final(self).position_spec() == target,
    {
        self.position = target;
        Ok(())
    }

    pub fn short_name(&self) -> (r: String)
        ensures
            r@ == "MP789A4"@,
    {
        "MP789A4".to_string()
    }

    pub fn long_name(&self) -> (r: String)
        ensures
            r@ == "McPherson 789A-4"@,
    {
        "McPherson 789A-4".to_string()
    }
}

/// A downward move with a positive backlash correction writes exactly two
/// relative moves: the first overshoots the target by the correction, the
/// second comes back up by exactly the correction, and together they cover
/// the distance to the target.
pub proof fn lemma_backlash_approach(position: int, target: int, backlash_correction: int)
    requires
        backlash_correction > 0,
        target < position,
    ensures
        sent(move_plan(position, target, backlash_correction)) == seq![
            target - position - backlash_correction,
            backlash_correction,
        ],
        relative_commands(move_plan(position, target, backlash_correction)) == seq![
            relative_bytes(target - position - backlash_correction),
            relative_bytes(backlash_correction),
        ],
        (target - position - backlash_correction) + backlash_correction == target - position,
{
    let plan = move_plan(position, target, backlash_correction);
    assert(plan.drop_last() =~= seq![plan[0]]);
    assert(seq![plan[0]].drop_last() =~= Seq::<int>::empty());
    assert(sent(Seq::<int>::empty()) == Seq::<int>::empty());
    assert(sent(seq![plan[0]]) =~= seq![plan[0]]);
    assert(sent(plan) =~= seq![plan[0], plan[1]]);
    assert(relative_commands(plan) =~= seq![relative_bytes(plan[0]), relative_bytes(plan[1])]);
}

/// An upward move, or one with no positive backlash correction, is a single
/// relative move of the distance to the target; it is written unless that
/// distance is zero.
pub proof fn lemma_direct_approach(position: int, target: int, backlash_correction: int)
    requires
        target >= position || backlash_correction <= 0,
    ensures
        move_plan(position, target, backlash_correction) == seq![target - position],
        target != position ==> relative_commands(move_plan(position, target, backlash_correction))
            == seq![relative_bytes(target - position)],
        target == position ==> relative_commands(move_plan(position, target, backlash_correction))
            == Seq::<Seq<u8>>::empty(),
{
    let plan = move_plan(position, target, backlash_correction);
    assert(plan.drop_last() =~= Seq::<int>::empty());
    assert(sent(Seq::<int>::empty()) == Seq::<int>::empty());
    if target != position {
        assert(sent(plan) =~= seq![target - position]);
        assert(relative_commands(plan) =~= seq![relative_bytes(target - position)]);
    } else {
        assert(sent(plan) =~= Seq::<int>::empty());
        assert(relative_commands(plan) =~= Seq::<Seq<u8>>::empty());
    }
}

/// A stop whose writes all succeed writes the soft-stop command exactly
/// three times: the first two writes are each followed by another, and the
/// third ends the stop.
pub proof fn lemma_stop_writes_three(
    s: DriverView,
    first: Seq<u8>,
    second: Seq<u8>,
    third: Seq<u8>,
)
    requires
        s.stop_gate,
        s.soft_stops == 0,
    ensures
        ({
            let (s1, r1) = resume_stop_spec(s, Ok(first));
            let (s2, r2) = resume_stop_spec(s1, Ok(second));
            let (s3, r3) = resume_stop_spec(s2, Ok(third));
            &&& r1 == StepView::Perform(Transfer::Write(soft_stop_bytes(), WR_DLY))
            &&& r2 == StepView::Perform(Transfer::Write(soft_stop_bytes(), WR_DLY))
            &&& r3 == StepView::Finished(Ok(()))
            &&& s3.soft_stops == 3
            &&& !s3.stop_gate
            &&& s3.position == s.position
            &&& s3.job == s.job
        }),
{
}

/// The state and step after `replies` are handed, one for each request, to
/// the operation under the move gate, from state `s` and step `step`; it
/// stops at the first step that ends the operation.
pub open spec fn run_spec(s: DriverView, step: StepView, replies: Seq<Result<Seq<u8>, Error>>) -> (
    DriverView,
    StepView,
)
    decreases replies.len(),
{
    if replies.len() == 0 || step is Finished {
        (s, step)
    } else {
        run_spec(resume_spec(s, replies[0]).0, resume_spec(s, replies[0]).1, replies.drop_first())
    }
}

proof fn lemma_run_home(s: DriverView, step: StepView, replies: Seq<Result<Seq<u8>, Error>>)
    requires
        view_inv(s),
        step is Perform ==> s.job.is_home(),
        step is Finished ==> s.job is Idle,
        step == StepView::Finished(Ok(())) ==> s.position == 0,
    ensures
        view_inv(run_spec(s, step, replies).0),
        run_spec(s, step, replies).1 is Perform ==> run_spec(s, step, replies).0.job.is_home(),
        run_spec(s, step, replies).1 is Finished ==> run_spec(s, step, replies).0.job is Idle,
        run_spec(s, step, replies).1 == StepView::Finished(Ok(())) ==> run_spec(
            s,
            step,
            replies,
        ).0.position == 0,
    decreases replies.len(),
{
    if replies.len() > 0 && step is Perform {
        lemma_resume(s, replies[0]);
        lemma_run_home(resume_spec(s, replies[0]).0, resume_spec(s, replies[0]).1, replies.drop_first());
    }
}

proof fn lemma_run_move(s: DriverView, step: StepView, replies: Seq<Result<Seq<u8>, Error>>)
    requires
        view_inv(s),
        step is Perform ==> s.job.is_move(),
        step is Finished ==> s.job is Idle,
        step == StepView::Finished(Ok(())) ==> s.position == s.destination && s.issued == sent(s.plan),
    ensures
        view_inv(run_spec(s, step, replies).0),
        run_spec(s, step, replies).1 is Perform ==> run_spec(s, step, replies).0.job.is_move(),
        run_spec(s, step, replies).1 is Finished ==> run_spec(s, step, replies).0.job is Idle,
        run_spec(s, step, replies).0.plan == s.plan,
        run_spec(s, step, replies).0.destination == s.destination,
        run_spec(s, step, replies).1 == StepView::Finished(Ok(())) ==> {
            &&& run_spec(s, step, replies).0.position == s.destination
            &&& run_spec(s, step, replies).0.issued == sent(s.plan)
        },
    decreases replies.len(),
{
    if replies.len() > 0 && step is Perform {
        lemma_resume(s, replies[0]);
        lemma_run_move(resume_spec(s, replies[0]).0, resume_spec(s, replies[0]).1, replies.drop_first());
    }
}

/// Once `home` has started, whatever the device replies: the driver reports
/// homing for as long as the home runs, no longer reports it once the home
/// ends in success or failure, and stands at position zero after a success.
pub proof fn lemma_home_outcome(s: DriverView, replies: Seq<Result<Seq<u8>, Error>>)
    requires
        view_inv(s),
        !s.move_gate,
    ensures
        ({
            let (f, r) = run_spec(
                with_job(s, Job::HomeEnable),
                StepView::Perform(Transfer::WriteRead(homing_on_bytes(), WR_DLY)),
                replies,
            );
            &&& r is Perform ==> f.homing
            &&& r is Finished ==> !f.homing
            &&& r == StepView::Finished(Ok(())) ==> f.position == 0
        }),
{
    lemma_run_home(
        with_job(s, Job::HomeEnable),
        StepView::Perform(Transfer::WriteRead(homing_on_bytes(), WR_DLY)),
        replies,
    );
}

/// Once `move_to(target, backlash_correction)` has started from position
/// `P`, whatever the device replies: the driver reports moving until the
/// move ends, and a move that ends in success stands at `target` having
/// written exactly the relative moves of its plan. With a positive
/// correction and `target < P` those are two, `target - P - correction`
/// then `correction`; otherwise one, `target - P`, unless that is zero.
pub proof fn lemma_move_outcome(
    s: DriverView,
    target: int,
    backlash_correction: int,
    replies: Seq<Result<Seq<u8>, Error>>,
)
    requires
        view_inv(s),
        !s.move_gate,
        in_i64(target),
        move_fits(s.position, target, backlash_correction),
    ensures
        ({
            let begun = Mp789a4::begin_move(s, target, backlash_correction);
            let (f, r) = run_spec(
                start_relative_spec(begun, 0).0,
                start_relative_spec(begun, 0).1,
                replies,
            );
            &&& r is Perform ==> f.moving
            &&& r is Finished ==> !f.moving
            &&& r == StepView::Finished(Ok(())) ==> {
                &&& f.position == target
                &&& f.issued == sent(move_plan(s.position, target, backlash_correction))
                &&& backlash_correction > 0 && target < s.position ==> f.issued == seq![
                    target - s.position - backlash_correction,
                    backlash_correction,
                ]
                &&& (target >= s.position || backlash_correction <= 0) && target != s.position
                    ==> f.issued == seq![target - s.position]
            }
        }),
{
    let begun = Mp789a4::begin_move(s, target, backlash_correction);
    lemma_plan_total(s.position, target, backlash_correction);
    assert(begun.plan.take(0) =~= Seq::<int>::empty());
    assert(sent(Seq::<int>::empty()) == Seq::<int>::empty());
    lemma_start_relative(begun, 0);
    lemma_take_step(begun.plan, 0);
    lemma_run_move(start_relative_spec(begun, 0).0, start_relative_spec(begun, 0).1, replies);
    if backlash_correction > 0 && target < s.position {
        lemma_backlash_approach(s.position, target, backlash_correction);
    } else {
        lemma_direct_approach(s.position, target, backlash_correction);
    }
}

} // verus!
