use vstd::prelude::*;

use crate::clock::{elapsed_secs, elapsed_secs_spec};

verus! {

/// The colour an entry of a log is shown in.
#[derive(Clone, Copy, Debug, PartialEq, Eq, Structural)]
pub enum Color {
    Red,
    Green,
    White,
    Blue,
}

/// How a new reading compares with the last reading of the main log.
#[derive(Clone, Copy, Debug, PartialEq, Eq, Structural)]
pub enum Trend {
    /// The new reading is below the last one.
    Falling,
    /// The new reading is above the last one.
    Rising,
    /// Neither: the readings are equal or cannot be compared.
    Steady,
}

/// Where a new reading stands against the base of the range watch.
#[derive(Clone, Copy, Debug, PartialEq, Eq, Structural)]
pub enum LimitMove {
    /// The reading has risen by at least the watched step above the base.
    Up,
    /// The reading has fallen by at least the watched step below the base.
    Down,
    /// Neither, or the range watch is off.
    Hold,
}

/// What an entry of a log holds: a sensor reading, or the mark that a run
/// with the given number began.
#[derive(Clone, Copy, Debug, PartialEq)]
pub enum Reading<T> {
    Sensor(T),
    RunStart(u16),
}

/// One line of a log: a value, the whole seconds since the run began, and
/// the colour it is shown in.
#[derive(Clone, Copy, Debug, PartialEq)]
pub struct Entry<T> {
    pub value: Reading<T>,
    pub time: u64,
    pub color: Color,
}

/// The entry that marks the beginning of run `n`.
pub open spec fn run_mark<T>(n: u16) -> Entry<T> {
    Entry { value: Reading::RunStart(n), time: 0, color: Color::Blue }
}

/// The colour of a reading in the main log.
pub open spec fn trend_color(trend: Trend) -> Color {
    match trend {
        Trend::Falling => Color::Red,
        Trend::Rising => Color::Green,
        Trend::Steady => Color::White,
    }
}

/// The colour of a reading in the user log.
pub open spec fn mark_color(user_mark: bool) -> Color {
    if user_mark {
        Color::Green
    } else {
        Color::White
    }
}

/// The run numbers that the run marks of a log carry, in order.
pub open spec fn run_marks<T>(log: Seq<Entry<T>>) -> Seq<u16>
    decreases log.len(),
{
    if log.len() == 0 {
        Seq::empty()
    } else {
        let rest = run_marks(log.drop_last());
        match log.last().value {
            Reading::RunStart(n) => rest.push(n),
            Reading::Sensor(_) => rest,
        }
    }
}

/// The run numbers 1, 2, ..., n.
pub open spec fn run_numbers(n: nat) -> Seq<u16> {
    Seq::new(n, |i: int| (i + 1) as u16)
}

/// What a log keeps, when `runs` runs began since it was last cleared: one
/// run mark per run, numbered from 1 up, and blue for exactly the run marks.
pub open spec fn log_ok<T>(log: Seq<Entry<T>>, runs: u16) -> bool {
    &&& run_marks(log) == run_numbers(runs as nat)
    &&& forall|i: int|
        0 <= i < log.len() ==> ((#[trigger] log[i]).value is RunStart <==> log[i].color
            == Color::Blue)
    &&& forall|i: int|
        0 <= i < log.len() && (#[trigger] log[i]).value is RunStart ==> log[i].time == 0
}

/// The state of the recording station.
#[verifier::ext_equal]
pub struct StationView<T> {
    /// Whether a run is going on, so that sensor readings are passed on.
    pub running: bool,
    /// How many runs began since the logs were last cleared.
    pub run_number: u16,
    /// The mark a user sets by hand, shown in the user log.
    pub user_mark: bool,
    /// When the latest run began, in nanoseconds on the station's clock.
    pub start_time: Option<u64>,
    /// The latest sensor reading.
    pub latest: Option<T>,
    /// Whether readings go into the main log.
    pub auto_record: bool,
    /// Whether readings go into the user log.
    pub user_record: bool,
    /// The last reading that went into the main log.
    pub last_auto: T,
    /// The base that the range watch measures steps from.
    pub limit_base: T,
    /// The main log.
    pub all_log: Seq<Entry<T>>,
    /// The user log.
    pub user_log: Seq<Entry<T>>,
    /// The range log.
    pub limit_log: Seq<Entry<T>>,
}

/// An event the station reacts to.
pub enum Event<T> {
    StartRun { now: u64 },
    StopRun,
    ToggleUserMark,
    Clear,
    Sample { value: T },
    Record { value: T, now: u64, trend: Trend, limit: LimitMove },
    ToggleAutoRecord,
    ToggleUserRecord,
}

impl<T> StationView<T> {
    /// A fresh station whose reference readings are `base`.
    pub open spec fn initial(base: T) -> Self {
        StationView {
            running: false,
            run_number: 0,
            user_mark: false,
            start_time: None,
            latest: None,
            auto_record: true,
            user_record: true,
            last_auto: base,
            limit_base: base,
            all_log: Seq::empty(),
            user_log: Seq::empty(),
            limit_log: Seq::empty(),
        }
    }

    /// A run begins at `now`: the run count goes up by one and every log gets
    /// the mark of the new run.
    pub open spec fn run_started(self, now: u64) -> Self {
        let n = (self.run_number + 1) as u16;
        StationView {
            running: true,
            run_number: n,
            start_time: Some(now),
            all_log: self.all_log.push(run_mark(n)),
            user_log: self.user_log.push(run_mark(n)),
            limit_log: self.limit_log.push(run_mark(n)),
            ..self
        }
    }

    /// The run stops; readings are no longer passed on.
    pub open spec fn run_stopped(self) -> Self {
        StationView { running: false, ..self }
    }

    /// The user mark flips.
    pub open spec fn user_mark_toggled(self) -> Self {
        StationView { user_mark: !self.user_mark, ..self }
    }

    /// The logs are emptied, the run count goes back to zero and the run stops.
    pub open spec fn cleared(self) -> Self {
        StationView {
            all_log: Seq::empty(),
            user_log: Seq::empty(),
            limit_log: Seq::empty(),
            run_number: 0,
            running: false,
            ..self
        }
    }

    /// A reading comes from the sensor.
    pub open spec fn sampled(self, value: T) -> Self {
        StationView { latest: Some(value), ..self }
    }

    /// The main log after a reading taken `time` seconds into the run.
    pub open spec fn with_auto(self, value: T, time: u64, trend: Trend) -> Self {
        if self.auto_record {
            StationView {
                all_log: self.all_log.push(
                    Entry { value: Reading::Sensor(value), time, color: trend_color(trend) },
                ),
                last_auto: value,
                ..self
            }
        } else {
            self
        }
    }

    /// The user log after a reading taken `time` seconds into the run.
    pub open spec fn with_user(self, value: T, time: u64) -> Self {
        if self.user_record {
            StationView {
                user_log: self.user_log.push(
                    Entry { value: Reading::Sensor(value), time, color: mark_color(self.user_mark) },
                ),
                ..self
            }
        } else {
            self
        }
    }

    /// The range log after a reading taken `time` seconds into the run.
    pub open spec fn with_limit(self, value: T, time: u64, limit: LimitMove) -> Self {
        match limit {
            LimitMove::Up => StationView {
                limit_log: self.limit_log.push(
                    Entry { value: Reading::Sensor(value), time, color: Color::Green },
                ),
                limit_base: value,
                ..self
            },
            LimitMove::Down => StationView {
                limit_log: self.limit_log.push(
                    Entry { value: Reading::Sensor(value), time, color: Color::Red },
                ),
                limit_base: value,
                ..self
            },
            LimitMove::Hold => self,
        }
    }

    /// A reading passed on by the sensor is written to the logs, at `now`;
    /// before any run began it is dropped.
    pub open spec fn recorded(self, value: T, now: u64, trend: Trend, limit: LimitMove) -> Self {
        match self.start_time {
            None => self,
            Some(start) => {
                let time = elapsed_secs_spec(start, now);
                self.with_auto(value, time, trend).with_user(value, time).with_limit(
                    value,
                    time,
                    limit,
                )
            },
        }
    }

    /// The main log is switched on or off.
    pub open spec fn auto_record_toggled(self) -> Self {
        StationView { auto_record: !self.auto_record, ..self }
    }

    /// The user log is switched on or off.
    pub open spec fn user_record_toggled(self) -> Self {
        StationView { user_record: !self.user_record, ..self }
    }

    /// Whether the station can take `event`: a new run needs a run number.
    pub open spec fn accepts(self, event: Event<T>) -> bool {
        event is StartRun ==> self.run_number < u16::MAX
    }

    /// The state after `event`.
    pub open spec fn next(self, event: Event<T>) -> Self {
        match event {
            Event::StartRun { now } => self.run_started(now),
            Event::StopRun => self.run_stopped(),
            Event::ToggleUserMark => self.user_mark_toggled(),
            Event::Clear => self.cleared(),
            Event::Sample { value } => self.sampled(value),
            Event::Record { value, now, trend, limit } => self.recorded(value, now, trend, limit),
            Event::ToggleAutoRecord => self.auto_record_toggled(),
            Event::ToggleUserRecord => self.user_record_toggled(),
        }
    }

    /// What every state the station reaches keeps.
    pub open spec fn inv(self) -> bool {
        &&& log_ok(self.all_log, self.run_number)
        &&& log_ok(self.user_log, self.run_number)
        &&& log_ok(self.limit_log, self.run_number)
        &&& forall|i: int|
            0 <= i < self.limit_log.len() && (#[trigger] self.limit_log[i]).value is Sensor
                ==> self.limit_log[i].color == Color::Green || self.limit_log[i].color
                == Color::Red
        &&& forall|i: int|
            0 <= i < self.user_log.len() && (#[trigger] self.user_log[i]).value is Sensor
                ==> self.user_log[i].color == Color::Green || self.user_log[i].color
                == Color::White
    }
}

/// The recording station: the run state, the latest sensor reading and the
/// three logs of readings.
pub struct Station<T> {
    running: bool,
    run_number: u16,
    user_mark: bool,
    start_time: Option<u64>,
    latest: Option<T>,
    auto_record: bool,
    user_record: bool,
    last_auto: T,
    limit_base: T,
    all_log: Vec<Entry<T>>,
    user_log: Vec<Entry<T>>,
    limit_log: Vec<Entry<T>>,
}

impl<T> View for Station<T> {
    type V = StationView<T>;

    closed spec fn view(&self) -> StationView<T> {
        StationView {
            running: self.running,
            run_number: self.run_number,
            user_mark: self.user_mark,
            start_time: self.start_time,
            latest: self.latest,
            auto_record: self.auto_record,
            user_record: self.user_record,
            last_auto: self.last_auto,
            limit_base: self.limit_base,
            all_log: self.all_log@,
            user_log: self.user_log@,
            limit_log: self.limit_log@,
        }
    }
}

impl<T: Copy> Station<T> {
    /// A fresh station: no run, both logs of readings switched on, empty logs,
    /// and `base` as the reference reading of the main log and the range watch.
    pub fn new(base: T) -> (r: Self)
        ensures
            r@ == StationView::initial(base),
    {
        let r = Station {
            running: false,
            run_number: 0,
            user_mark: false,
            start_time: None,
            latest: None,
            auto_record: true,
            user_record: true,
            last_auto: base,
            limit_base: base,
            all_log: Vec::new(),
            user_log: Vec::new(),
            limit_log: Vec::new(),
        };
        assert(r@ =~= StationView::initial(base));
        r
    }

    /// Begins a run at `now` (nanoseconds on the station's clock).
    pub fn start_run(&mut self, now: u64)
        requires
            old(self)@.run_number < u16::MAX,
        ensures
            final(self)@ == old(self)@.run_started(now),
            final(self)@.running,
            final(self)@.start_time == Some(now),
            final(self)@.run_number == old(self)@.run_number + 1,
    {
        self.running = true;
        self.start_time = Some(now);
        self.run_number = self.run_number + 1;
        let n = self.run_number;
        self.all_log.push(Entry { value: Reading::RunStart(n), time: 0, color: Color::Blue });
        self.user_log.push(Entry { value: Reading::RunStart(n), time: 0, color: Color::Blue });
        self.limit_log.push(Entry { value: Reading::RunStart(n), time: 0, color: Color::Blue });
    }

    /// Stops the run.
    pub fn stop_run(&mut self)
        ensures
            final(self)@ == old(self)@.run_stopped(),
            !final(self)@.running,
    {
        self.running = false;
    }

    /// Flips the user mark.
    pub fn toggle_user_mark(&mut self)
        ensures
            final(self)@ == old(self)@.user_mark_toggled(),
            final(self)@.user_mark == !old(self)@.user_mark,
    {
        self.user_mark = !self.user_mark;
    }

    /// Empties the logs, sets the run count back to zero and stops the run.
    pub fn clear(&mut self)
        ensures
            final(self)@ == old(self)@.cleared(),
    {
        self.all_log.clear();
        self.user_log.clear();
        self.limit_log.clear();
        self.run_number = 0;
        self.running = false;
    }

    /// Takes a reading from the sensor; returns whether it is to be passed on
    /// for recording, which it is while a run goes on.
    pub fn sample(&mut self, value: T) -> (forward: bool)
        ensures
            final(self)@ == old(self)@.sampled(value),
            final(self)@.latest == Some(value),
            forward == old(self)@.running,
    {
        self.latest = Some(value);
        self.running
    }

    /// Writes a reading passed on by the sensor to the logs, at `now`
    /// (nanoseconds on the station's clock). `trend` says how it compares with
    /// `last_auto()`, and `limit` where it stands against `limit_base()`.
    pub fn record(&mut self, value: T, now: u64, trend: Trend, limit: LimitMove)
        ensures
            final(self)@ == old(self)@.recorded(value, now, trend, limit),
    {
        match self.start_time {
            None => {},
            Some(start) => {
                let time = elapsed_secs(start, now);
                let color = match trend {
                    Trend::Falling => Color::Red,
                    Trend::Rising => Color::Green,
                    Trend::Steady => Color::White,
                };
                let user_color = if self.user_mark {
                    Color::Green
                } else {
                    Color::White
                };
                if self.auto_record {
                    self.all_log.push(Entry { value: Reading::Sensor(value), time, color });
                    self.last_auto = value;
                }
                if self.user_record {
                    self.user_log.push(
                        Entry { value: Reading::Sensor(value), time, color: user_color },
                    );
                }
                match limit {
                    LimitMove::Up => {
                        self.limit_base = value;
                        self.limit_log.push(
                            Entry { value: Reading::Sensor(value), time, color: Color::Green },
                        );
                    },
                    LimitMove::Down => {
                        self.limit_base = value;
                        self.limit_log.push(
                            Entry { value: Reading::Sensor(value), time, color: Color::Red },
                        );
                    },
                    LimitMove::Hold => {},
                }
            },
        }
    }

    /// Switches the main log on or off.
    pub fn toggle_auto_record(&mut self)
        ensures
            final(self)@ == old(self)@.auto_record_toggled(),
            final(self)@.auto_record == !old(self)@.auto_record,
    {
        self.auto_record = !self.auto_record;
    }

    /// Switches the user log on or off.
    pub fn toggle_user_record(&mut self)
        ensures
            final(self)@ == old(self)@.user_record_toggled(),
            final(self)@.user_record == !old(self)@.user_record,
    {
        self.user_record = !self.user_record;
    }

    /// Whether a run goes on.
    pub fn running(&self) -> (r: bool)
        ensures
            r == self@.running,
    {
        self.running
    }

    /// How many runs began since the logs were last cleared.
    pub fn run_number(&self) -> (r: u16)
        ensures
            r == self@.run_number,
    {
        self.run_number
    }

    /// The user mark.
    pub fn user_mark(&self) -> (r: bool)
        ensures
            r == self@.user_mark,
    {
        self.user_mark
    }

    /// When the latest run began, in nanoseconds on the station's clock.
    pub fn start_time(&self) -> (r: Option<u64>)
        ensures
            r == self@.start_time,
    {
        self.start_time
    }

    /// The latest sensor reading.
    pub fn latest(&self) -> (r: Option<T>)
        ensures
            r == self@.latest,
    {
        self.latest
    }

    /// Whether readings go into the main log.
    pub fn auto_record(&self) -> (r: bool)
        ensures
            r == self@.auto_record,
    {
        self.auto_record
    }

    /// Whether readings go into the user log.
    pub fn user_record(&self) -> (r: bool)
        ensures
            r == self@.user_record,
    {
        self.user_record
    }

    /// The last reading that went into the main log.
    pub fn last_auto(&self) -> (r: T)
        ensures
            r == self@.last_auto,
    {
        self.last_auto
    }

    /// The base that the range watch measures steps from.
    pub fn limit_base(&self) -> (r: T)
        ensures
            r == self@.limit_base,
    {
        self.limit_base
    }

    /// The main log.
    pub fn all_log(&self) -> (r: &Vec<Entry<T>>)
        ensures
            r@ == self@.all_log,
    {
        &self.all_log
    }

    /// The user log.
    pub fn user_log(&self) -> (r: &Vec<Entry<T>>)
        ensures
            r@ == self@.user_log,
    {
        &self.user_log
    }

    /// The range log.
    pub fn limit_log(&self) -> (r: &Vec<Entry<T>>)
        ensures
            r@ == self@.limit_log,
    {
        &self.limit_log
    }
}

} // verus!
