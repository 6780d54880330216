use vstd::prelude::*;

verus! {

/// Seconds in one calendar day of naive local time.
pub const SECONDS_PER_DAY: i64 = 86400;

/// Seconds in one hour.
pub const SECONDS_PER_HOUR: i64 = 3600;

/// Seconds in one minute.
pub const SECONDS_PER_MINUTE: i32 = 60;

/// Largest distance from the epoch that a timestamp handed to the scheduler
/// may have; every fire time computed from it then fits an `i64`.
pub const TIME_LIMIT: i64 = 0x1000_0000_0000_0000;

/// The unit in which a backup interval is chosen.
#[derive(PartialEq, Eq, Structural, Clone, Copy, Debug)]
pub enum TimeSelection {
    Second,
    Minute,
    Hour,
    Day,
}

impl TimeSelection {
    /// Largest magnitude offered for this unit.
    pub open spec fn max_magnitude(self) -> int {
        match self {
            TimeSelection::Second => 60,
            TimeSelection::Minute => 60,
            TimeSelection::Hour => 24,
            TimeSelection::Day => 30,
        }
    }

    /// Seconds in one step of this unit.
    pub open spec fn unit_seconds(self) -> int {
        match self {
            TimeSelection::Second => 1,
            TimeSelection::Minute => 60,
            TimeSelection::Hour => 3600,
            TimeSelection::Day => 86400,
        }
    }

    /// The unit's name as shown to the user.
    pub open spec fn label(self) -> Seq<char> {
        match self {
            TimeSelection::Second => "Second"@,
            TimeSelection::Minute => "Minute"@,
            TimeSelection::Hour => "Hour"@,
            TimeSelection::Day => "Day"@,
        }
    }

    /// Largest magnitude offered for this unit.
    pub fn value(&self) -> (r: i32)
        ensures
            r == self.max_magnitude(),
    {
        match self {
            TimeSelection::Second => SECONDS_PER_MINUTE,
            TimeSelection::Minute => 60,
            TimeSelection::Hour => 24,
            TimeSelection::Day => 30,
        }
    }

    /// The unit's name as shown to the user.
    pub fn name(&self) -> (r: &'static str)
        ensures
            r@ == self.label(),
    {
        proof {
            reveal_strlit("Second");
            reveal_strlit("Minute");
            reveal_strlit("Hour");
            reveal_strlit("Day");
        }
        match self {
            TimeSelection::Second => "Second",
            TimeSelection::Minute => "Minute",
            TimeSelection::Hour => "Hour",
            TimeSelection::Day => "Day",
        }
    }

    /// The unit of a name as written in the settings file.
    pub fn from_name(s: &str) -> (r: Option<TimeSelection>)
        ensures
            r matches Some(u) ==> u.label() == s@,
            r is None ==> forall|u: TimeSelection| u.label() != s@,
    {
        proof {
            reveal_strlit("Second");
            reveal_strlit("Minute");
            reveal_strlit("Hour");
            reveal_strlit("Day");
        }
        let units = [TimeSelection::Second, TimeSelection::Minute, TimeSelection::Hour, TimeSelection::Day];
        let mut i: usize = 0;
        while i < 4
            invariant
                0 <= i <= 4,
                units@ == seq![TimeSelection::Second, TimeSelection::Minute, TimeSelection::Hour, TimeSelection::Day],
                forall|j: int| 0 <= j < i ==> units@[j].label() != s@,
            decreases 4 - i,
        {
            if str_eq(units[i].name(), s) {
                return Some(units[i]);
            }
            i = i + 1;
        }
        proof {
            assert forall|u: TimeSelection| u.label() != s@ by {
                match u {
                    TimeSelection::Second => assert(units@[0] == u),
                    TimeSelection::Minute => assert(units@[1] == u),
                    TimeSelection::Hour => assert(units@[2] == u),
                    TimeSelection::Day => assert(units@[3] == u),
                }
            }
        }
        None
    }
}

impl Default for TimeSelection {
    fn default() -> (r: TimeSelection)
        ensures
            r == TimeSelection::Second,
    {
        TimeSelection::Second
    }
}

/// Whether two strings hold the same characters.
pub fn str_eq(a: &str, b: &str) -> (r: bool)
    ensures
        r == (a@ == b@),
{
    let n = a.unicode_len();
    if n != b.unicode_len() {
        return false;
    }
    let mut i: usize = 0;
    while i < n
        invariant
            n == a@.len(),
            n == b@.len(),
            0 <= i <= n,
            forall|j: int| 0 <= j < i ==> a@[j] == b@[j],
        decreases n - i,
    {
        if a.get_char(i) != b.get_char(i) {
            return false;
        }
        i = i + 1;
    }
    assert(a@ =~= b@);
    true
}

/// Seconds that a magnitude of the given unit stands for.
pub fn add_time(time: i32, current_selection: &TimeSelection) -> (r: i32)
    requires
        i32::MIN <= time * current_selection.unit_seconds() <= i32::MAX,
    ensures
        r == time * current_selection.unit_seconds(),
{
    match current_selection {
        TimeSelection::Second => time,
        TimeSelection::Minute => time * SECONDS_PER_MINUTE,
        TimeSelection::Hour => time * (SECONDS_PER_MINUTE * 60),
        TimeSelection::Day => time * (SECONDS_PER_MINUTE * 60 * 24),
    }
}


/// Seconds that a magnitude of the given unit stands for; `None` where that
/// does not fit an `i32`.
pub fn checked_add_time(time: i32, current_selection: &TimeSelection) -> (r: Option<i32>)
    ensures
        r is Some <==> i32::MIN <= time * current_selection.unit_seconds() <= i32::MAX,
        r matches Some(v) ==> v == time * current_selection.unit_seconds(),
{
    let unit: i64 = match current_selection {
        TimeSelection::Second => 1,
        TimeSelection::Minute => 60,
        TimeSelection::Hour => 3600,
        TimeSelection::Day => 86400,
    };
    let t = time as i64;
    assert(-0x8000_0000 * 86400 <= t * unit <= 0x8000_0000 * 86400) by (nonlinear_arith)
        requires -0x8000_0000 <= t < 0x8000_0000, 1 <= unit <= 86400;
    let product = t * unit;
    if product < i32::MIN as i64 || product > i32::MAX as i64 {
        None
    } else {
        Some(add_time(time, current_selection))
    }
}

/// Start of the calendar day that holds `t`, in seconds of naive local time.
pub open spec fn day_start(t: int) -> int {
    t - t % 86400
}

/// Hour of the day at `t`.
pub open spec fn hour_of(t: int) -> int {
    (t % 86400) / 3600
}

/// First daily fire after a start at `now`: today at `hour`:00:00 when that
/// hour has not yet begun, else tomorrow at that time.
pub open spec fn daily_first_fire(now: int, hour: int) -> int {
    day_start(now) + hour * 3600 + if hour_of(now) >= hour { 86400int } else { 0int }
}

/// A timestamp the scheduler accepts: seconds of naive local time since
/// 1970-01-01 00:00:00, far enough from the ends of `i64` that every fire
/// time computed from it fits.
pub open spec fn valid_time(t: int) -> bool {
    -TIME_LIMIT <= t <= TIME_LIMIT
}

/// Whether the scheduler accepts `t` as a timestamp.
pub fn is_valid_time(t: i64) -> (r: bool)
    ensures
        r == valid_time(t as int),
{
    -TIME_LIMIT <= t && t <= TIME_LIMIT
}

/// A backup schedule: the unit, how many of it make one interval, and the hour
/// of the day at which daily backups run.
#[derive(PartialEq, Eq, Structural, Clone, Copy, Debug)]
pub struct ScheduleConfig {
    pub unit: TimeSelection,
    pub magnitude: i32,
    pub daily_hour: i32,
}

impl ScheduleConfig {
    pub open spec fn wf(self) -> bool {
        self.magnitude >= 0 && 0 <= self.daily_hour <= 23
    }

    /// Seconds between two consecutive fires.
    pub open spec fn step(self) -> int {
        match self.unit {
            TimeSelection::Day => 86400,
            _ => self.magnitude * self.unit.unit_seconds(),
        }
    }

    /// The first fire of a cycle whose first poll comes at `now`.
    pub open spec fn first_fire(self, now: int) -> int {
        match self.unit {
            TimeSelection::Day => daily_first_fire(now, self.daily_hour as int),
            _ => now + self.step(),
        }
    }

    /// A schedule from its parts; `None` where the magnitude is negative or the
    /// hour lies outside 0 to 23.
    pub fn new(unit: TimeSelection, magnitude: i32, daily_hour: i32) -> (r: Option<ScheduleConfig>)
        ensures
            r is Some <==> (magnitude >= 0 && 0 <= daily_hour <= 23),
            r matches Some(c) ==> c == (ScheduleConfig { unit, magnitude, daily_hour }),
    {
        if magnitude >= 0 && 0 <= daily_hour && daily_hour <= 23 {
            Some(ScheduleConfig { unit, magnitude, daily_hour })
        } else {
            None
        }
    }

    /// Seconds between two consecutive fires.
    pub fn interval(&self) -> (r: i64)
        requires
            self.wf(),
        ensures
            r == self.step(),
            0 <= r <= 0x8000_0000 * 3600,
    {
        match self.unit {
            TimeSelection::Day => SECONDS_PER_DAY,
            _ => {
                proof { lemma_step_bound(*self); }
                let m = self.magnitude as i64;
                match self.unit {
                    TimeSelection::Second => m,
                    TimeSelection::Minute => m * 60,
                    _ => m * SECONDS_PER_HOUR,
                }
            }
        }
    }

    /// The first fire of a cycle whose first poll comes at `now`.
    pub fn first_fire_at(&self, now: i64) -> (r: i64)
        requires
            self.wf(),
            valid_time(now as int),
        ensures
            r == self.first_fire(now as int),
            now - 86400 <= r <= now + 0x8000_0000 * 3600,
    {
        match self.unit {
            TimeSelection::Day => {
                let rem = match now.checked_rem_euclid(SECONDS_PER_DAY) {
                    Some(v) => v,
                    None => 0,
                };
                assert(rem == now % 86400);
                let hour = rem / SECONDS_PER_HOUR;
                let today = now - rem + (self.daily_hour as i64) * SECONDS_PER_HOUR;
                if hour >= self.daily_hour as i64 {
                    today + SECONDS_PER_DAY
                } else {
                    today
                }
            },
            _ => now + self.interval(),
        }
    }
}

/// The interval of a valid schedule is never negative and fits well inside
/// an `i64`.
pub proof fn lemma_step_bound(c: ScheduleConfig)
    requires
        c.wf(),
    ensures
        0 <= c.step() <= 0x8000_0000 * 3600,
{
    let m = c.magnitude as int;
    assert(0 <= m * 3600 <= 0x8000_0000 * 3600) by (nonlinear_arith)
        requires 0 <= m < 0x8000_0000;
    assert(0 <= m * 60 <= m * 3600) by (nonlinear_arith)
        requires 0 <= m;
}

/// The state of a backup cycle: its schedule, whether it runs, and when the
/// next backup is due.
#[derive(PartialEq, Eq, Structural, Clone, Copy, Debug)]
pub struct Scheduler {
    pub config: ScheduleConfig,
    pub running: bool,
    pub next_fire: Option<i64>,
}

impl Scheduler {
    pub open spec fn wf(self) -> bool {
        &&& self.config.wf()
        &&& !self.running ==> self.next_fire is None
        &&& self.next_fire matches Some(f) ==> -2 * TIME_LIMIT <= f <= 2 * TIME_LIMIT
    }

    /// The state after `start(config)`.
    pub open spec fn started(self, config: ScheduleConfig) -> Scheduler {
        Scheduler { config, running: true, next_fire: None }
    }

    /// The state after `stop()`.
    pub open spec fn stopped(self) -> Scheduler {
        Scheduler { running: false, next_fire: None, ..self }
    }

    /// The state after a poll at `now`, and whether a backup is due.
    pub open spec fn polled(self, now: int) -> (Scheduler, bool) {
        if !self.running {
            (self, false)
        } else {
            match self.next_fire {
                None => (Scheduler { next_fire: Some(self.config.first_fire(now) as i64), ..self }, false),
                Some(f) => if now >= f {
                    (Scheduler { next_fire: Some((f + self.config.step()) as i64), ..self }, true)
                } else {
                    (self, false)
                },
            }
        }
    }

    /// Seconds left at `now` until the next backup, while one is scheduled
    /// in the future.
    pub open spec fn remaining_at(self, now: int) -> Option<i64> {
        if self.running && self.next_fire is Some && self.next_fire->0 > now {
            Some((self.next_fire->0 - now) as i64)
        } else {
            None
        }
    }

    /// An idle scheduler holding `config`.
    pub fn new(config: ScheduleConfig) -> (r: Scheduler)
        requires
            config.wf(),
        ensures
            r.wf(),
            r == (Scheduler { config, running: false, next_fire: None }),
    {
        Scheduler { config, running: false, next_fire: None }
    }

    /// Begins a backup cycle with `config`; the first fire is computed at the
    /// next poll.
    pub fn start(&mut self, config: ScheduleConfig)
        requires
            config.wf(),
        ensures
            *final(self) == old(self).started(config),
            final(self).wf(),
    {
        self.config = config;
        self.running = true;
        self.next_fire = None;
    }

    /// Ends the backup cycle; later polls report nothing due.
    pub fn stop(&mut self)
        requires
            old(self).wf(),
        ensures
            *final(self) == old(self).stopped(),
            final(self).wf(),
    {
        self.running = false;
        self.next_fire = None;
    }

    /// Decides at `now` whether a backup is due. The first poll of a cycle
    /// fixes the first fire; a due poll moves the next fire one interval past
    /// the old one.
    pub fn poll(&mut self, now: i64) -> (due: bool)
        requires
            old(self).wf(),
            valid_time(now as int),
        ensures
            final(self).wf(),
            (*final(self), due) == old(self).polled(now as int),
    {
        if !self.running {
            return false;
        }
        match self.next_fire {
            None => {
                let f = self.config.first_fire_at(now);
                self.next_fire = Some(f);
                false
            },
            Some(f) => {
                if now >= f {
                    let step = self.config.interval();
                    self.next_fire = Some(f + step);
                    true
                } else {
                    false
                }
            },
        }
    }

    /// Seconds left until the next backup, while one is scheduled in the future.
    pub fn remaining(&self, now: i64) -> (r: Option<i64>)
        requires
            self.wf(),
            valid_time(now as int),
        ensures
            r == self.remaining_at(now as int),
            r matches Some(d) ==> d == self.next_fire->0 - now && d > 0,
    {
        if !self.running {
            return None;
        }
        match self.next_fire {
            Some(f) => if f > now { Some(f - now) } else { None },
            None => None,
        }
    }
}

} // verus!
