//! The status bar: what it shows, and what it does on each message.

use crate::com::{lemma_batt_stats_round_trip, BattStats};
use crate::text::{push_decimal, push_decimal2, push_signed_decimal};
use crate::text::{spec_decimal, spec_decimal2, spec_signed_decimal};
use crate::graphics::{spec_default_style, DrawStyle, Gid, GlyphStyle, Line, PixelColor, Point};
use crate::graphics::{Cursor, Pt, Rectangle, TextBounds, TextView};
use crate::wire::{low32, spec_lendable, spec_low32};
use crate::wire::{Buffer, Call, Error, MemoryMessageView, Message, MessageView, Reply};
use vstd::prelude::*;

verus! {

/// The requests that the status bar's server takes.
#[derive(Clone, Copy, Debug, PartialEq, Eq, Structural)]
pub enum StatusOpcode {
    /// A battery reading, passed on from the callback.
    BattStats,
    /// The date and time, passed on from the callback.
    DateTime,
    /// Time for the periodic update.
    Pump,
}

impl StatusOpcode {
    /// The wire number of the opcode: its place in the list.
    pub open spec fn spec_id(self) -> usize {
        match self {
            StatusOpcode::BattStats => 0,
            StatusOpcode::DateTime => 1,
            StatusOpcode::Pump => 2,
        }
    }

    /// The opcode with the wire number `id`, if there is one.
    pub open spec fn spec_from_id(id: usize) -> Option<StatusOpcode> {
        if id == 0 {
            Some(StatusOpcode::BattStats)
        } else if id == 1 {
            Some(StatusOpcode::DateTime)
        } else if id == 2 {
            Some(StatusOpcode::Pump)
        } else {
            None
        }
    }

    /// The wire number of the opcode.
    pub fn to_usize(&self) -> (id: usize)
        ensures
            id == self.spec_id(),
            StatusOpcode::spec_from_id(id) == Some(*self),
    {
        match self {
            StatusOpcode::BattStats => 0,
            StatusOpcode::DateTime => 1,
            StatusOpcode::Pump => 2,
        }
    }

    /// The opcode with the wire number `id`; `None` for a number that names
    /// none, which the status thread ignores.
    pub fn from_usize(id: usize) -> (op: Option<StatusOpcode>)
        ensures
            op == StatusOpcode::spec_from_id(id),
            op matches Some(o) ==> o.spec_id() == id,
    {
        if id == 0 {
            Some(StatusOpcode::BattStats)
        } else if id == 1 {
            Some(StatusOpcode::DateTime)
        } else if id == 2 {
            Some(StatusOpcode::Pump)
        } else {
            None
        }
    }
}

/// A day of the week.
#[derive(Clone, Copy, Debug, PartialEq, Eq, Structural)]
pub enum Weekday {
    Monday,
    Tuesday,
    Wednesday,
    Thursday,
    Friday,
    Saturday,
    Sunday,
}

impl Weekday {
    /// The three-letter name of the day.
    pub open spec fn spec_name(self) -> Seq<char> {
        match self {
            Weekday::Monday => seq!['M', 'o', 'n'],
            Weekday::Tuesday => seq!['T', 'u', 'e'],
            Weekday::Wednesday => seq!['W', 'e', 'd'],
            Weekday::Thursday => seq!['T', 'h', 'u'],
            Weekday::Friday => seq!['F', 'r', 'i'],
            Weekday::Saturday => seq!['S', 'a', 't'],
            Weekday::Sunday => seq!['S', 'u', 'n'],
        }
    }

    /// The number of the day in the week, from 0 for Monday.
    pub open spec fn spec_number(self) -> u8 {
        match self {
            Weekday::Monday => 0,
            Weekday::Tuesday => 1,
            Weekday::Wednesday => 2,
            Weekday::Thursday => 3,
            Weekday::Friday => 4,
            Weekday::Saturday => 5,
            Weekday::Sunday => 6,
        }
    }

    /// The day with the number `n`, if there is one.
    pub open spec fn spec_from_number(n: u8) -> Option<Weekday> {
        if n == 0 {
            Some(Weekday::Monday)
        } else if n == 1 {
            Some(Weekday::Tuesday)
        } else if n == 2 {
            Some(Weekday::Wednesday)
        } else if n == 3 {
            Some(Weekday::Thursday)
        } else if n == 4 {
            Some(Weekday::Friday)
        } else if n == 5 {
            Some(Weekday::Saturday)
        } else if n == 6 {
            Some(Weekday::Sunday)
        } else {
            None
        }
    }

    /// The number of the day in the week, from 0 for Monday.
    pub fn to_u8(&self) -> (n: u8)
        ensures
            n == self.spec_number(),
            Weekday::spec_from_number(n) == Some(*self),
    {
        match self {
            Weekday::Monday => 0,
            Weekday::Tuesday => 1,
            Weekday::Wednesday => 2,
            Weekday::Thursday => 3,
            Weekday::Friday => 4,
            Weekday::Saturday => 5,
            Weekday::Sunday => 6,
        }
    }

    /// The day with the number `n`; `None` for a number from 7 up.
    pub fn from_u8(n: u8) -> (day: Option<Weekday>)
        ensures
            day == Weekday::spec_from_number(n),
            day matches Some(d) ==> d.spec_number() == n,
    {
        if n == 0 {
            Some(Weekday::Monday)
        } else if n == 1 {
            Some(Weekday::Tuesday)
        } else if n == 2 {
            Some(Weekday::Wednesday)
        } else if n == 3 {
            Some(Weekday::Thursday)
        } else if n == 4 {
            Some(Weekday::Friday)
        } else if n == 5 {
            Some(Weekday::Saturday)
        } else if n == 6 {
            Some(Weekday::Sunday)
        } else {
            None
        }
    }

    fn letters(&self) -> (l: (char, char, char))
        ensures
            seq![l.0, l.1, l.2] == self.spec_name(),
    {
        match self {
            Weekday::Monday => ('M', 'o', 'n'),
            Weekday::Tuesday => ('T', 'u', 'e'),
            Weekday::Wednesday => ('W', 'e', 'd'),
            Weekday::Thursday => ('T', 'h', 'u'),
            Weekday::Friday => ('F', 'r', 'i'),
            Weekday::Saturday => ('S', 'a', 't'),
            Weekday::Sunday => ('S', 'u', 'n'),
        }
    }
}

/// A reading of the real-time clock.
#[derive(Clone, Copy, Debug, PartialEq, Eq, Structural)]
pub struct DateTime {
    pub seconds: u8,
    pub minutes: u8,
    pub hours: u8,
    pub days: u8,
    pub months: u8,
    pub years: u8,
    pub weekday: Weekday,
}

/// What the right half of the bar shows.
#[derive(Clone, Copy, Debug, PartialEq, Eq, Structural)]
pub enum BattText {
    /// Nothing yet.
    Blank,
    /// Voltage and current, as in `3700mV -120mA`.
    VoltageCurrent { millivolts: u16, milliamps: i16 },
    /// Remaining capacity and state of charge, as in `1100mAh 87%`.
    CapacityCharge { milliamp_hours: u16, percent: u8 },
}

impl BattText {
    /// The characters to show.
    pub open spec fn spec_text(self) -> Seq<char> {
        match self {
            BattText::Blank => Seq::empty(),
            BattText::VoltageCurrent { millivolts, milliamps } => spec_decimal(millivolts as nat)
                + "mV "@ + spec_signed_decimal(milliamps as int) + "mA"@,
            BattText::CapacityCharge { milliamp_hours, percent } => spec_decimal(
                milliamp_hours as nat,
            ) + "mAh "@ + spec_decimal(percent as nat) + "%"@,
        }
    }

    /// The characters to show.
    pub fn render(&self) -> (text: Vec<char>)
        ensures
            text@ == self.spec_text(),
    {
        let mut out: Vec<char> = Vec::new();
        proof {
            reveal_strlit("mV ");
            reveal_strlit("mA");
            reveal_strlit("mAh ");
            reveal_strlit("%");
        }
        match self {
            BattText::Blank => {},
            BattText::VoltageCurrent { millivolts, milliamps } => {
                push_decimal(&mut out, *millivolts as u64);
                out.push('m');
                out.push('V');
                out.push(' ');
                push_signed_decimal(&mut out, *milliamps);
                out.push('m');
                out.push('A');
            },
            BattText::CapacityCharge { milliamp_hours, percent } => {
                push_decimal(&mut out, *milliamp_hours as u64);
                out.push('m');
                out.push('A');
                out.push('h');
                out.push(' ');
                push_decimal(&mut out, *percent as u64);
                out.push('%');
            },
        }
        out
    }
}

/// What the left half of the bar shows.
#[derive(Clone, Copy, Debug, PartialEq, Eq, Structural)]
pub enum UptimeText {
    /// The text before the first update.
    Booting,
    /// Time of day and date, as in `09:05 Tue 3/14`.
    Clock { hour: u8, minute: u8, weekday: Weekday, month: u8, day: u8 },
    /// Time since start, as in `Up 01:02:03`.
    Uptime { hours: u64, minutes: u64, seconds: usize },
}

impl UptimeText {
    /// The characters to show.
    pub open spec fn spec_text(self) -> Seq<char> {
        match self {
            UptimeText::Booting => "Booting up..."@,
            UptimeText::Clock { hour, minute, weekday, month, day } => spec_decimal2(hour as nat)
                + ":"@ + spec_decimal2(minute as nat) + " "@ + weekday.spec_name() + " "@
                + spec_decimal(month as nat) + "/"@ + spec_decimal(day as nat),
            UptimeText::Uptime { hours, minutes, seconds } => "Up "@ + spec_decimal2(hours as nat)
                + ":"@ + spec_decimal2(minutes as nat) + ":"@ + spec_decimal2(seconds as nat),
        }
    }

    /// The characters to show.
    pub fn render(&self) -> (text: Vec<char>)
        ensures
            text@ == self.spec_text(),
    {
        let mut out: Vec<char> = Vec::new();
        proof {
            reveal_strlit("Booting up...");
            reveal_strlit(":");
            reveal_strlit(" ");
            reveal_strlit("/");
            reveal_strlit("Up ");
        }
        match self {
            UptimeText::Booting => {
                out.push('B');
                out.push('o');
                out.push('o');
                out.push('t');
                out.push('i');
                out.push('n');
                out.push('g');
                out.push(' ');
                out.push('u');
                out.push('p');
                out.push('.');
                out.push('.');
                out.push('.');
                assert(out@ =~= "Booting up..."@);
            },
            UptimeText::Clock { hour, minute, weekday, month, day } => {
                push_decimal2(&mut out, *hour as u64);
                out.push(':');
                push_decimal2(&mut out, *minute as u64);
                out.push(' ');
                let l = weekday.letters();
                out.push(l.0);
                out.push(l.1);
                out.push(l.2);
                out.push(' ');
                push_decimal(&mut out, *month as u64);
                out.push('/');
                push_decimal(&mut out, *day as u64);
            },
            UptimeText::Uptime { hours, minutes, seconds } => {
                out.push('U');
                out.push('p');
                out.push(' ');
                push_decimal2(&mut out, *hours);
                out.push(':');
                push_decimal2(&mut out, *minutes);
                out.push(':');
                push_decimal2(&mut out, *seconds as u64);
            },
        }
        out
    }
}

/// One thing for the status thread to do, after a message was handled.
#[derive(Clone, Copy, Debug, PartialEq, Eq, Structural)]
pub enum StatusAction {
    /// Ask the clock for the date and time.
    RequestDateTime,
    /// Draw the left half with the text of `uptime_text`.
    PostUptime,
    /// Draw the right half with the text of `batt_text`.
    PostBattStats,
    /// Have the screen redrawn.
    Redraw,
    /// Ask for a battery reading.
    RequestBattStats,
}

/// One received message, with the time at which it is handled.
#[derive(Clone, Copy, Debug, PartialEq, Eq, Structural)]
pub struct StatusInput {
    /// The opcode of the message.
    pub id: usize,
    /// The first two words of a scalar message.
    pub arg1: usize,
    pub arg2: usize,
    /// Milliseconds since start.
    pub elapsed_ms: u64,
    /// The clock reading that a memory message carried.
    pub datetime: Option<DateTime>,
}

/// What the status thread carries from one message to the next.
#[derive(Clone, Copy, Debug, PartialEq, Eq, Structural)]
pub struct StatusBar {
    /// When a battery reading was last asked for, in milliseconds since start.
    pub last_time: u64,
    /// Which of the two views of each half is shown: the first for phases 0
    /// to 3, the second for phases 4 to 7.
    pub stats_phase: usize,
    /// The second of the minute at which the bar was last drawn.
    pub last_seconds: usize,
    /// The last clock reading, if any has arrived.
    pub datetime: Option<DateTime>,
    /// Draws since the clock was last asked.
    pub dt_pump_modulus: u32,
    /// The bar is drawn when the second of the minute enters another
    /// interval of this length.
    pub secs_interval: usize,
    /// A battery reading is asked for when more than this many milliseconds
    /// have passed since the last request.
    pub batt_interval: u64,
    pub uptime_text: UptimeText,
    pub batt_text: BattText,
}

/// The clock is asked with the draw that follows this many draws without
/// asking.
pub const DATETIME_PERIOD: u32 = 15;

/// Phases of the display cycle.
pub const PHASES: usize = 8;

impl StatusBar {
    /// The phase lies in its cycle, the draw interval is not zero, and the
    /// count of draws has not passed its period.
    pub open spec fn wf(self) -> bool {
        &&& self.stats_phase < PHASES
        &&& self.secs_interval > 0
        &&& self.dt_pump_modulus <= DATETIME_PERIOD
    }

    /// Whether the second view of each half is the one to show.
    pub open spec fn second_view(self) -> bool {
        self.stats_phase > 3
    }

    /// The state at start. `slow` lowers the rate of updates to one draw in
    /// ten seconds and one battery request in five.
    pub open spec fn spec_new(elapsed_ms: u64, slow: bool) -> StatusBar {
        StatusBar {
            last_time: elapsed_ms,
            stats_phase: 0,
            last_seconds: if (elapsed_ms / 1000) % 60 == 0 {
                usize::MAX
            } else {
                ((elapsed_ms / 1000) % 60 - 1) as usize
            },
            datetime: None,
            dt_pump_modulus: DATETIME_PERIOD,
            secs_interval: if slow {
                10
            } else {
                1
            },
            batt_interval: if slow {
                5000
            } else {
                500
            },
            uptime_text: UptimeText::Booting,
            batt_text: BattText::Blank,
        }
    }

    /// The state after a battery reading has arrived.
    pub open spec fn spec_batt_stats(self, stats: BattStats) -> StatusBar {
        StatusBar {
            batt_text: if self.second_view() {
                BattText::VoltageCurrent { millivolts: stats.voltage, milliamps: stats.current }
            } else {
                BattText::CapacityCharge {
                    milliamp_hours: stats.remaining_capacity,
                    percent: stats.soc,
                }
            },
            ..self
        }
    }

    /// The second of the minute at `elapsed_ms`.
    pub open spec fn spec_second(elapsed_ms: u64) -> usize {
        ((elapsed_ms / 1000) % 60) as usize
    }

    /// Whether a periodic update at `elapsed_ms` draws the bar.
    pub open spec fn spec_draws(self, elapsed_ms: u64) -> bool {
        StatusBar::spec_second(elapsed_ms) / self.secs_interval != self.last_seconds
            / self.secs_interval
    }

    /// Whether a periodic update at `elapsed_ms` asks for a battery reading.
    pub open spec fn spec_polls(self, elapsed_ms: u64) -> bool {
        elapsed_ms - self.last_time > self.batt_interval
    }

    /// The text of the left half for a draw at `elapsed_ms`.
    pub open spec fn spec_uptime_text(self, elapsed_ms: u64) -> UptimeText {
        match self.datetime {
            Some(dt) if self.second_view() => UptimeText::Clock {
                hour: dt.hours,
                minute: dt.minutes,
                weekday: dt.weekday,
                month: dt.months,
                day: dt.days,
            },
            _ => UptimeText::Uptime {
                hours: elapsed_ms / 3_600_000,
                minutes: (elapsed_ms / 60_000) % 60,
                seconds: StatusBar::spec_second(elapsed_ms),
            },
        }
    }

    /// The state after a draw at `elapsed_ms`.
    pub open spec fn spec_drawn(self, elapsed_ms: u64) -> StatusBar {
        StatusBar {
            dt_pump_modulus: if self.dt_pump_modulus + 1 > DATETIME_PERIOD {
                0
            } else {
                (self.dt_pump_modulus + 1) as u32
            },
            last_seconds: StatusBar::spec_second(elapsed_ms),
            uptime_text: self.spec_uptime_text(elapsed_ms),
            stats_phase: ((self.stats_phase + 1) % (PHASES as int)) as usize,
            ..self
        }
    }

    /// The state after a periodic update at `elapsed_ms`.
    pub open spec fn spec_pump(self, elapsed_ms: u64) -> StatusBar {
        let drawn = if self.spec_draws(elapsed_ms) {
            self.spec_drawn(elapsed_ms)
        } else {
            self
        };
        if self.spec_polls(elapsed_ms) {
            StatusBar { last_time: elapsed_ms, ..drawn }
        } else {
            drawn
        }
    }

    /// What a periodic update at `elapsed_ms` asks the thread to do, in order.
    pub open spec fn spec_pump_actions(self, elapsed_ms: u64) -> Seq<StatusAction> {
        let clock = if self.spec_draws(elapsed_ms) && self.dt_pump_modulus + 1 > DATETIME_PERIOD {
            seq![StatusAction::RequestDateTime]
        } else {
            Seq::empty()
        };
        let draw = if self.spec_draws(elapsed_ms) {
            seq![StatusAction::PostUptime, StatusAction::PostBattStats, StatusAction::Redraw]
        } else {
            Seq::empty()
        };
        let poll = if self.spec_polls(elapsed_ms) {
            seq![StatusAction::RequestBattStats]
        } else {
            Seq::empty()
        };
        clock + draw + poll
    }

    /// The state after `input` was handled.
    pub open spec fn spec_step(self, input: StatusInput) -> StatusBar {
        match StatusOpcode::spec_from_id(input.id) {
            Some(StatusOpcode::BattStats) => self.spec_batt_stats(
                BattStats::spec_from_words(input.arg1 as int, input.arg2 as int),
            ),
            Some(StatusOpcode::Pump) => self.spec_pump(input.elapsed_ms),
            Some(StatusOpcode::DateTime) => StatusBar { datetime: input.datetime, ..self },
            None => self,
        }
    }

    /// What handling `input` asks the thread to do, in order.
    pub open spec fn spec_actions(self, input: StatusInput) -> Seq<StatusAction> {
        match StatusOpcode::spec_from_id(input.id) {
            Some(StatusOpcode::Pump) => self.spec_pump_actions(input.elapsed_ms),
            _ => Seq::empty(),
        }
    }

    /// Whether `input` can be handled in this state: time has not run
    /// backwards, and a clock message carries a reading.
    pub open spec fn accepts(self, input: StatusInput) -> bool {
        match StatusOpcode::spec_from_id(input.id) {
            Some(StatusOpcode::Pump) => self.last_time <= input.elapsed_ms,
            Some(StatusOpcode::DateTime) => input.datetime is Some,
            _ => true,
        }
    }

    /// Whether the state is well formed.
    pub fn is_wf(&self) -> (b: bool)
        ensures
            b == self.wf(),
    {
        self.stats_phase < PHASES && self.secs_interval > 0 && self.dt_pump_modulus
            <= DATETIME_PERIOD
    }

    /// Whether `input` can be handled in this state.
    pub fn is_accepted(&self, input: &StatusInput) -> (b: bool)
        ensures
            b == self.accepts(*input),
    {
        match StatusOpcode::from_usize(input.id) {
            Some(StatusOpcode::Pump) => self.last_time <= input.elapsed_ms,
            Some(StatusOpcode::DateTime) => input.datetime.is_some(),
            _ => true,
        }
    }

    /// The state at start, `elapsed_ms` milliseconds after the system's.
    pub fn new(elapsed_ms: u64, slow: bool) -> (bar: StatusBar)
        ensures
            bar == StatusBar::spec_new(elapsed_ms, slow),
            bar.wf(),
    {
        let second: usize = ((elapsed_ms / 1000) % 60) as usize;
        StatusBar {
            last_time: elapsed_ms,
            stats_phase: 0,
            last_seconds: second.wrapping_sub(1),
            datetime: None,
            dt_pump_modulus: DATETIME_PERIOD,
            secs_interval: if slow {
                10
            } else {
                1
            },
            batt_interval: if slow {
                5000
            } else {
                500
            },
            uptime_text: UptimeText::Booting,
            batt_text: BattText::Blank,
        }
    }

    fn on_pump(&mut self, elapsed_ms: u64) -> (actions: Vec<StatusAction>)
        requires
            old(self).wf(),
            old(self).last_time <= elapsed_ms,
        ensures
            final(self).wf(),
            *final(self) == old(self).spec_pump(elapsed_ms),
            actions@ == old(self).spec_pump_actions(elapsed_ms),
    {
        let mut actions: Vec<StatusAction> = Vec::new();
        let polls = elapsed_ms - self.last_time > self.batt_interval;
        let now_seconds: usize = ((elapsed_ms / 1000) % 60) as usize;
        if now_seconds / self.secs_interval != self.last_seconds / self.secs_interval {
            self.dt_pump_modulus = self.dt_pump_modulus + 1;
            if self.dt_pump_modulus > DATETIME_PERIOD {
                self.dt_pump_modulus = 0;
                actions.push(StatusAction::RequestDateTime);
            }
            self.last_seconds = now_seconds;
            self.uptime_text = match self.datetime {
                Some(dt) if self.stats_phase > 3 => UptimeText::Clock {
                    hour: dt.hours,
                    minute: dt.minutes,
                    weekday: dt.weekday,
                    month: dt.months,
                    day: dt.days,
                },
                _ => UptimeText::Uptime {
                    hours: elapsed_ms / 3_600_000,
                    minutes: (elapsed_ms / 60_000) % 60,
                    seconds: now_seconds,
                },
            };
            actions.push(StatusAction::PostUptime);
            actions.push(StatusAction::PostBattStats);
            actions.push(StatusAction::Redraw);
            self.stats_phase = (self.stats_phase + 1) % PHASES;
        }
        if polls {
            self.last_time = elapsed_ms;
            actions.push(StatusAction::RequestBattStats);
        }
        actions
    }
}

/// Handles one message of the status thread: a battery reading sets the text
/// of the right half, a clock reading is kept, a periodic update draws the bar
/// and polls the battery when they are due, and a message of any other opcode
/// is ignored. Returns what the thread is to do, in order.
pub fn status_thread(bar: &mut StatusBar, input: &StatusInput) -> (actions: Vec<StatusAction>)
    requires
        old(bar).wf(),
        old(bar).accepts(*input),
    ensures
        final(bar).wf(),
        *final(bar) == old(bar).spec_step(*input),
        actions@ == old(bar).spec_actions(*input),
{
    match StatusOpcode::from_usize(input.id) {
        Some(StatusOpcode::BattStats) => {
            let stats = BattStats::from_words([input.arg1, input.arg2]);
            bar.batt_text = if bar.stats_phase > 3 {
                BattText::VoltageCurrent { millivolts: stats.voltage, milliamps: stats.current }
            } else {
                BattText::CapacityCharge {
                    milliamp_hours: stats.remaining_capacity,
                    percent: stats.soc,
                }
            };
            Vec::new()
        },
        Some(StatusOpcode::Pump) => bar.on_pump(input.elapsed_ms),
        Some(StatusOpcode::DateTime) => {
            bar.datetime = input.datetime;
            Vec::new()
        },
        None => Vec::new(),
    }
}

/// The canvas that four machine words name: the low 32 bits of each.
pub fn status_canvas(gid_0: usize, gid_1: usize, gid_2: usize, gid_3: usize) -> (canvas: Gid)
    ensures
        canvas.gid@ == seq![
            spec_low32(gid_0),
            spec_low32(gid_1),
            spec_low32(gid_2),
            spec_low32(gid_3),
        ],
{
    Gid::new([low32(gid_0), low32(gid_1), low32(gid_2), low32(gid_3)])
}

/// Half of a coordinate, rounded towards zero.
pub open spec fn spec_half(x: i16) -> i16 {
    if x >= 0 {
        (x / 2) as i16
    } else {
        (-((-x) / 2)) as i16
    }
}

/// The rectangle of the left half of a bar of size `screensize`.
pub open spec fn spec_left_half(screensize: Point) -> Rectangle {
    Rectangle {
        tl: Point { x: 0, y: 0 },
        br: Point { x: spec_half(screensize.x), y: (screensize.y - 1) as i16 },
        style: spec_default_style(),
    }
}

/// The rectangle of the right half of a bar of size `screensize`.
pub open spec fn spec_right_half(screensize: Point) -> Rectangle {
    Rectangle {
        tl: Point { x: spec_half(screensize.x), y: 0 },
        br: Point { x: screensize.x, y: (screensize.y - 1) as i16 },
        style: spec_default_style(),
    }
}

/// The view of the left half of the bar, which shows the time: trusted, in
/// small glyphs without a border, with the text of a bar that is starting.
pub fn uptime_view(canvas: Gid, screensize: Point) -> (tv: TextView)
    requires
        i16::MIN < screensize.y,
    ensures
        tv.canvas == canvas,
        !tv.untrusted,
        tv.bounds_hint == TextBounds::BoundingBox(spec_left_half(screensize)),
        tv.bounds_computed is None,
        tv.style == GlyphStyle::Small,
        tv.cursor == (Cursor { pt: Pt { x: 0, y: 0 }, line_height: 0 }),
        !tv.draw_border,
        tv.margin == (Point { x: 3, y: 0 }),
        tv.text@ == UptimeText::Booting.spec_text(),
{
    let mut tv = TextView::new(
        canvas,
        TextBounds::BoundingBox(
            Rectangle::new(Point::new(0, 0), Point::new(screensize.x / 2, screensize.y - 1)),
        ),
    );
    tv.untrusted = false;
    tv.style = GlyphStyle::Small;
    tv.draw_border = false;
    tv.margin = Point::new(3, 0);
    tv.text = "Booting up...".to_owned();
    tv
}

/// The view of the right half of the bar, which shows the battery: in small
/// glyphs without a border or a margin, and without text.
pub fn battstats_view(canvas: Gid, screensize: Point) -> (tv: TextView)
    requires
        i16::MIN < screensize.y,
    ensures
        tv.canvas == canvas,
        tv.untrusted,
        tv.bounds_hint == TextBounds::BoundingBox(spec_right_half(screensize)),
        tv.bounds_computed is None,
        tv.style == GlyphStyle::Small,
        tv.cursor == (Cursor { pt: Pt { x: 0, y: 0 }, line_height: 0 }),
        !tv.draw_border,
        tv.margin == (Point { x: 0, y: 0 }),
        tv.text@ == BattText::Blank.spec_text(),
{
    let mut tv = TextView::new(
        canvas,
        TextBounds::BoundingBox(
            Rectangle::new(
                Point::new(screensize.x / 2, 0),
                Point::new(screensize.x, screensize.y - 1),
            ),
        ),
    );
    tv.style = GlyphStyle::Small;
    tv.draw_border = false;
    tv.margin = Point::new(0, 0);
    tv
}

/// The line under a bar of size `screensize`: dark, one pixel wide, along
/// the bar's lower edge.
pub fn border_line(screensize: Point) -> (line: Line)
    ensures
        line == (Line {
            start: Point { x: 0, y: screensize.y },
            end: Point { x: screensize.x, y: screensize.y },
            style: spec_default_style(),
        }),
{
    Line::new_with_style(
        Point::new(0, screensize.y),
        Point::new(screensize.x, screensize.y),
        DrawStyle::new(PixelColor::Dark, PixelColor::Dark, 1),
    )
}

/// What the battery callback does with a reading: with a connection to the
/// status thread, the request that passes the reading on in two words;
/// without one, nothing.
pub fn battstats_cb(cb_to_main_conn: Option<u32>, stats: BattStats) -> (call: Option<Call>)
    ensures
        cb_to_main_conn is None ==> call is None,
        cb_to_main_conn matches Some(conn) ==> call matches Some(c) && c.sends(
            conn,
            MessageView::scalar(
                StatusOpcode::BattStats.spec_id(),
                stats.spec_words().0 as usize,
                stats.spec_words().1 as usize,
                0,
                0,
            ),
        ),
{
    match cb_to_main_conn {
        Some(conn) => {
            let rawstats = stats.to_words();
            Some(
                Call {
                    conn,
                    message: Message::new_scalar(
                        StatusOpcode::BattStats.to_usize(),
                        rawstats[0],
                        rawstats[1],
                        0,
                        0,
                    ),
                },
            )
        },
        None => None,
    }
}

/// A reading that the battery callback passes on sets the text of the right
/// half to that reading, in the view of the current phase, and changes
/// nothing else.
pub proof fn lemma_reading_reaches_the_bar(
    bar: StatusBar,
    stats: BattStats,
    elapsed_ms: u64,
    datetime: Option<DateTime>,
)
    ensures
        ({
            let input = StatusInput {
                id: StatusOpcode::BattStats.spec_id(),
                arg1: stats.spec_words().0 as usize,
                arg2: stats.spec_words().1 as usize,
                elapsed_ms,
                datetime,
            };
            &&& bar.accepts(input)
            &&& bar.spec_step(input) == bar.spec_batt_stats(stats)
            &&& bar.spec_actions(input) == Seq::<StatusAction>::empty()
        }),
{
    lemma_batt_stats_round_trip(stats);
}

/// What the clock callback does with a reading, whose archive is `archive`
/// with its root at `offset`: with a connection to the status thread, the
/// request that gives the region to it; without one, nothing. An archive that
/// cannot be sent is refused with `InternalError`.
pub fn dt_callback(cb_to_main_conn: Option<u32>, archive: Vec<u8>, offset: usize) -> (r: Result<
    Option<Call>,
    Error,
>)
    ensures
        cb_to_main_conn is None ==> r matches Ok(None),
        cb_to_main_conn matches Some(conn) ==> match r {
            Ok(call) => spec_lendable(archive@.len(), offset) && (call matches Some(c) && c.sends(
                conn,
                MessageView::Move(
                    MemoryMessageView {
                        id: StatusOpcode::DateTime.spec_id(),
                        buf: archive@,
                        offset,
                    },
                ),
            )),
            Err(e) => !spec_lendable(archive@.len(), offset) && e == Error::InternalError,
        },
{
    match cb_to_main_conn {
        Some(conn) => match Buffer::from_archive(archive, offset) {
            Ok(buffer) => Ok(Some(buffer.send(conn, StatusOpcode::DateTime.to_usize()))),
            Err(e) => Err(e),
        },
        None => Ok(None),
    }
}

/// Milliseconds between two periodic updates.
pub const PUMP_INTERVAL_MS: u64 = 250;

/// What the pump thread does after one update was sent.
#[derive(Clone, Copy, Debug, PartialEq, Eq, Structural)]
pub enum PumpStep {
    /// End the thread: the status thread is gone.
    Stop,
    /// Sleep this many milliseconds, then send the next update.
    Sleep(u64),
}

/// The periodic update that the pump thread sends on `conn`, of which the
/// low 32 bits name the connection.
pub fn pump_thread(conn: usize) -> (call: Call)
    ensures
        call.sends(spec_low32(conn), MessageView::scalar(StatusOpcode::Pump.spec_id(), 0, 0, 0, 0)),
{
    Call {
        conn: low32(conn),
        message: Message::new_scalar(StatusOpcode::Pump.to_usize(), 0, 0, 0, 0),
    }
}

/// Whether `response` is what sending an update may bring: the status
/// thread is gone, or the update was taken.
pub open spec fn spec_pump_response(response: Result<Reply, Error>) -> bool {
    response == Err::<Reply, Error>(Error::ServerNotFound) || response == Ok::<Reply, Error>(
        Reply::Done,
    )
}

/// Whether `response` is what sending an update may bring.
pub fn is_pump_response(response: &Result<Reply, Error>) -> (b: bool)
    ensures
        b == spec_pump_response(*response),
{
    match response {
        Err(Error::ServerNotFound) => true,
        Ok(Reply::Done) => true,
        _ => false,
    }
}

/// What the pump thread does once an update was sent: it ends when the
/// status thread is gone, and sleeps until the next update otherwise. Any
/// other response is not handled, and must not be handed in.
pub fn pump_thread_reply(response: Result<Reply, Error>) -> (step: PumpStep)
    requires
        spec_pump_response(response),
    ensures
        response is Err ==> step == PumpStep::Stop,
        response is Ok ==> step == PumpStep::Sleep(PUMP_INTERVAL_MS),
{
    match response {
        Err(_) => PumpStep::Stop,
        Ok(_) => PumpStep::Sleep(PUMP_INTERVAL_MS),
    }
}

} // verus!
