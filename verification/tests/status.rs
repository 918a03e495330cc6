use ipc_bridge::com::BattStats;
use ipc_bridge::graphics::{DrawStyle, Gid, GlyphStyle, Line, PixelColor, Point, Rectangle};
use ipc_bridge::graphics::TextBounds;
use ipc_bridge::status::{battstats_cb, battstats_view, border_line, dt_callback, pump_thread};
use ipc_bridge::status::{is_pump_response, pump_thread_reply, status_canvas, status_thread};
use ipc_bridge::status::uptime_view;
use ipc_bridge::status::{BattText, DateTime, PumpStep, StatusAction, StatusBar, StatusInput};
use ipc_bridge::status::{StatusOpcode, UptimeText, Weekday};
use ipc_bridge::text::{push_decimal, push_decimal2, push_signed_decimal};
use ipc_bridge::wire::{Error, MemoryMessage, Message, Reply, ScalarMessage};

fn text(chars: Vec<char>) -> String {
    chars.into_iter().collect()
}

fn pump(elapsed_ms: u64) -> StatusInput {
    StatusInput { id: 2, arg1: 0, arg2: 0, elapsed_ms, datetime: None }
}

fn batt(stats: BattStats, elapsed_ms: u64) -> StatusInput {
    let w = stats.to_words();
    StatusInput { id: 0, arg1: w[0], arg2: w[1], elapsed_ms, datetime: None }
}

fn pi_day() -> DateTime {
    DateTime {
        seconds: 59,
        minutes: 5,
        hours: 9,
        days: 14,
        months: 3,
        years: 21,
        weekday: Weekday::Sunday,
    }
}

#[test]
fn digits() {
    let mut out = Vec::new();
    for d in 0..10u64 {
        push_decimal(&mut out, d);
    }
    assert_eq!(text(out), "0123456789");
}

#[test]
fn decimal_numerals() {
    for (n, s) in [
        (0u64, "0"),
        (9, "9"),
        (10, "10"),
        (99, "99"),
        (100, "100"),
        (3700, "3700"),
        (65535, "65535"),
        (u64::MAX, "18446744073709551615"),
    ] {
        let mut out = Vec::new();
        push_decimal(&mut out, n);
        assert_eq!(text(out), s);
    }
}

#[test]
fn decimal_is_appended() {
    let mut out = vec!['a', 'b'];
    push_decimal(&mut out, 42);
    assert_eq!(text(out), "ab42");
}

#[test]
fn two_digit_numerals() {
    for (n, s) in [(0u64, "00"), (5, "05"), (9, "09"), (10, "10"), (59, "59"), (100, "100")] {
        let mut out = Vec::new();
        push_decimal2(&mut out, n);
        assert_eq!(text(out), s);
    }
}

#[test]
fn signed_numerals() {
    for (n, s) in [(0i16, "0"), (-1, "-1"), (-120, "-120"), (120, "120"), (i16::MIN, "-32768"), (i16::MAX, "32767")] {
        let mut out = Vec::new();
        push_signed_decimal(&mut out, n);
        assert_eq!(text(out), s);
    }
}

#[test]
fn status_opcode_numbers() {
    assert_eq!(StatusOpcode::BattStats.to_usize(), 0);
    assert_eq!(StatusOpcode::DateTime.to_usize(), 1);
    assert_eq!(StatusOpcode::Pump.to_usize(), 2);
    assert_eq!(StatusOpcode::from_usize(0), Some(StatusOpcode::BattStats));
    assert_eq!(StatusOpcode::from_usize(1), Some(StatusOpcode::DateTime));
    assert_eq!(StatusOpcode::from_usize(2), Some(StatusOpcode::Pump));
    assert_eq!(StatusOpcode::from_usize(3), None);
}

#[test]
fn battery_texts() {
    assert_eq!(text(BattText::Blank.render()), "");
    assert_eq!(
        text(BattText::VoltageCurrent { millivolts: 3700, milliamps: -120 }.render()),
        "3700mV -120mA"
    );
    assert_eq!(
        text(BattText::VoltageCurrent { millivolts: 0, milliamps: 0 }.render()),
        "0mV 0mA"
    );
    assert_eq!(
        text(BattText::CapacityCharge { milliamp_hours: 1100, percent: 87 }.render()),
        "1100mAh 87%"
    );
}

#[test]
fn uptime_texts() {
    assert_eq!(text(UptimeText::Booting.render()), "Booting up...");
    assert_eq!(
        text(UptimeText::Uptime { hours: 1, minutes: 2, seconds: 3 }.render()),
        "Up 01:02:03"
    );
    assert_eq!(
        text(UptimeText::Uptime { hours: 123, minutes: 59, seconds: 59 }.render()),
        "Up 123:59:59"
    );
    assert_eq!(
        text(
            UptimeText::Clock { hour: 9, minute: 5, weekday: Weekday::Tuesday, month: 3, day: 14 }
                .render()
        ),
        "09:05 Tue 3/14"
    );
}

#[test]
fn weekday_names() {
    let days = [
        (Weekday::Monday, "Mon"),
        (Weekday::Tuesday, "Tue"),
        (Weekday::Wednesday, "Wed"),
        (Weekday::Thursday, "Thu"),
        (Weekday::Friday, "Fri"),
        (Weekday::Saturday, "Sat"),
        (Weekday::Sunday, "Sun"),
    ];
    for (weekday, name) in days {
        let t = UptimeText::Clock { hour: 23, minute: 59, weekday, month: 12, day: 31 };
        assert_eq!(text(t.render()), format!("23:59 {} 12/31", name));
    }
}

#[test]
fn bar_at_start() {
    let bar = StatusBar::new(5000, false);
    assert_eq!(
        bar,
        StatusBar {
            last_time: 5000,
            stats_phase: 0,
            last_seconds: 4,
            datetime: None,
            dt_pump_modulus: 15,
            secs_interval: 1,
            batt_interval: 500,
            uptime_text: UptimeText::Booting,
            batt_text: BattText::Blank,
        }
    );
}

#[test]
fn bar_at_start_on_a_full_minute_wraps() {
    assert_eq!(StatusBar::new(0, false).last_seconds, usize::MAX);
    assert_eq!(StatusBar::new(60_999, false).last_seconds, usize::MAX);
    assert_eq!(StatusBar::new(61_000, false).last_seconds, 0);
}

#[test]
fn slow_bar_has_longer_intervals() {
    let bar = StatusBar::new(5000, true);
    assert_eq!(bar.secs_interval, 10);
    assert_eq!(bar.batt_interval, 5000);
}

#[test]
fn first_pump_draws_and_asks_the_clock() {
    let mut bar = StatusBar::new(5000, false);
    let actions = status_thread(&mut bar, &pump(5250));
    assert_eq!(
        actions,
        vec![
            StatusAction::RequestDateTime,
            StatusAction::PostUptime,
            StatusAction::PostBattStats,
            StatusAction::Redraw,
        ]
    );
    assert_eq!(bar.dt_pump_modulus, 0);
    assert_eq!(bar.last_seconds, 5);
    assert_eq!(bar.stats_phase, 1);
    assert_eq!(bar.last_time, 5000);
    assert_eq!(bar.uptime_text, UptimeText::Uptime { hours: 0, minutes: 0, seconds: 5 });
    assert_eq!(text(bar.uptime_text.render()), "Up 00:00:05");
}

#[test]
fn pump_within_the_same_second_does_nothing() {
    let mut bar = StatusBar::new(5000, false);
    status_thread(&mut bar, &pump(5250));
    let before = bar;
    assert_eq!(status_thread(&mut bar, &pump(5500)), vec![]);
    assert_eq!(bar, before);
}

#[test]
fn battery_is_polled_after_the_interval() {
    let mut bar = StatusBar::new(5000, false);
    status_thread(&mut bar, &pump(5250));
    assert_eq!(status_thread(&mut bar, &pump(5500)), vec![]);
    assert_eq!(status_thread(&mut bar, &pump(5501)), vec![StatusAction::RequestBattStats]);
    assert_eq!(bar.last_time, 5501);
    assert_eq!(bar.last_seconds, 5);
}

#[test]
fn draw_and_poll_in_one_pump() {
    let mut bar = StatusBar::new(5000, false);
    status_thread(&mut bar, &pump(5250));
    let actions = status_thread(&mut bar, &pump(6001));
    assert_eq!(
        actions,
        vec![
            StatusAction::PostUptime,
            StatusAction::PostBattStats,
            StatusAction::Redraw,
            StatusAction::RequestBattStats,
        ]
    );
    assert_eq!(bar.dt_pump_modulus, 1);
    assert_eq!(bar.stats_phase, 2);
    assert_eq!(bar.last_time, 6001);
    assert_eq!(bar.last_seconds, 6);
}

#[test]
fn clock_is_asked_every_sixteenth_draw() {
    let mut bar = StatusBar::new(0, false);
    let mut asked = Vec::new();
    for second in 1..=40u64 {
        let actions = status_thread(&mut bar, &pump(second * 1000));
        if actions.contains(&StatusAction::RequestDateTime) {
            asked.push(second);
        }
    }
    assert_eq!(asked, vec![1, 17, 33]);
}

#[test]
fn phase_cycles_through_eight() {
    let mut bar = StatusBar::new(0, false);
    let mut phases = Vec::new();
    for second in 1..=10u64 {
        status_thread(&mut bar, &pump(second * 1000));
        phases.push(bar.stats_phase);
    }
    assert_eq!(phases, vec![1, 2, 3, 4, 5, 6, 7, 0, 1, 2]);
}

#[test]
fn battery_text_follows_the_phase() {
    let stats = BattStats { voltage: 3700, soc: 87, current: -120, remaining_capacity: 1100 };
    let mut bar = StatusBar::new(5000, false);
    assert_eq!(status_thread(&mut bar, &batt(stats, 5001)), vec![]);
    assert_eq!(bar.batt_text, BattText::CapacityCharge { milliamp_hours: 1100, percent: 87 });
    bar.stats_phase = 3;
    status_thread(&mut bar, &batt(stats, 5001));
    assert_eq!(bar.batt_text, BattText::CapacityCharge { milliamp_hours: 1100, percent: 87 });
    bar.stats_phase = 4;
    status_thread(&mut bar, &batt(stats, 5001));
    assert_eq!(bar.batt_text, BattText::VoltageCurrent { millivolts: 3700, milliamps: -120 });
    assert_eq!(text(bar.batt_text.render()), "3700mV -120mA");
}

#[test]
fn battery_message_changes_only_the_text() {
    let stats = BattStats { voltage: 3700, soc: 87, current: -120, remaining_capacity: 1100 };
    let mut bar = StatusBar::new(5000, false);
    let mut expected = bar;
    expected.batt_text = BattText::CapacityCharge { milliamp_hours: 1100, percent: 87 };
    status_thread(&mut bar, &batt(stats, 99_999));
    assert_eq!(bar, expected);
}

#[test]
fn clock_reading_is_kept() {
    let mut bar = StatusBar::new(5000, false);
    let input = StatusInput { id: 1, arg1: 0, arg2: 0, elapsed_ms: 0, datetime: Some(pi_day()) };
    let mut expected = bar;
    expected.datetime = Some(pi_day());
    assert_eq!(status_thread(&mut bar, &input), vec![]);
    assert_eq!(bar, expected);
}

#[test]
fn clock_is_shown_in_the_second_half_of_the_cycle() {
    let mut bar = StatusBar::new(0, false);
    bar.datetime = Some(pi_day());
    bar.stats_phase = 3;
    status_thread(&mut bar, &pump(1000));
    assert_eq!(bar.uptime_text, UptimeText::Uptime { hours: 0, minutes: 0, seconds: 1 });
    assert_eq!(bar.stats_phase, 4);
    status_thread(&mut bar, &pump(2000));
    assert_eq!(
        bar.uptime_text,
        UptimeText::Clock { hour: 9, minute: 5, weekday: Weekday::Sunday, month: 3, day: 14 }
    );
    assert_eq!(text(bar.uptime_text.render()), "09:05 Sun 3/14");
}

#[test]
fn uptime_is_shown_without_a_clock_reading() {
    let mut bar = StatusBar::new(0, false);
    bar.stats_phase = 5;
    status_thread(&mut bar, &pump(3_723_000));
    assert_eq!(bar.uptime_text, UptimeText::Uptime { hours: 1, minutes: 2, seconds: 3 });
}

#[test]
fn slow_bar_draws_once_in_ten_seconds() {
    let mut bar = StatusBar::new(1000, true);
    let mut drawn = Vec::new();
    for second in 1..=30u64 {
        let actions = status_thread(&mut bar, &pump(second * 1000));
        if actions.contains(&StatusAction::Redraw) {
            drawn.push(second);
        }
    }
    assert_eq!(drawn, vec![10, 20, 30]);
}

#[test]
fn unknown_opcode_is_ignored_by_the_bar() {
    let mut bar = StatusBar::new(5000, false);
    let before = bar;
    let input = StatusInput { id: 3, arg1: 1, arg2: 2, elapsed_ms: 9000, datetime: Some(pi_day()) };
    assert_eq!(status_thread(&mut bar, &input), vec![]);
    assert_eq!(bar, before);
    let input = StatusInput { id: usize::MAX, arg1: 0, arg2: 0, elapsed_ms: 0, datetime: None };
    assert_eq!(status_thread(&mut bar, &input), vec![]);
    assert_eq!(bar, before);
}

#[test]
fn canvas_from_thread_arguments() {
    assert_eq!(status_canvas(1, 2, 3, 4), Gid { gid: [1, 2, 3, 4] });
    assert_eq!(status_canvas(usize::MAX, 0, 0, 0), Gid { gid: [0xffff_ffff, 0, 0, 0] });
}

#[test]
fn views_split_the_bar() {
    let canvas = Gid::new([1, 2, 3, 4]);
    let size = Point::new(336, 32);
    let left = uptime_view(canvas, size);
    assert_eq!(
        left.bounds_hint,
        TextBounds::BoundingBox(Rectangle::new(Point::new(0, 0), Point::new(168, 31)))
    );
    assert!(!left.untrusted);
    assert_eq!(left.style, GlyphStyle::Small);
    assert!(!left.draw_border);
    assert_eq!(left.margin, Point::new(3, 0));
    assert_eq!(left.text, "Booting up...");
    assert_eq!(left.canvas, canvas);
    assert_eq!(left.bounds_computed, None);

    let right = battstats_view(canvas, size);
    assert_eq!(
        right.bounds_hint,
        TextBounds::BoundingBox(Rectangle::new(Point::new(168, 0), Point::new(336, 31)))
    );
    assert!(right.untrusted);
    assert_eq!(right.style, GlyphStyle::Small);
    assert!(!right.draw_border);
    assert_eq!(right.margin, Point::new(0, 0));
    assert_eq!(right.text, "");
    assert_eq!(right.canvas, canvas);
}

#[test]
fn halves_round_towards_zero() {
    let canvas = Gid::new([0, 0, 0, 0]);
    let left = uptime_view(canvas, Point::new(-3, 1));
    assert_eq!(
        left.bounds_hint,
        TextBounds::BoundingBox(Rectangle::new(Point::new(0, 0), Point::new(-1, 0)))
    );
    let left = uptime_view(canvas, Point::new(335, 1));
    assert_eq!(
        left.bounds_hint,
        TextBounds::BoundingBox(Rectangle::new(Point::new(0, 0), Point::new(167, 0)))
    );
}

#[test]
fn border_runs_along_the_lower_edge() {
    assert_eq!(
        border_line(Point::new(336, 32)),
        Line {
            start: Point { x: 0, y: 32 },
            end: Point { x: 336, y: 32 },
            style: DrawStyle::new(PixelColor::Dark, PixelColor::Dark, 1),
        }
    );
}

#[test]
fn battery_callback_passes_the_reading_on() {
    let stats = BattStats { voltage: 3700, soc: 87, current: -120, remaining_capacity: 1100 };
    let call = battstats_cb(Some(6), stats).unwrap();
    assert_eq!(call.conn, 6);
    assert_eq!(
        call.message,
        Message::Scalar(ScalarMessage {
            id: 0,
            arg1: 0x0057_0e74,
            arg2: 0xff88_044c,
            arg3: 0,
            arg4: 0
        })
    );
}

#[test]
fn battery_callback_without_connection_does_nothing() {
    let stats = BattStats { voltage: 3700, soc: 87, current: -120, remaining_capacity: 1100 };
    assert_eq!(battstats_cb(None, stats), None);
}

#[test]
fn battery_callback_reaches_the_bar() {
    let stats = BattStats { voltage: 4000, soc: 50, current: 300, remaining_capacity: 600 };
    let call = battstats_cb(Some(6), stats).unwrap();
    let mut bar = StatusBar::new(0, false);
    bar.stats_phase = 7;
    match call.message {
        Message::Scalar(m) => {
            let input = StatusInput { id: m.id, arg1: m.arg1, arg2: m.arg2, elapsed_ms: 1, datetime: None };
            status_thread(&mut bar, &input);
        }
        _ => panic!("the reading travels as a scalar message"),
    }
    assert_eq!(bar.batt_text, BattText::VoltageCurrent { millivolts: 4000, milliamps: 300 });
}

#[test]
fn clock_callback_gives_the_region_away() {
    let call = dt_callback(Some(6), vec![1, 2, 3], 3).unwrap().unwrap();
    assert_eq!(call.conn, 6);
    assert_eq!(call.message, Message::Move(MemoryMessage { id: 1, buf: vec![1, 2, 3], offset: 3 }));
    assert!(!call.message.is_blocking());
}

#[test]
fn clock_callback_without_connection_does_nothing() {
    assert_eq!(dt_callback(None, vec![1, 2, 3], 3), Ok(None));
    assert_eq!(dt_callback(None, vec![0; 5000], 3), Ok(None));
}

#[test]
fn clock_callback_refuses_an_archive_over_the_bound() {
    assert_eq!(dt_callback(Some(6), vec![0; 4097], 0), Err(Error::InternalError));
}

#[test]
fn pump_message() {
    let call = pump_thread(12);
    assert_eq!(call.conn, 12);
    assert_eq!(
        call.message,
        Message::Scalar(ScalarMessage { id: 2, arg1: 0, arg2: 0, arg3: 0, arg4: 0 })
    );
    assert_eq!(pump_thread(usize::MAX).conn, 0xffff_ffff);
}

#[test]
fn pump_stops_when_the_server_is_gone() {
    assert_eq!(pump_thread_reply(Err(Error::ServerNotFound)), PumpStep::Stop);
}

#[test]
fn pump_sleeps_between_updates() {
    assert_eq!(pump_thread_reply(Ok(Reply::Done)), PumpStep::Sleep(250));
}

#[test]
fn pump_responses_that_are_handled() {
    assert!(is_pump_response(&Ok(Reply::Done)));
    assert!(is_pump_response(&Err(Error::ServerNotFound)));
    assert!(!is_pump_response(&Err(Error::InternalError)));
    assert!(!is_pump_response(&Ok(Reply::Scalar1(0))));
}

#[test]
fn bar_accepts_what_it_can_handle() {
    let bar = StatusBar::new(5000, false);
    assert!(bar.is_wf());
    assert!(bar.is_accepted(&pump(5000)));
    assert!(bar.is_accepted(&pump(9000)));
    assert!(!bar.is_accepted(&pump(4999)));
    let clock = StatusInput { id: 1, arg1: 0, arg2: 0, elapsed_ms: 0, datetime: None };
    assert!(!bar.is_accepted(&clock));
    let clock = StatusInput { id: 1, arg1: 0, arg2: 0, elapsed_ms: 0, datetime: Some(pi_day()) };
    assert!(bar.is_accepted(&clock));
    let other = StatusInput { id: 7, arg1: 0, arg2: 0, elapsed_ms: 0, datetime: None };
    assert!(bar.is_accepted(&other));
    let reading = StatusInput { id: 0, arg1: 0, arg2: 0, elapsed_ms: 0, datetime: None };
    assert!(bar.is_accepted(&reading));
}

#[test]
fn malformed_bar_is_told_apart() {
    let mut bar = StatusBar::new(5000, false);
    bar.stats_phase = 8;
    assert!(!bar.is_wf());
    bar.stats_phase = 7;
    assert!(bar.is_wf());
    bar.secs_interval = 0;
    assert!(!bar.is_wf());
    bar.secs_interval = 1;
    bar.dt_pump_modulus = 16;
    assert!(!bar.is_wf());
}

#[test]
fn weekday_numbers() {
    let days = [
        Weekday::Monday,
        Weekday::Tuesday,
        Weekday::Wednesday,
        Weekday::Thursday,
        Weekday::Friday,
        Weekday::Saturday,
        Weekday::Sunday,
    ];
    for (n, day) in days.iter().enumerate() {
        assert_eq!(day.to_u8() as usize, n);
        assert_eq!(Weekday::from_u8(n as u8), Some(*day));
    }
    assert_eq!(Weekday::from_u8(7), None);
    assert_eq!(Weekday::from_u8(255), None);
}
