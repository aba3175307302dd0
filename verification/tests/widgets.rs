use renderer::frame::PartImage;
use renderer::pixel::{red, transparent, PartPixel};
use renderer::frame::fill;
use renderer::widgets::calendar_widget::CalendarWidget;
use renderer::widgets::clock_widget::{ClockWidget, LocalTime};
use renderer::widgets::flyer_widget::{Flyer, FlyerWidget, NANOS_PER_SEC};
use renderer::widgets::gif_widget::{starts_with, GifFrame, GifPlayer, GifWidget};
use renderer::widgets::matrix_rain_widget::{rain_rng, MatrixRainWidget, Rain};
use renderer::widgets::message::FlyerMessage;
use renderer::widgets::solid_widget::SolidWidget;
use renderer::widgets::wigwag_widget::WigwagWidget;
use renderer::widgets::{interval_millis, IDLE_SECS};

fn at(hour: u32, minute: u32, second: u32, nanos: u32, timestamp: i64) -> LocalTime {
    LocalTime { year: 2021, month: 3, day: 7, weekday: 6, hour, minute, second, nanos, timestamp }
}

fn picture(width: u32, height: u32, color: PartPixel) -> PartImage {
    let mut img = PartImage::new(width, height);
    fill(&mut img, color);
    img
}

fn message(text: &str, ttl: u32) -> FlyerMessage {
    FlyerMessage { text: text.to_string(), ttl }
}

#[test]
fn solid_tick_fills_its_frame() {
    let color = PartPixel { r: 1, g: 2, b: 3, a: 4 };
    let w = SolidWidget { width: 3, height: 2, color };
    let img = w.tick();
    assert_eq!((img.width(), img.height()), (3, 2));
    for x in 0..3 {
        for y in 0..2 {
            assert_eq!(img.get_pixel(x, y), color);
        }
    }
    assert_eq!(w.wait_secs(), 86400);
    assert_eq!(IDLE_SECS, 86400);
}

#[test]
fn solid_of_no_size_gives_an_empty_frame() {
    let img = SolidWidget { width: 0, height: 5, color: red() }.tick();
    assert_eq!((img.width(), img.height()), (0, 5));
}

#[test]
fn clock_text_blinks_with_the_seconds() {
    assert_eq!(ClockWidget::text(&at(9, 5, 0, 0, 1_600_000_000)), "09 05");
    assert_eq!(ClockWidget::text(&at(9, 5, 1, 0, 1_600_000_001)), "09:05");
    assert_eq!(ClockWidget::text(&at(23, 59, 59, 0, 7)), "23:59");
    assert_eq!(ClockWidget::text(&at(0, 0, 0, 0, 0)), "00 00");
    assert_eq!(ClockWidget::text(&at(12, 30, 0, 0, -1)), "12:30");
    assert_eq!(ClockWidget::text(&at(12, 30, 0, 0, -2)), "12 30");
}

#[test]
fn clock_waits_for_the_next_second() {
    assert_eq!(ClockWidget::wait_nanos(&at(1, 2, 3, 0, 0)), 1_000_000_000);
    assert_eq!(ClockWidget::wait_nanos(&at(1, 2, 3, 250, 0)), 999_999_750);
    assert_eq!(ClockWidget::wait_nanos(&at(1, 2, 3, 999_999_999, 0)), 1);
    assert_eq!(ClockWidget::wait_nanos(&at(1, 2, 59, 1_000_000_000, 0)), 0);
    assert_eq!(ClockWidget::wait_nanos(&at(1, 2, 59, 1_500_000_000, 0)), 0);
}

#[test]
fn clock_tick_reads_the_wall_clock() {
    let (text, wait) = ClockWidget::default().tick();
    let chars: Vec<char> = text.chars().collect();
    assert_eq!(chars.len(), 5);
    assert!(chars[0].is_ascii_digit() && chars[1].is_ascii_digit());
    assert!(chars[2] == ' ' || chars[2] == ':');
    assert!(chars[3].is_ascii_digit() && chars[4].is_ascii_digit());
    let hour: u32 = text[0..2].parse().unwrap();
    let minute: u32 = text[3..5].parse().unwrap();
    assert!(hour < 24 && minute < 60);
    assert!(wait <= 1_000_000_000);
}

#[test]
fn calendar_text_names_month_and_weekday() {
    assert_eq!(CalendarWidget::text(&at(0, 0, 0, 0, 0)), "Mar 07 Sun");
    let mut t = at(0, 0, 0, 0, 0);
    let months = ["Jan", "Feb", "Mar", "Apr", "May", "Jun", "Jul", "Aug", "Sep", "Oct", "Nov", "Dec"];
    for (k, name) in months.iter().enumerate() {
        t.month = k as u32 + 1;
        t.day = 31;
        t.weekday = 0;
        assert_eq!(CalendarWidget::text(&t), format!("{} 31 Mon", name));
    }
    let days = ["Mon", "Tue", "Wed", "Thu", "Fri", "Sat", "Sun"];
    for (k, name) in days.iter().enumerate() {
        t.month = 10;
        t.day = 28;
        t.weekday = k as u32;
        assert_eq!(CalendarWidget::text(&t), format!("Oct 28 {}", name));
    }
}

#[test]
fn calendar_waits_for_the_next_minute() {
    assert_eq!(CalendarWidget::wait_nanos(&at(1, 2, 0, 0, 0)), 60_000_000_000);
    assert_eq!(CalendarWidget::wait_nanos(&at(1, 2, 3, 250, 0)), 56_999_999_750);
    assert_eq!(CalendarWidget::wait_nanos(&at(1, 2, 59, 999_999_999, 0)), 1);
    assert_eq!(CalendarWidget::wait_nanos(&at(1, 2, 59, 1_000_000_000, 0)), 0);
    assert_eq!(CalendarWidget::wait_nanos(&at(1, 2, 59, 1_999_999_999, 0)), 0);
}

#[test]
fn calendar_tick_reads_the_wall_clock() {
    let (text, wait) = CalendarWidget::default().tick();
    assert_eq!(text.chars().count(), 10);
    let day: u32 = text[4..6].parse().unwrap();
    assert!(1 <= day && day <= 31);
    assert!(wait <= 60_000_000_000);
}

#[test]
fn defaults_are_yellow_on_transparent() {
    let yellow = PartPixel { r: 255, g: 255, b: 0, a: 255 };
    let clock = ClockWidget::default();
    assert_eq!((clock.width, clock.height), (0, 0));
    assert_eq!((clock.text_color, clock.background_color), (yellow, transparent()));
    let calendar = CalendarWidget::default();
    assert_eq!((calendar.text_color, calendar.background_color), (yellow, transparent()));
    let flyer = FlyerWidget::default();
    assert_eq!((flyer.text_color, flyer.background_color, flyer.speed), (yellow, transparent(), 100));
    let banner = WigwagWidget::default();
    assert_eq!((banner.text_color, banner.background_color, banner.speed), (yellow, transparent(), 100));
    assert_eq!(banner.text, "");
    let rain = MatrixRainWidget::default();
    assert_eq!((rain.width, rain.height, rain.speed, rain.steps), (64, 64, 100, 20));
    assert_eq!(rain.color, PartPixel { r: 0, g: 255, b: 0, a: 255 });
}

#[test]
fn interval_is_a_thousand_over_speed() {
    assert_eq!(interval_millis(100), 10);
    assert_eq!(interval_millis(1), 1000);
    assert_eq!(interval_millis(3), 333);
    assert_eq!(interval_millis(1000), 1);
    assert_eq!(interval_millis(1001), 0);
    assert_eq!(FlyerWidget::default().wait_millis(), 10);
    assert_eq!(WigwagWidget::default().wait_millis(), 10);
    assert_eq!(MatrixRainWidget::default().wait_millis(), 10);
}

#[test]
fn banner_swings_the_picture_of_its_text() {
    let mut conf = WigwagWidget::default();
    conf.width = 4;
    conf.height = 1;
    let mut gen = conf.banner(&picture(2, 1, red()));
    let frame = gen.next().unwrap();
    assert_eq!((frame.width(), frame.height()), (4, 1));
    assert_eq!(frame.get_pixel(0, 0), red());
    assert_eq!(frame.get_pixel(2, 0), transparent());
    let frame = gen.next().unwrap();
    assert_eq!(frame.get_pixel(0, 0), transparent());
    assert_eq!(frame.get_pixel(2, 0), red());
}

#[test]
fn prefix_test_compares_characters() {
    assert!(starts_with("abc", ""));
    assert!(starts_with("abc", "ab"));
    assert!(starts_with("abc", "abc"));
    assert!(!starts_with("abc", "abcd"));
    assert!(!starts_with("abc", "b"));
    assert!(starts_with("héllo", "hé"));
    assert!(!starts_with("héllo", "he"));
}

#[test]
fn gif_source_is_remote_by_its_scheme() {
    assert!(GifWidget::is_remote("http://example.org/a.gif"));
    assert!(GifWidget::is_remote("https://example.org/a.gif"));
    assert!(!GifWidget::is_remote("./robot.gif"));
    assert!(!GifWidget::is_remote("ftp://example.org/a.gif"));
    assert!(!GifWidget::is_remote("http:/"));
    assert!(!GifWidget::is_remote(""));
}

fn frames(delays: &[u64]) -> Vec<GifFrame> {
    delays
        .iter()
        .enumerate()
        .map(|(k, d)| GifFrame {
            image: picture(1, 1, PartPixel { r: k as u8, g: 0, b: 0, a: 255 }),
            delay_micros: *d,
        })
        .collect()
}

#[test]
fn gif_player_steps_through_its_frames() {
    let mut p = GifPlayer::new(frames(&[100, 200, 300]));
    assert_eq!((p.len(), p.position()), (3, 0));
    assert_eq!(p.current().unwrap().get_pixel(0, 0).r, 0);
    assert_eq!(p.wait_micros(), 100);
    p.advance();
    assert_eq!(p.position(), 1);
    assert_eq!(p.current().unwrap().get_pixel(0, 0).r, 1);
    assert_eq!(p.wait_micros(), 200);
    p.advance();
    assert_eq!(p.wait_micros(), 300);
    p.advance();
    assert_eq!(p.position(), 0);
}

#[test]
fn gif_player_without_frames_idles() {
    let mut p = GifPlayer::new(Vec::new());
    assert!(p.current().is_none());
    assert_eq!(p.wait_micros(), 86_400_000_000);
    p.advance();
    assert_eq!(p.position(), 0);
}

#[test]
fn gif_player_starts_over_on_a_new_source() {
    let mut p = GifPlayer::new(frames(&[100, 200, 300]));
    p.advance();
    p.advance();
    p.load(frames(&[7, 8]));
    assert_eq!((p.len(), p.position()), (2, 0));
    assert_eq!(p.wait_micros(), 7);
    p.load(Vec::new());
    assert_eq!((p.len(), p.position()), (0, 0));
    assert!(p.current().is_none());
}

fn rain_conf(width: u32, height: u32) -> MatrixRainWidget {
    MatrixRainWidget { width, height, color: red(), speed: 100, steps: 20 }
}

fn trail(distance: u32) -> PartPixel {
    PartPixel { r: 0, g: 255, b: 0, a: (255 * (20 - distance) / 20) as u8 }
}

#[test]
fn rain_config_is_checked() {
    assert!(rain_conf(4, 4).is_valid());
    assert!(MatrixRainWidget::default().is_valid());
    assert!(!rain_conf(0, 4).is_valid());
    let mut slow = rain_conf(4, 4);
    slow.speed = 0;
    assert!(!slow.is_valid());
    let mut short = rain_conf(4, 4);
    short.steps = 13;
    assert!(!short.is_valid());
    short.steps = 14;
    assert!(short.is_valid());
    let mut tall = rain_conf(1, 4);
    tall.steps = u32::MAX - 4;
    assert!(!tall.is_valid());
    assert!(!rain_conf(u32::MAX, u32::MAX).is_valid());
}

#[test]
fn rain_drop_appears_falls_and_fades() {
    let conf = rain_conf(3, 30);
    let mut rain = Rain::new();
    assert!(rain.due());
    let img = rain.step(&conf, 100, 1);
    assert_eq!(rain.ticks_to_next(), 99);
    assert_eq!(rain.lines(), &vec![(1, 1)]);
    assert_eq!(img.get_pixel(1, 0), trail(14));
    assert_eq!(img.get_pixel(0, 0), transparent());
    assert_eq!(img.get_pixel(1, 1), transparent());
    let img = rain.step(&conf, 100, 2);
    assert_eq!(rain.lines(), &vec![(1, 2)]);
    assert_eq!(img.get_pixel(1, 1), trail(0));
    assert_eq!(img.get_pixel(1, 0), trail(14));
    assert_eq!(img.get_pixel(2, 0), transparent());
    for _ in 0..18 {
        rain.step(&conf, 100, 0);
    }
    assert_eq!(rain.lines(), &vec![(1, 20)]);
    let img = rain.step(&conf, 100, 0);
    assert_eq!(img.get_pixel(1, 20), PartPixel { r: 0, g: 255, b: 0, a: 255 });
    assert_eq!(img.get_pixel(1, 19), PartPixel { r: 0, g: 255, b: 0, a: 242 });
    assert_eq!(img.get_pixel(1, 10), PartPixel { r: 0, g: 255, b: 0, a: 127 });
    assert_eq!(img.get_pixel(1, 6), trail(14));
    assert_eq!(img.get_pixel(1, 6).a, 76);
    assert_eq!(img.get_pixel(1, 5), transparent());
    assert_eq!(img.get_pixel(1, 0), transparent());
    assert_eq!(img.get_pixel(1, 21), transparent());
}

#[test]
fn rain_drop_leaves_past_the_bottom_margin() {
    let conf = rain_conf(2, 3);
    let mut rain = Rain::new();
    rain.step(&conf, 1000, 0);
    for tick in 1..23 {
        assert_eq!(rain.lines(), &vec![(0, tick)]);
        rain.step(&conf, 1000, 0);
    }
    assert_eq!(rain.lines(), &vec![(0, 23)]);
    rain.step(&conf, 1000, 0);
    assert!(rain.lines().is_empty());
}

#[test]
fn rain_of_the_older_drop_lies_on_top() {
    let conf = rain_conf(1, 30);
    let mut rain = Rain::new();
    rain.step(&conf, 3, 0);
    rain.step(&conf, 3, 0);
    rain.step(&conf, 3, 0);
    assert_eq!(rain.lines(), &vec![(0, 3)]);
    assert!(rain.due());
    let img = rain.step(&conf, 3, 0);
    assert_eq!(rain.lines(), &vec![(0, 4), (0, 1)]);
    assert_eq!(img.get_pixel(0, 3), trail(0));
    assert_eq!(img.get_pixel(0, 1), trail(2));
    assert_eq!(img.get_pixel(0, 0), trail(14));
}

#[test]
fn rain_tick_draws_column_and_cooldown() {
    let conf = rain_conf(64, 8);
    let mut rain = Rain::new();
    let mut rng = rain_rng(42);
    let mut columns: Vec<u32> = Vec::new();
    let mut cooldowns: Vec<u32> = Vec::new();
    for _ in 0..400 {
        let spawns = rain.due();
        let img = rain.tick(&conf, &mut rng);
        assert_eq!((img.width(), img.height()), (64, 8));
        if spawns {
            let (column, head) = *rain.lines().last().unwrap();
            assert_eq!(head, 1);
            assert!(column < 64);
            assert_eq!(img.get_pixel(column, 0).g, 255);
            columns.push(column);
            let cooldown = rain.ticks_to_next() + 1;
            assert!(2 <= cooldown && cooldown < 8);
            cooldowns.push(cooldown);
        }
        for (column, head) in rain.lines() {
            assert!(*column < 64 && *head <= 28);
        }
    }
    assert!(columns.len() >= 50);
    columns.sort();
    columns.dedup();
    assert!(columns.len() > 10);
    cooldowns.sort();
    cooldowns.dedup();
    assert!(cooldowns.len() > 1);
}

#[test]
fn rain_is_the_same_for_the_same_seed() {
    let conf = rain_conf(16, 8);
    let (mut a, mut b) = (Rain::new(), Rain::new());
    let (mut ra, mut rb) = (rain_rng(7), rain_rng(7));
    for _ in 0..50 {
        a.tick(&conf, &mut ra);
        b.tick(&conf, &mut rb);
        assert_eq!(a.lines(), b.lines());
    }
}

#[test]
fn ticker_ignores_a_message_without_ttl() {
    let mut flyer = Flyer::new(4);
    assert!(!Flyer::accepts(&message("no", 0)));
    assert!(Flyer::accepts(&message("yes", 1)));
    assert!(!flyer.offer(message("no", 0), picture(2, 1, red()), 0));
    assert!(flyer.entries.is_empty());
    assert!(flyer.tick(0).is_none());
}

#[test]
fn ticker_shows_a_message_until_its_ttl_is_over() {
    let mut flyer = Flyer::new(4);
    let came = 5 * NANOS_PER_SEC;
    assert!(flyer.offer(message("Hahaha", 10), picture(2, 3, red()), came));
    assert_eq!(flyer.entries.len(), 1);
    assert_eq!(flyer.entries[0].message.text, "Hahaha");
    assert_eq!(flyer.entries[0].accepted_at, came);
    assert_eq!(flyer.entries[0].height, 3);
    assert!(flyer.tick(came).is_some());
    assert!(flyer.tick(came + 5 * NANOS_PER_SEC).is_some());
    assert!(flyer.tick(came + 10 * NANOS_PER_SEC - 1).is_some());
    assert_eq!(flyer.entries.len(), 1);
    assert!(flyer.tick(came + 10 * NANOS_PER_SEC).is_none());
    assert!(flyer.entries.is_empty());
    assert!(flyer.tick(came + 11 * NANOS_PER_SEC).is_none());
    assert!(flyer.tick(came).is_none());
}

#[test]
fn ticker_expires_each_message_on_its_own() {
    let mut flyer = Flyer::new(2);
    assert!(flyer.offer(message("long", 30), picture(1, 1, red()), 0));
    assert!(flyer.offer(message("short", 1), picture(1, 2, red()), 0));
    assert!(flyer.offer(message("mid", 2), picture(1, 3, red()), 0));
    assert_eq!(flyer.tick(0).unwrap().height(), 6);
    assert_eq!(flyer.tick(NANOS_PER_SEC).unwrap().height(), 4);
    let texts: Vec<&str> = flyer.entries.iter().map(|e| e.message.text.as_str()).collect();
    assert_eq!(texts, vec!["long", "mid"]);
    assert_eq!(flyer.tick(2 * NANOS_PER_SEC).unwrap().height(), 1);
    assert_eq!(flyer.entries[0].message.text, "long");
    assert!(flyer.tick(30 * NANOS_PER_SEC).is_none());
}

#[test]
fn ticker_stacks_the_scrolling_pictures() {
    let green = PartPixel { r: 0, g: 255, b: 0, a: 255 };
    let mut flyer = Flyer::new(3);
    assert!(flyer.offer(message("a", 9), picture(2, 1, red()), 0));
    assert!(flyer.offer(message("b", 9), picture(1, 2, green), 0));
    let img = flyer.tick(1).unwrap();
    assert_eq!((img.width(), img.height()), (3, 3));
    for x in 0..3 {
        for y in 0..3 {
            assert_eq!(img.get_pixel(x, y), transparent());
        }
    }
    let img = flyer.tick(2).unwrap();
    assert_eq!(img.get_pixel(2, 0), red());
    assert_eq!(img.get_pixel(1, 0), transparent());
    assert_eq!(img.get_pixel(2, 1), green);
    assert_eq!(img.get_pixel(2, 2), green);
    assert_eq!(img.get_pixel(1, 1), transparent());
    let img = flyer.tick(3).unwrap();
    assert_eq!(img.get_pixel(1, 0), red());
    assert_eq!(img.get_pixel(2, 0), red());
    assert_eq!(img.get_pixel(1, 2), green);
    assert_eq!(img.get_pixel(2, 2), transparent());
    assert_eq!(flyer.entries[0].scroller.origin(), (0, 0));
}

#[test]
fn ticker_takes_a_late_message_below_the_others() {
    let mut flyer = Flyer::new(2);
    assert!(flyer.offer(message("first", 5), picture(1, 1, red()), 0));
    flyer.tick(NANOS_PER_SEC);
    assert!(flyer.offer(message("second", 5), picture(1, 1, red()), 3 * NANOS_PER_SEC));
    assert_eq!(flyer.tick(4 * NANOS_PER_SEC).unwrap().height(), 2);
    assert_eq!(flyer.tick(5 * NANOS_PER_SEC).unwrap().height(), 1);
    assert_eq!(flyer.entries[0].message.text, "second");
    assert!(flyer.tick(8 * NANOS_PER_SEC).is_none());
}

#[test]
fn ticker_near_the_end_of_time_does_not_overflow() {
    let mut flyer = Flyer::new(1);
    assert!(flyer.offer(message("late", u32::MAX), picture(1, 1, red()), u64::MAX - 5));
    assert!(flyer.tick(u64::MAX).is_some());
    assert!(flyer.tick(0).is_some());
}
