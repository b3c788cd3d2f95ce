use blocklets::render::RenderOutput;
use blocklets::span::Span;
use blocklets::timer::Timer;
use std::time::SystemTime;

fn minutes(count: u64) -> Span {
    Span::from_secs(count * 60)
}

fn pomodoro() -> Timer {
    Timer::new(5, minutes(25), minutes(5), minutes(15)).unwrap()
}

fn finish_interval(timer: &mut Timer) {
    timer.start();
    timer.tick(Span::from_secs(86_400), SystemTime::now());
}

#[test]
fn fresh_timer_shows_the_full_first_interval() {
    let timer = pomodoro();
    assert_eq!(timer.display_interval(), "0/5");
    assert_eq!(timer.display_duration(), "25:00");
    assert_eq!(timer.display_action(), "F");
    assert_eq!(timer.display(), "0/5 25:00 F");
    assert_eq!(timer.output(), RenderOutput { full_text: "<span>0/5 25:00 F</span>".to_string() });
    assert_eq!(timer.render().unwrap(), "{\"full_text\":\"<span>0/5 25:00 F</span>\"}");
}

#[test]
fn started_timer_is_shown_at_full_length_before_any_tick() {
    let mut timer = pomodoro();
    timer.start();
    assert_eq!(timer.render().unwrap(), "{\"full_text\":\"<span>0/5 25:00 F</span>\"}");
}

#[test]
fn duration_shows_whole_seconds_only() {
    let mut timer = pomodoro();
    timer.start();
    timer.tick(Span::from_nanos(1_500_000_000), SystemTime::now());
    assert_eq!(timer.display_duration(), "24:58");
    timer.tick(Span::from_nanos(499_999_999), SystemTime::now());
    assert_eq!(timer.display_duration(), "24:58");
    timer.tick(Span::from_nanos(1), SystemTime::now());
    assert_eq!(timer.remaining(), Span::from_secs(1498));
    assert_eq!(timer.display_duration(), "24:58");
    timer.tick(Span::from_nanos(1), SystemTime::now());
    assert_eq!(timer.display_duration(), "24:57");
    timer.tick(Span::from_secs(24 * 60 + 50), SystemTime::now());
    assert_eq!(timer.display_duration(), "00:07");
    timer.tick(Span::from_nanos(6_999_999_999), SystemTime::now());
    assert_eq!(timer.remaining(), Span::from_nanos(1_000_000_000));
    assert_eq!(timer.display_duration(), "00:01");
    timer.tick(Span::from_nanos(1), SystemTime::now());
    assert_eq!(timer.display_duration(), "00:00");
    assert_eq!(timer.display(), "0/5 00:00 F");
}

#[test]
fn minutes_take_the_digits_they_need() {
    let hours = Timer::new(1, minutes(120), minutes(5), minutes(1000)).unwrap();
    assert_eq!(hours.display_duration(), "120:00");
    let odd = Timer::new(1, Span::from_secs(6005), minutes(5), minutes(15)).unwrap();
    assert_eq!(odd.display_duration(), "100:05");
    let short = Timer::new(1, Span::from_secs(59), minutes(5), minutes(15)).unwrap();
    assert_eq!(short.display_duration(), "00:59");
    let tiny = Timer::new(1, Span::from_nanos(1), minutes(5), minutes(15)).unwrap();
    assert_eq!(tiny.display_duration(), "00:00");
}

#[test]
fn position_counts_pairs_done() {
    let mut timer = pomodoro();
    let expected = [
        "0/5 25:00 F",
        "0/5 05:00 P",
        "1/5 25:00 F",
        "1/5 05:00 P",
        "2/5 25:00 F",
        "2/5 05:00 P",
        "3/5 25:00 F",
        "3/5 05:00 P",
        "4/5 25:00 F",
        "4/5 15:00 P",
        "0/5 25:00 F",
    ];
    for text in expected {
        assert_eq!(timer.display(), text);
        finish_interval(&mut timer);
    }
}

#[test]
fn position_and_total_may_have_several_digits() {
    let mut timer =
        Timer::new(120, Span::from_secs(1), Span::from_secs(1), Span::from_secs(1)).unwrap();
    for _ in 0..25 {
        finish_interval(&mut timer);
    }
    assert_eq!(timer.display_interval(), "12/120");
    assert_eq!(timer.display(), "12/120 00:01 P");
}

#[test]
fn action_follows_the_kind_of_the_interval() {
    let mut timer = pomodoro();
    for _ in 0..20 {
        let kind = timer.schedule().get(timer.current_index()).unwrap().kind;
        let label = match kind {
            blocklets::schedule::IntervalKind::Focus => "F",
            blocklets::schedule::IntervalKind::Pause => "P",
        };
        assert_eq!(timer.display_action(), label);
        finish_interval(&mut timer);
    }
}

#[test]
fn rendering_twice_gives_the_same_line() {
    let mut timer = pomodoro();
    timer.start();
    timer.tick(Span::from_secs(61), SystemTime::now());
    let first = timer.render().unwrap();
    let second = timer.render().unwrap();
    assert_eq!(first, second);
    assert_eq!(first, "{\"full_text\":\"<span>0/5 23:59 F</span>\"}");
    assert_eq!(timer.display(), timer.display());
    assert_eq!(timer.output(), timer.output());
}

#[test]
fn rendering_leaves_the_timer_alone() {
    let mut timer = pomodoro();
    timer.start();
    timer.tick(Span::from_secs(61), SystemTime::now());
    let before = (timer.state(), timer.remaining(), timer.current_index(), timer.last_tick());
    let _ = timer.render();
    let _ = timer.display();
    assert_eq!(
        (timer.state(), timer.remaining(), timer.current_index(), timer.last_tick()),
        before
    );
}

#[test]
fn line_is_what_serde_json_writes_for_the_record() {
    let mut timer = pomodoro();
    for _ in 0..7 {
        let mut object = serde_json::Map::new();
        object.insert(
            "full_text".to_string(),
            serde_json::Value::String(format!("<span>{}</span>", timer.display())),
        );
        let expected = serde_json::to_string(&serde_json::Value::Object(object)).unwrap();
        assert_eq!(timer.render().unwrap(), expected);
        finish_interval(&mut timer);
    }
}

#[test]
fn line_reads_back_as_the_record() {
    let timer = pomodoro();
    let line = timer.render().unwrap();
    let value: serde_json::Value = serde_json::from_str(&line).unwrap();
    assert_eq!(value.as_object().unwrap().len(), 1);
    assert_eq!(value.get("full_text").unwrap().as_str(), Some("<span>0/5 25:00 F</span>"));
}

#[test]
fn plain_text_stands_in_the_record_as_it_is() {
    let output = RenderOutput { full_text: "plain text <b>1/2</b> 100%".to_string() };
    assert_eq!(output.encode().unwrap(), "{\"full_text\":\"plain text <b>1/2</b> 100%\"}");
    let empty = RenderOutput { full_text: String::new() };
    assert_eq!(empty.encode().unwrap(), "{\"full_text\":\"\"}");
    let wide = RenderOutput { full_text: "caf\u{e9} \u{7f} \u{1f600}".to_string() };
    assert_eq!(wide.encode().unwrap(), "{\"full_text\":\"caf\u{e9} \u{7f} \u{1f600}\"}");
}

#[test]
fn text_that_needs_it_is_escaped_in_the_record() {
    let output = RenderOutput { full_text: "a\"b\\c\nd\u{1}\te".to_string() };
    assert_eq!(output.encode().unwrap(), "{\"full_text\":\"a\\\"b\\\\c\\nd\\u0001\\te\"}");
    let quoted = RenderOutput { full_text: "<span color='#FF7373'>\"x\"</span>".to_string() };
    let line = quoted.encode().unwrap();
    let value: serde_json::Value = serde_json::from_str(&line).unwrap();
    assert_eq!(value.get("full_text").unwrap().as_str(), Some(quoted.full_text.as_str()));
}

#[test]
fn every_character_but_the_escaped_ones_stands_as_it_is() {
    for code in 0..=0x10FFFFu32 {
        let c = match char::from_u32(code) {
            Some(c) => c,
            None => continue,
        };
        let output = RenderOutput { full_text: format!("<{}>", c) };
        let plain = format!("{{\"full_text\":\"<{}>\"}}", c);
        let line = output.encode().unwrap();
        if c == '"' || c == '\\' || code < 0x20 {
            assert_ne!(line, plain, "U+{:04X}", code);
        } else {
            assert_eq!(line, plain, "U+{:04X}", code);
        }
    }
}

#[test]
fn written_string_is_framed_as_the_record() {
    let line = RenderOutput::framed(Ok("\"a\\\"b\"".to_string())).unwrap();
    assert_eq!(line, "{\"full_text\":\"a\\\"b\"}");
    let empty = RenderOutput::framed(Ok(String::new())).unwrap();
    assert_eq!(empty, "{\"full_text\":}");
    let written = serde_json::to_string("<span>0/5 25:00 F</span>");
    assert_eq!(
        RenderOutput::framed(written).unwrap(),
        "{\"full_text\":\"<span>0/5 25:00 F</span>\"}"
    );
}

#[test]
fn failed_writing_is_a_failure_with_its_cause() {
    let cause = serde_json::from_str::<serde_json::Value>("not json").unwrap_err();
    let message = cause.to_string();
    let failure = RenderOutput::framed(Err(cause)).unwrap_err();
    assert_eq!(failure.cause.to_string(), message);
    assert!(failure.cause.is_syntax());
}

#[test]
fn encoding_a_string_succeeds() {
    for text in ["", "plain", "a\"b\\c\nd\u{1}\te", "caf\u{e9} \u{1f600}", "\u{0}"] {
        let output = RenderOutput { full_text: text.to_string() };
        let line = output.encode().unwrap();
        let literal = serde_json::to_string(text).unwrap();
        assert_eq!(line, format!("{{\"full_text\":{}}}", literal));
    }
}
