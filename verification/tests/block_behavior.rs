use pomodoro_block::block::{ClickEvent, MouseButton, PomBlock, PomBlockConfig};
use pomodoro_block::digits::{dec_string, pad2_string};
use pomodoro_block::errors::BlockError;
use pomodoro_block::template::Template;
use pomodoro_block::timer::Phase;

fn config(work: u64, brk: u64, long: u64, rounds: u64) -> PomBlockConfig {
    PomBlockConfig {
        interval: PomBlockConfig::default_interval(),
        pomodoro_length: work,
        break_length: brk,
        long_break_length: long,
        rounds,
        notification: false,
        format: PomBlockConfig::default_format(),
    }
}

fn press(block: &mut PomBlock, button: MouseButton) {
    let event = ClickEvent { target_id: block.id().to_string(), button };
    block.click(&event).unwrap();
}

#[test]
fn defaults_match_documented_values() {
    assert_eq!(PomBlockConfig::default_interval(), 1);
    assert_eq!(PomBlockConfig::default_pom_len(), 1500);
    assert_eq!(PomBlockConfig::default_break_len(), 300);
    assert_eq!(PomBlockConfig::default_long_break_len(), 900);
    assert_eq!(PomBlockConfig::default_round(), 4);
    assert!(PomBlockConfig::default_notification());
    assert_eq!(
        PomBlockConfig::default_format(),
        "{phase} {remainingMinutes}:{remainingSeconds} {round}"
    );
}

#[test]
fn block_construction_rejects_zero_rounds() {
    let err = PomBlock::new(config(1500, 300, 900, 0)).err().unwrap();
    assert_eq!(err, BlockError::ConfigurationError);
}

#[test]
fn construction_rejects_bad_template() {
    let mut cfg = config(1500, 300, 900, 4);
    cfg.format = "{phase} {rounds}".to_string();
    assert_eq!(PomBlock::new(cfg).err().unwrap(), BlockError::TemplateError);
}

#[test]
fn configuration_error_wins_over_template_error() {
    let mut cfg = config(1500, 300, 900, 0);
    cfg.format = "{broken".to_string();
    assert_eq!(PomBlock::new(cfg).err().unwrap(), BlockError::ConfigurationError);
}

#[test]
fn id_is_32_characters_and_fresh() {
    let a = PomBlock::new(config(1500, 300, 900, 4)).unwrap();
    let b = PomBlock::new(config(1500, 300, 900, 4)).unwrap();
    assert_eq!(a.id().chars().count(), 32);
    assert_eq!(b.id().chars().count(), 32);
    assert_ne!(a.id(), b.id());
}

#[test]
fn update_renders_padded_minutes_and_seconds() {
    // One second of the interval elapses inside update, so start one above.
    let mut b = PomBlock::new(config(126, 300, 900, 4)).unwrap();
    press(&mut b, MouseButton::Left);
    let (text, delay) = b.update();
    assert_eq!(text, "Work 02:05 1");
    assert_eq!(delay, 1);
    assert_eq!(b.text(), "Work 02:05 1");
}

#[test]
fn update_wraps_minutes_without_hours() {
    let mut b = PomBlock::new(config(3606, 300, 900, 4)).unwrap();
    press(&mut b, MouseButton::Left);
    let (text, _) = b.update();
    assert_eq!(text, "Work 60:05 1");
}

#[test]
fn update_while_paused_keeps_full_time() {
    let mut b = PomBlock::new(config(126, 300, 900, 4)).unwrap();
    let (text, delay) = b.update();
    assert_eq!(text, "Work 02:06 1");
    assert_eq!(delay, 1);
}

#[test]
fn click_with_foreign_id_changes_nothing() {
    let mut b = PomBlock::new(config(126, 300, 900, 4)).unwrap();
    let event = ClickEvent { target_id: "someone-else".to_string(), button: MouseButton::Left };
    b.click(&event).unwrap();
    assert!(!b.pomodoro.running);
    let (text, _) = b.update();
    assert_eq!(text, "Work 02:06 1");
}

#[test]
fn click_with_other_button_changes_nothing() {
    let mut b = PomBlock::new(config(126, 300, 900, 4)).unwrap();
    press(&mut b, MouseButton::Other);
    assert!(!b.pomodoro.running);
}

#[test]
fn left_plays_and_right_pauses() {
    let mut b = PomBlock::new(config(100, 300, 900, 4)).unwrap();
    press(&mut b, MouseButton::Left);
    assert!(b.pomodoro.running);
    b.update();
    b.update();
    assert_eq!(b.pomodoro.remaining, 98);
    press(&mut b, MouseButton::Right);
    assert!(!b.pomodoro.running);
    b.update();
    b.update();
    assert_eq!(b.pomodoro.remaining, 98);
}

#[test]
fn scenario_two_rounds_then_long_break() {
    let mut cfg = config(5, 3, 10, 2);
    cfg.interval = 1;
    let mut b = PomBlock::new(cfg).unwrap();
    press(&mut b, MouseButton::Left);
    for _ in 0..5 {
        b.update();
    }
    assert_eq!(b.pomodoro.phase, Phase::ShortBreak);
    assert_eq!(b.pomodoro.remaining, 3);
    assert_eq!(b.pomodoro.round, 1);
    for _ in 0..3 {
        b.update();
    }
    assert_eq!(b.pomodoro.phase, Phase::Work);
    assert_eq!(b.pomodoro.round, 2);
    assert_eq!(b.pomodoro.remaining, 5);
    for _ in 0..5 {
        b.update();
    }
    assert_eq!(b.pomodoro.phase, Phase::LongBreak);
    assert_eq!(b.pomodoro.remaining, 10);
    assert_eq!(b.pomodoro.round, 2);
}

#[test]
fn template_keeps_literal_text() {
    let mut cfg = config(126, 300, 900, 4);
    cfg.format = "pom: {remainingMinutes}m {round}/4 }".to_string();
    let mut b = PomBlock::new(cfg).unwrap();
    let (text, _) = b.update();
    assert_eq!(text, "pom: 02m 1/4 }");
}

#[test]
fn template_rejects_unclosed_placeholder() {
    assert_eq!(
        Template::from_string("{phase").err().unwrap(),
        BlockError::TemplateError
    );
}

#[test]
fn template_rejects_unknown_placeholder() {
    assert_eq!(
        Template::from_string("{hour}").err().unwrap(),
        BlockError::TemplateError
    );
}

#[test]
fn template_renders_substitutions() {
    let t = Template::from_string("{phase}|{remainingSeconds}|{round}").unwrap();
    let out = t.render("Work", "07", "09", "3");
    assert_eq!(out, "Work|09|3");
}

#[test]
fn decimal_rendering_pads_to_two_digits() {
    assert_eq!(pad2_string(0), "00");
    assert_eq!(pad2_string(5), "05");
    assert_eq!(pad2_string(59), "59");
    assert_eq!(pad2_string(125), "125");
    assert_eq!(dec_string(0), "0");
    assert_eq!(dec_string(10), "10");
    assert_eq!(dec_string(60), "60");
    assert_eq!(dec_string(18446744073709551615), "18446744073709551615");
}
