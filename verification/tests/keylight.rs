use std::time::Duration;

use ibus_block::block::{I3BarEvent, TextWidget, Update};
use ibus_block::error::{BlockError, EnvVar, QueryFault, SourceFile, SourceText};
use ibus_block::keylight::{
    parse_brightness, read_brightness, Keylight, KeylightConfig, DEFAULT_INTERVAL_SECS, PLACEHOLDER,
};

fn level(content: &str) -> Result<u16, BlockError> {
    parse_brightness(String::from(content))
}

const MALFORMED: Result<u16, BlockError> = Err(BlockError::MalformedInput(SourceText::Brightness));

#[test]
fn default_interval_is_five_seconds() {
    assert_eq!(DEFAULT_INTERVAL_SECS, 5);
    assert_eq!(KeylightConfig::default_interval(), Duration::from_secs(5));
    assert_ne!(KeylightConfig::default_interval(), Duration::from_secs(0));
}

#[test]
fn default_config_has_no_interval() {
    assert_eq!(KeylightConfig::default().interval, Duration::from_secs(0));
}

#[test]
fn brightness_is_the_number_before_the_newline() {
    assert_eq!(level("0\n"), Ok(0));
    assert_eq!(level("3\n"), Ok(3));
    assert_eq!(level("255\n"), Ok(255));
    assert_eq!(level("65535\n"), Ok(65535));
    assert_eq!(level("+12\n"), Ok(12));
    assert_eq!(level("007\n"), Ok(7));
    assert_eq!(level("00000000000000000000065535\n"), Ok(65535));
}

#[test]
fn last_character_is_dropped_whatever_it_is() {
    assert_eq!(level("123"), Ok(12));
    assert_eq!(level("12x"), Ok(12));
    assert_eq!(level("12\u{e9}"), Ok(12));
    assert_eq!(level("7"), MALFORMED);
}

#[test]
fn brightness_that_is_no_number() {
    for content in
        ["", "\n", "+\n", "-\n", "-1\n", "65536\n", "99999999\n", "1 \n", " 1\n", "1\n\n", "1.5\n", "0x10\n", "1_0\n", "++1\n", "\u{0663}\n", "abc\n"]
    {
        assert_eq!(level(content), MALFORMED, "content {:?}", content);
    }
}

#[test]
fn brightness_file_that_could_not_be_read() {
    assert_eq!(read_brightness(None), Err(BlockError::IoError(SourceFile::Brightness)));
    assert_eq!(read_brightness(Some(String::from("42\n"))), Ok(42));
    assert_eq!(read_brightness(Some(String::from("dim\n"))), MALFORMED);
}

#[test]
fn keylight_block() {
    let config = KeylightConfig { interval: Duration::from_millis(2500) };
    let mut block = Keylight::new(config).unwrap();
    let other = Keylight::new(KeylightConfig { interval: KeylightConfig::default_interval() }).unwrap();
    let id = String::from(block.id());
    assert_eq!(id.len(), 32);
    assert!(id.chars().all(|c| matches!(c, '0'..='9' | 'a'..='f')));
    assert_ne!(block.id(), other.id());
    assert_eq!(PLACEHOLDER, "Keylight");
    assert_eq!(block.view().len(), 1);
    assert_eq!(block.view()[0].text(), "Keylight");
    match block.update() {
        Ok(Some(Update::Every(d))) => assert_eq!(d, Duration::from_millis(2500)),
        other => panic!("unexpected answer {:?}", other),
    }
    let event = I3BarEvent { name: None, instance: None, button: 3 };
    assert!(block.click(&event).is_ok());
    assert_eq!(block.id(), id);
    assert_eq!(block.view()[0].text(), "Keylight");
}

#[test]
fn text_widget() {
    let widget = TextWidget::new();
    assert_eq!(widget.text(), "");
    let mut widget = widget.with_text("IBus");
    assert_eq!(widget.text(), "IBus");
    widget.set_text(String::from("xkb:us::eng"));
    assert_eq!(widget.text(), "xkb:us::eng");
}

#[test]
fn error_messages() {
    assert_eq!(BlockError::MissingEnv(EnvVar::ConfigRoot).message(), "$XDG_CONFIG_HOME not set");
    assert_eq!(
        BlockError::MissingEnv(EnvVar::Display).message(),
        "$DISPLAY not set. Try restarting bar if on sway"
    );
    assert_eq!(BlockError::IoError(SourceFile::MachineId).message(), "Could not read /etc/machine-id");
    assert_eq!(
        BlockError::MalformedInput(SourceText::Display).message(),
        "Failed to extract display number from $DISPLAY"
    );
    assert_eq!(BlockError::ConnectionError.message(), "Failed to establish D-Bus connection");
    assert_eq!(BlockError::QueryError(QueryFault::NoReply).message(), "Failed to query IBus");
    assert_eq!(
        BlockError::QueryError(QueryFault::NotAStructure).message(),
        "Failed to parse D-Bus message (step 1)"
    );
    assert_eq!(
        BlockError::QueryError(QueryFault::TooShort).message(),
        "Failed to parse D-Bus message (step 2)"
    );
    assert_eq!(BlockError::LockError.message(), "failed to acquire lock");
}
