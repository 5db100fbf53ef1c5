//! The block for the backlight of the keyboard, which is refreshed on a timer.

use vstd::prelude::*;
use core::time::Duration;
use crate::block::{fresh_id, is_block_id, I3BarEvent, TextWidget, Update};
use crate::error::{BlockError, SourceFile, SourceText};
use crate::text::{parse_u16, parsed_u16, pop};

verus! {

/// What the block shows before its first refresh.
pub const PLACEHOLDER: &'static str = "Keylight";

/// The refresh interval of a configuration that names none, in seconds.
pub const DEFAULT_INTERVAL_SECS: u64 = 5;

/// The length of time that `Duration::from_secs` makes of a number of seconds.
pub uninterp spec fn duration_from_secs(secs: u64) -> Duration;

/// `Duration::from_secs` makes a length of time of whole seconds. Trusted: the
/// result is claimed to depend on the number alone, and is given a name.
pub assume_specification[ Duration::from_secs ](secs: u64) -> (d: Duration)
    ensures
        d == duration_from_secs(secs),
;

/// The settings of the block.
#[derive(Clone, Copy, Debug)]
pub struct KeylightConfig {
    /// The time between two refreshes.
    pub interval: Duration,
}

impl KeylightConfig {
    /// The interval of a configuration that names none: five seconds.
    pub fn default_interval() -> (interval: Duration)
        ensures
            interval == duration_from_secs(DEFAULT_INTERVAL_SECS),
    {
        Duration::from_secs(DEFAULT_INTERVAL_SECS)
    }
}

impl Default for KeylightConfig {
    /// The settings with an interval of no length.
    fn default() -> (config: KeylightConfig)
        ensures
            config.interval == duration_from_secs(0),
    {
        KeylightConfig { interval: Duration::from_secs(0) }
    }
}

/// `content` without its last character, which is the end of the line.
pub open spec fn without_last(content: Seq<char>) -> Seq<char> {
    if content.len() > 0 {
        content.drop_last()
    } else {
        content
    }
}

/// The level that the contents of a brightness file give.
pub open spec fn spec_parse_brightness(content: Seq<char>) -> Result<u16, BlockError> {
    match parsed_u16(without_last(content)) {
        Some(level) => Ok(level),
        None => Err(BlockError::MalformedInput(SourceText::Brightness)),
    }
}

/// Reads the level out of the contents of a brightness file: the last
/// character is dropped, and the rest must be a number of 16 bits.
pub fn parse_brightness(content: String) -> (level: Result<u16, BlockError>)
    ensures
        level == spec_parse_brightness(content@),
{
    let mut content = content;
    let _ = pop(&mut content);
    match parse_u16(content.as_str()) {
        Some(level) => Ok(level),
        None => Err(BlockError::MalformedInput(SourceText::Brightness)),
    }
}

/// The level that a brightness file gives. `content` is `None` where the file
/// could not be read.
pub fn read_brightness(content: Option<String>) -> (level: Result<u16, BlockError>)
    ensures
        level == match content {
            Some(content) => spec_parse_brightness(content@),
            None => Err(BlockError::IoError(SourceFile::Brightness)),
        },
{
    match content {
        Some(content) => parse_brightness(content),
        None => Err(BlockError::IoError(SourceFile::Brightness)),
    }
}

/// The block.
#[derive(Debug)]
pub struct Keylight {
    text: TextWidget,
    id: String,
    update_interval: Duration,
}

impl Keylight {
    /// The identifier of the block.
    pub closed spec fn spec_id(&self) -> Seq<char> {
        self.id@
    }

    /// The text that the block shows.
    pub closed spec fn spec_text(&self) -> Seq<char> {
        self.text@
    }

    /// The time between two refreshes.
    pub closed spec fn spec_interval(&self) -> Duration {
        self.update_interval
    }

    /// Builds the block, which always succeeds: it has a fresh identifier,
    /// the interval of its configuration, and shows the placeholder.
    pub fn new(block_config: KeylightConfig) -> (block: Result<Keylight, BlockError>)
        ensures
            block matches Ok(b) && is_block_id(b.spec_id()) && b.spec_interval()
                == block_config.interval && b.spec_text() == PLACEHOLDER@,
    {
        Ok(
            Keylight {
                id: fresh_id(),
                update_interval: block_config.interval,
                text: TextWidget::new().with_text(PLACEHOLDER),
            },
        )
    }

    /// Asks to be refreshed again after the interval, and changes nothing.
    pub fn update(&mut self) -> (next: Result<Option<Update>, BlockError>)
        ensures
            next == Ok::<Option<Update>, BlockError>(Some(Update::Every(old(self).spec_interval()))),
            *final(self) == *old(self),
    {
        Ok(Some(Update::Every(self.update_interval)))
    }

    /// The widgets of the block: its one text widget.
    pub fn view(&self) -> (widgets: Vec<&TextWidget>)
        ensures
            widgets@.len() == 1,
            widgets@[0]@ == self.spec_text(),
    {
        vec![&self.text]
    }

    /// Takes a click and does nothing with it.
    pub fn click(&mut self, _event: &I3BarEvent) -> (done: Result<(), BlockError>)
        ensures
            done is Ok,
            *final(self) == *old(self),
    {
        Ok(())
    }

    /// The identifier of the block, which never changes.
    pub fn id(&self) -> (id: &str)
        ensures
            id@ == self.spec_id(),
    {
        self.id.as_str()
    }
}

} // verus!
