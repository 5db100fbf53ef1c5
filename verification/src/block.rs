//! What every block has: an identifier, a text widget, and the events and
//! answers that it exchanges with the scheduler.

use vstd::prelude::*;
use vstd::string::StringExecFns;
use core::time::Duration;

verus! {

/// The characters of a block identifier.
pub open spec fn is_lower_hex(c: char) -> bool {
    '0' <= c <= '9' || 'a' <= c <= 'f'
}

/// The shape of a block identifier: 32 hexadecimal digits in lower case.
pub open spec fn is_block_id(id: Seq<char>) -> bool {
    id.len() == 32 && forall|i: int| 0 <= i < id.len() ==> is_lower_hex(#[trigger] id[i])
}

/// Calls `uuid::Uuid::new_v4`, then `Uuid::simple` and `to_string` on the
/// result: a random identifier, written without hyphens. Trusted: the text is
/// claimed to have the shape `is_block_id`; which digits come is left open.
#[verifier::external_body]
pub(crate) fn fresh_id() -> (id: String)
    ensures
        is_block_id(id@),
{
    uuid::Uuid::new_v4().simple().to_string()
}

/// The widget that shows a block: one line of text.
#[derive(Debug)]
pub struct TextWidget {
    content: String,
}

impl View for TextWidget {
    type V = Seq<char>;

    closed spec fn view(&self) -> Seq<char> {
        self.content@
    }
}

impl TextWidget {
    /// A widget without text.
    pub fn new() -> (widget: TextWidget)
        ensures
            widget@ == Seq::<char>::empty(),
    {
        TextWidget { content: String::new() }
    }

    /// The widget with `content` as its text.
    pub fn with_text(self, content: &str) -> (widget: TextWidget)
        ensures
            widget@ == content@,
    {
        TextWidget { content: String::from_str(content) }
    }

    /// Replaces the text.
    pub fn set_text(&mut self, content: String)
        ensures
            final(self)@ == content@,
    {
        self.content = content;
    }

    /// The text that is shown.
    pub fn text(&self) -> (content: &str)
        ensures
            content@ == self@,
    {
        self.content.as_str()
    }
}

/// A click on a block, as the bar reports it.
#[derive(Debug)]
pub struct I3BarEvent {
    /// The name of the block that was clicked.
    pub name: Option<String>,
    /// The instance of the block that was clicked.
    pub instance: Option<String>,
    /// The mouse button.
    pub button: u8,
}

/// When the scheduler should refresh a block again.
#[derive(Debug)]
pub enum Update {
    /// After the given time.
    Every(Duration),
    /// Not on a timer.
    Once,
}

} // verus!
