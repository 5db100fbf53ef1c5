//! What travels over the bus, as far as the blocks read it, and the two
//! readings that they make: the engine in the reply to the first query, and the
//! engine in a signal.

use vstd::prelude::*;
use vstd::string::StringExecFns;
use crate::error::{BlockError, QueryFault};
use crate::text::text_result_view;

verus! {

/// The name under which the daemon is reached, and the interface of its
/// signals and properties.
pub const IBUS_INTERFACE: &'static str = "org.freedesktop.IBus";

/// The object that carries the daemon's properties.
pub const IBUS_PATH: &'static str = "/org/freedesktop/IBus";

/// The property that describes the active engine.
pub const ENGINE_PROPERTY: &'static str = "GlobalEngine";

/// The signal that announces a new active engine.
pub const ENGINE_CHANGED: &'static str = "GlobalEngineChanged";

/// How long the first query may take, in milliseconds.
pub const QUERY_TIMEOUT_MS: i32 = 5000;

/// How long the listener waits for traffic before it asks again, in
/// milliseconds.
pub const RECEIVE_TIMEOUT_MS: u32 = 100000;

/// What is shown for an engine whose name is not text.
pub const UNKNOWN_ENGINE: &'static str = "??";

/// The position of the engine's name in the engine description.
pub const ENGINE_NAME_POSITION: usize = 2;

/// One positional value of a message or of a structure.
#[derive(Clone, Debug)]
pub enum BusArg {
    /// A string.
    Text(String),
    /// Anything that is not a string.
    Other,
}

/// The value of a property.
#[derive(Clone, Debug)]
pub enum PropertyValue {
    /// A value with positions: an array or a structure.
    Structure(Vec<BusArg>),
    /// A value without positions.
    Scalar,
}

/// A message with the header fields that every signal has.
#[derive(Clone, Debug)]
pub struct Message {
    /// The interface that the message belongs to.
    pub interface: String,
    /// The name of the signal or method.
    pub member: String,
    /// The positional arguments.
    pub args: Vec<BusArg>,
}

/// What one wait on the connection brings.
#[derive(Clone, Debug)]
pub enum ConnectionItem {
    /// The wait ran out.
    Nothing,
    /// A signal.
    Signal(Message),
    /// A method call addressed to this connection.
    MethodCall(Message),
    /// The reply to a call that this connection made.
    MethodReturn,
}

impl BusArg {
    /// The string that the value holds, if it holds one.
    pub open spec fn text(self) -> Option<Seq<char>> {
        match self {
            BusArg::Text(s) => Some(s@),
            BusArg::Other => None,
        }
    }

    /// The string that the value holds, if it holds one.
    pub fn as_str(&self) -> (s: Option<&str>)
        ensures
            match s {
                Some(s) => self.text() == Some(s@),
                None => self.text() is None,
            },
    {
        match self {
            BusArg::Text(s) => Some(s.as_str()),
            BusArg::Other => None,
        }
    }
}

/// The rule that subscribes a connection to the engine signal.
pub open spec fn spec_match_rule() -> Seq<char> {
    "interface='"@ + IBUS_INTERFACE@ + "',member='"@ + ENGINE_CHANGED@ + "'"@
}

/// The rule that subscribes a connection to the engine signal and to nothing
/// else: `interface='org.freedesktop.IBus',member='GlobalEngineChanged'`.
pub fn match_rule() -> (rule: String)
    ensures
        rule@ == spec_match_rule(),
{
    let mut rule = String::from_str("interface='");
    rule.append(IBUS_INTERFACE);
    rule.append("',member='");
    rule.append(ENGINE_CHANGED);
    rule.append("'");
    rule
}

/// The engine that a property value names: the text at the third position,
/// `??` where that position holds no text, and an error where there is no
/// third position.
pub open spec fn spec_current_engine(value: PropertyValue) -> Result<Seq<char>, BlockError> {
    match value {
        PropertyValue::Scalar => Err(BlockError::QueryError(QueryFault::NotAStructure)),
        PropertyValue::Structure(items) => if items.len() <= ENGINE_NAME_POSITION {
            Err(BlockError::QueryError(QueryFault::TooShort))
        } else {
            match items[ENGINE_NAME_POSITION as int].text() {
                Some(name) => Ok(name),
                None => Ok(UNKNOWN_ENGINE@),
            }
        },
    }
}

/// Reads the active engine out of the value of the engine property.
pub fn current_engine(value: &PropertyValue) -> (engine: Result<String, BlockError>)
    ensures
        text_result_view(engine) == spec_current_engine(*value),
{
    match value {
        PropertyValue::Scalar => Err(BlockError::QueryError(QueryFault::NotAStructure)),
        PropertyValue::Structure(items) => {
            if items.len() <= ENGINE_NAME_POSITION {
                return Err(BlockError::QueryError(QueryFault::TooShort));
            }
            match items[ENGINE_NAME_POSITION].as_str() {
                Some(name) => Ok(String::from_str(name)),
                None => Ok(String::from_str(UNKNOWN_ENGINE)),
            }
        },
    }
}

/// Whether a message is the engine signal, going by its two header fields.
pub open spec fn is_engine_signal(m: Message) -> bool {
    m.interface@ == IBUS_INTERFACE@ && m.member@ == ENGINE_CHANGED@
}

/// The engine that an item announces: the first argument of the engine signal,
/// where it is a string. Every other item announces nothing.
pub open spec fn spec_parse_msg(ci: ConnectionItem) -> Option<Seq<char>> {
    match ci {
        ConnectionItem::Signal(m) => if is_engine_signal(m) && m.args.len() > 0 {
            m.args[0].text()
        } else {
            None
        },
        _ => None,
    }
}

/// Whether two strings hold the same characters.
fn same_text(a: &String, b: &str) -> (same: bool)
    ensures
        same == (a@ == b@),
{
    let b = String::from_str(b);
    *a == b
}

/// Filters the traffic for the engine signal and returns the engine that it
/// names. An item that is no signal, a signal of another interface or with
/// another name, and an engine signal whose first argument is missing or is no
/// string give `None`.
pub fn parse_msg(ci: &ConnectionItem) -> (engine: Option<&str>)
    ensures
        match engine {
            Some(name) => spec_parse_msg(*ci) == Some(name@),
            None => spec_parse_msg(*ci) is None,
        },
{
    let m = if let ConnectionItem::Signal(s) = ci {
        s
    } else {
        return None;
    };
    if !same_text(&m.interface, IBUS_INTERFACE) {
        return None;
    }
    if !same_text(&m.member, ENGINE_CHANGED) {
        return None;
    }
    if m.args.len() == 0 {
        return None;
    }
    m.args[0].as_str()
}

} // verus!
