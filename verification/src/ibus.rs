//! The block that shows the active input-method engine.
//!
//! The block is built from the outcome of one query to the daemon. From then
//! on it shows whatever the engine slot holds when the scheduler asks; the
//! slot is kept up to date by the listener that is built along with the block.

use vstd::prelude::*;
use core::time::Duration;
use crate::block::{fresh_id, is_block_id, I3BarEvent, TextWidget};
use crate::bus::{current_engine, spec_current_engine, PropertyValue};
use crate::error::{BlockError, QueryFault};
use crate::store::{engine_after_all, EngineStateStore, SignalListener};
use crate::text::text_result_view;

verus! {

/// What the block shows before its first refresh.
pub const PLACEHOLDER: &'static str = "IBus";

/// The settings of the block.
#[derive(Clone, Copy, Debug)]
pub struct IBusConfig {
    /// Show the engine as the two-letter abbreviation of its country.
    pub as_icon: bool,
}

impl IBusConfig {
    /// The value of `as_icon` for a configuration that leaves it out.
    pub fn default_abbreviate() -> (as_icon: bool)
        ensures
            as_icon,
    {
        true
    }
}

impl Default for IBusConfig {
    /// The settings with nothing switched on.
    fn default() -> (config: IBusConfig)
        ensures
            !config.as_icon,
    {
        IBusConfig { as_icon: false }
    }
}

/// How the query for the active engine went.
#[derive(Debug)]
pub enum QueryOutcome {
    /// No connection to the bus could be opened.
    Unreachable,
    /// The connection stands, but the property could not be had.
    NoReply,
    /// The value of the property.
    Reply(PropertyValue),
}

/// The engine that the block starts with, or the reason why there is no block.
pub open spec fn spec_initial_engine(outcome: QueryOutcome) -> Result<Seq<char>, BlockError> {
    match outcome {
        QueryOutcome::Unreachable => Err(BlockError::ConnectionError),
        QueryOutcome::NoReply => Err(BlockError::QueryError(QueryFault::NoReply)),
        QueryOutcome::Reply(value) => spec_current_engine(value),
    }
}

/// Reads the engine that the block starts with out of the outcome of the
/// query.
pub fn initial_engine(outcome: &QueryOutcome) -> (engine: Result<String, BlockError>)
    ensures
        text_result_view(engine) == spec_initial_engine(*outcome),
{
    match outcome {
        QueryOutcome::Unreachable => Err(BlockError::ConnectionError),
        QueryOutcome::NoReply => Err(BlockError::QueryError(QueryFault::NoReply)),
        QueryOutcome::Reply(value) => current_engine(value),
    }
}

/// The block.
#[derive(Debug)]
pub struct IBus {
    id: String,
    text: TextWidget,
}

/// What comes into being with a block: the block, the slot that it reads, and
/// the listener that writes the slot.
#[derive(Debug)]
pub struct IBusParts {
    /// The block, for the scheduler.
    pub block: IBus,
    /// The slot, to be shared between the other two.
    pub store: EngineStateStore,
    /// The listener, to be run in the background.
    pub listener: SignalListener,
}

impl IBus {
    /// The identifier of the block.
    pub closed spec fn spec_id(&self) -> Seq<char> {
        self.id@
    }

    /// The text that the block shows.
    pub closed spec fn spec_text(&self) -> Seq<char> {
        self.text@
    }

    /// Builds the block for the daemon at `address`. There is a block exactly
    /// where the query gave an engine; the slot then holds that engine, the
    /// block has a fresh identifier and shows the placeholder, and the listener
    /// is set up for the same address and identifier.
    pub fn new(_block_config: IBusConfig, address: String, outcome: &QueryOutcome) -> (parts:
        Result<IBusParts, BlockError>)
        ensures
            match parts {
                Ok(parts) => {
                    &&& spec_initial_engine(*outcome) == Ok::<Seq<char>, BlockError>(parts.store@)
                    &&& is_block_id(parts.block.spec_id())
                    &&& parts.block.spec_text() == PLACEHOLDER@
                    &&& parts.listener.spec_block_id() == parts.block.spec_id()
                    &&& parts.listener.spec_address() == address@
                },
                Err(e) => spec_initial_engine(*outcome) == Err::<Seq<char>, BlockError>(e),
            },
    {
        let id = fresh_id();
        let id_copy = id.clone();
        let engine = match initial_engine(outcome) {
            Ok(engine) => engine,
            Err(e) => {
                return Err(e);
            },
        };
        Ok(
            IBusParts {
                block: IBus { id: id_copy, text: TextWidget::new().with_text(PLACEHOLDER) },
                store: EngineStateStore::new(engine),
                listener: SignalListener::new(address, id),
            },
        )
    }

    /// The identifier of the block, which never changes.
    pub fn id(&self) -> (id: &str)
        ensures
            id@ == self.spec_id(),
    {
        self.id.as_str()
    }

    /// Refreshes the text from the slot. `store` is `None` where the slot
    /// could not be taken; the block then keeps its text and reports the
    /// failure. The block asks for no refresh on a timer: it is refreshed when
    /// the listener says so.
    pub fn update(&mut self, store: Option<&EngineStateStore>) -> (next: Result<
        Option<Duration>,
        BlockError,
    >)
        ensures
            final(self).spec_id() == old(self).spec_id(),
            match store {
                Some(store) => next == Ok::<Option<Duration>, BlockError>(None)
                    && final(self).spec_text() == store@,
                None => next == Err::<Option<Duration>, BlockError>(BlockError::LockError)
                    && final(self).spec_text() == old(self).spec_text(),
            },
    {
        match store {
            Some(store) => {
                let engine = store.read();
                self.text.set_text(engine);
                Ok(None)
            },
            None => Err(BlockError::LockError),
        }
    }

    /// The widgets of the block: its one text widget.
    pub fn view(&self) -> (widgets: Vec<&TextWidget>)
        ensures
            widgets@.len() == 1,
            widgets@[0]@ == self.spec_text(),
    {
        vec![&self.text]
    }

    /// Takes a click and does nothing with it.
    pub fn click(&mut self, _event: &I3BarEvent) -> (done: Result<(), BlockError>)
        ensures
            done is Ok,
            final(self).spec_id() == old(self).spec_id(),
            final(self).spec_text() == old(self).spec_text(),
    {
        Ok(())
    }
}

/// A block that is refreshed before any signal has come shows the engine that
/// the query named: where the third position of the reply holds a text, the
/// slot starts with that text and not with the stand-in for an unknown engine,
/// and no traffic leaves the slot as it started.
pub proof fn lemma_first_refresh_shows_queried_engine(value: PropertyValue, name: Seq<char>)
    requires
        value matches PropertyValue::Structure(items) && items.len() > 2 && items[2].text()
            == Some(name),
    ensures
        spec_initial_engine(QueryOutcome::Reply(value)) == Ok::<Seq<char>, BlockError>(name),
        engine_after_all(name, Seq::empty()) == name,
{
}

} // verus!
