//! The slot that holds the last engine that was seen, and the listener that
//! fills it from the traffic on the bus.
//!
//! The slot is a plain value. Whoever shares it between the listener and the
//! block takes it under a lock for the length of one call.

use vstd::prelude::*;
use vstd::string::StringExecFns;
use std::time::Instant;
use crate::bus::{parse_msg, spec_parse_msg, ConnectionItem};

verus! {

/// A point in time, as the standard library measures it.
#[verifier::external_type_specification]
#[verifier::external_body]
pub struct ExInstant(Instant);

/// `Instant::now` reads the clock. Trusted, with nothing claimed of the
/// result.
pub assume_specification[ Instant::now ]() -> Instant
;

/// The last engine that was seen.
#[derive(Debug)]
pub struct EngineStateStore {
    engine: String,
}

impl View for EngineStateStore {
    type V = Seq<char>;

    closed spec fn view(&self) -> Seq<char> {
        self.engine@
    }
}

impl EngineStateStore {
    /// A slot that holds `engine`.
    pub fn new(engine: String) -> (store: EngineStateStore)
        ensures
            store@ == engine@,
    {
        EngineStateStore { engine }
    }

    /// A copy of the engine in the slot.
    pub fn read(&self) -> (engine: String)
        ensures
            engine@ == self@,
    {
        self.engine.clone()
    }

    /// Puts `engine` in the slot in place of what was there.
    pub fn write(&mut self, engine: String)
        ensures
            final(self)@ == engine@,
    {
        self.engine = engine;
    }
}

/// The note to the scheduler that a block has something new to show.
#[derive(Debug)]
pub struct ChangeEvent {
    /// The block that changed.
    pub id: String,
    /// When the change was seen.
    pub update_time: Instant,
}

/// The engine in the slot after one item of traffic: the engine that the item
/// announces, and without an announcement the engine that was there.
pub open spec fn engine_after(engine: Seq<char>, item: ConnectionItem) -> Seq<char> {
    match spec_parse_msg(item) {
        Some(name) => name,
        None => engine,
    }
}

/// The engine in the slot after a run of traffic, taken item by item.
pub open spec fn engine_after_all(engine: Seq<char>, items: Seq<ConnectionItem>) -> Seq<char>
    decreases items.len(),
{
    if items.len() == 0 {
        engine
    } else {
        engine_after(engine_after_all(engine, items.drop_last()), items.last())
    }
}

/// The part of a block that runs in the background: it knows where the bus is
/// and for which block it speaks.
#[derive(Debug)]
pub struct SignalListener {
    address: String,
    block_id: String,
}

impl SignalListener {
    /// The address of the bus that the listener connects to.
    pub closed spec fn spec_address(&self) -> Seq<char> {
        self.address@
    }

    /// The block for which the listener speaks.
    pub closed spec fn spec_block_id(&self) -> Seq<char> {
        self.block_id@
    }

    /// A listener for the block `block_id` on the bus at `address`.
    pub fn new(address: String, block_id: String) -> (listener: SignalListener)
        ensures
            listener.spec_address() == address@,
            listener.spec_block_id() == block_id@,
    {
        SignalListener { address, block_id }
    }

    /// The address of the bus that the listener connects to.
    pub fn address(&self) -> (address: &str)
        ensures
            address@ == self.spec_address(),
    {
        self.address.as_str()
    }

    /// The block for which the listener speaks.
    pub fn block_id(&self) -> (id: &str)
        ensures
            id@ == self.spec_block_id(),
    {
        self.block_id.as_str()
    }

    /// Handles one item of traffic. The engine signal puts its engine in the
    /// slot and gives the event to send to the scheduler, the slot being
    /// written before the event exists. Any other item leaves the slot as it
    /// is and gives no event.
    pub fn deliver(&self, store: &mut EngineStateStore, item: &ConnectionItem) -> (event: Option<
        ChangeEvent,
    >)
        ensures
            final(store)@ == engine_after(old(store)@, *item),
            spec_parse_msg(*item) is None ==> event is None,
            spec_parse_msg(*item) is Some ==> event is Some && event->0.id@
                == self.spec_block_id(),
    {
        match parse_msg(item) {
            Some(name) => {
                store.write(String::from_str(name));
                Some(ChangeEvent { id: self.block_id.clone(), update_time: Instant::now() })
            },
            None => None,
        }
    }
}

/// After any run of traffic that ends in an engine signal, the slot holds the
/// engine of that last signal, whatever it held before and whatever came
/// earlier.
pub proof fn lemma_last_signal_wins(
    engine: Seq<char>,
    items: Seq<ConnectionItem>,
    last: Seq<char>,
)
    requires
        items.len() > 0,
        spec_parse_msg(items.last()) == Some(last),
    ensures
        engine_after_all(engine, items) == last,
{
}

/// Traffic that holds no engine signal leaves the slot as it was.
pub proof fn lemma_other_traffic_keeps_engine(engine: Seq<char>, items: Seq<ConnectionItem>)
    requires
        forall|i: int| 0 <= i < items.len() ==> spec_parse_msg(#[trigger] items[i]) is None,
    ensures
        engine_after_all(engine, items) == engine,
    decreases items.len(),
{
    if items.len() > 0 {
        lemma_other_traffic_keeps_engine(engine, items.drop_last());
    }
}

/// An item that announces nothing is ignored altogether: a run of traffic
/// leaves the slot as the same run without that item would.
pub proof fn lemma_silent_item_changes_nothing(
    engine: Seq<char>,
    before: Seq<ConnectionItem>,
    item: ConnectionItem,
    after: Seq<ConnectionItem>,
)
    requires
        spec_parse_msg(item) is None,
    ensures
        engine_after_all(engine, before.push(item) + after) == engine_after_all(
            engine,
            before + after,
        ),
    decreases after.len(),
{
    if after.len() == 0 {
        assert(before.push(item) + after =~= before.push(item));
        assert(before + after =~= before);
        assert(before.push(item).drop_last() =~= before);
    } else {
        lemma_silent_item_changes_nothing(engine, before, item, after.drop_last());
        assert((before.push(item) + after).drop_last() =~= before.push(item) + after.drop_last());
        assert((before + after).drop_last() =~= before + after.drop_last());
    }
}

/// At every moment the slot holds a whole engine name: the one that it
/// started with, or the one that some item of the traffic so far announced.
pub proof fn lemma_slot_holds_start_or_announced_engine(
    engine: Seq<char>,
    items: Seq<ConnectionItem>,
)
    ensures
        engine_after_all(engine, items) == engine || exists|i: int|
            0 <= i < items.len() && spec_parse_msg(#[trigger] items[i]) == Some(
                engine_after_all(engine, items),
            ),
    decreases items.len(),
{
    if items.len() > 0 {
        let earlier = items.drop_last();
        lemma_slot_holds_start_or_announced_engine(engine, earlier);
        let now = engine_after_all(engine, items);
        if spec_parse_msg(items.last()) is Some {
            assert(spec_parse_msg(items[items.len() - 1]) == Some(now));
        } else if now != engine {
            let i = choose|i: int|
                0 <= i < earlier.len() && spec_parse_msg(#[trigger] earlier[i]) == Some(now);
            assert(items[i] == earlier[i]);
        }
    }
}

} // verus!
