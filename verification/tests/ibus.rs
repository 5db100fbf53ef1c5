use ibus_block::address::{discovery_path, extract_address, Environment};
use ibus_block::block::I3BarEvent;
use ibus_block::bus::{BusArg, ConnectionItem, Message, PropertyValue};
use ibus_block::error::{BlockError, QueryFault};
use ibus_block::ibus::{initial_engine, IBus, IBusConfig, IBusParts, QueryOutcome, PLACEHOLDER};

fn text(s: &str) -> BusArg {
    BusArg::Text(String::from(s))
}

fn engine_desc(name: BusArg) -> QueryOutcome {
    QueryOutcome::Reply(PropertyValue::Structure(vec![
        text("IBusEngineDesc"),
        BusArg::Other,
        name,
        text("English (US)"),
        text("English (US)"),
        text("en"),
        text("GPL"),
    ]))
}

fn build(outcome: &QueryOutcome) -> IBusParts {
    IBus::new(IBusConfig::default(), String::from("unix:abstract=/tmp/x"), outcome)
        .expect("a usable reply gives a block")
}

fn is_block_id(id: &str) -> bool {
    id.len() == 32 && id.chars().all(|c| matches!(c, '0'..='9' | 'a'..='f'))
}

#[test]
fn config_defaults() {
    assert!(IBusConfig::default_abbreviate());
    assert!(!IBusConfig::default().as_icon);
}

#[test]
fn new_block_shows_placeholder() {
    let parts = build(&engine_desc(text("xkb:us::eng")));
    assert_eq!(PLACEHOLDER, "IBus");
    let widgets = parts.block.view();
    assert_eq!(widgets.len(), 1);
    assert_eq!(widgets[0].text(), "IBus");
    assert_eq!(parts.store.read(), "xkb:us::eng");
}

#[test]
fn identifier_is_fresh_and_stable() {
    let outcome = engine_desc(text("xkb:us::eng"));
    let mut a = build(&outcome);
    let b = build(&outcome);
    assert!(is_block_id(a.block.id()), "{:?}", a.block.id());
    assert!(is_block_id(b.block.id()), "{:?}", b.block.id());
    assert_ne!(a.block.id(), b.block.id());
    let id = String::from(a.block.id());
    a.block.update(Some(&a.store)).unwrap();
    assert_eq!(a.block.id(), id);
    assert_eq!(a.listener.block_id(), id);
    assert_eq!(a.listener.address(), "unix:abstract=/tmp/x");
}

#[test]
fn first_update_shows_the_queried_engine() {
    let mut parts = build(&engine_desc(text("xkb:us::eng")));
    let next = parts.block.update(Some(&parts.store));
    assert_eq!(next, Ok(None));
    assert_eq!(parts.block.view()[0].text(), "xkb:us::eng");
    assert_ne!(parts.block.view()[0].text(), "??");
}

#[test]
fn engine_that_is_no_text_shows_the_sentinel() {
    let mut parts = build(&engine_desc(BusArg::Other));
    assert_eq!(parts.store.read(), "??");
    parts.block.update(Some(&parts.store)).unwrap();
    assert_eq!(parts.block.view()[0].text(), "??");
}

#[test]
fn construction_fails_without_a_connection() {
    let r = IBus::new(IBusConfig::default(), String::from("a"), &QueryOutcome::Unreachable);
    assert_eq!(r.err(), Some(BlockError::ConnectionError));
    assert_eq!(initial_engine(&QueryOutcome::Unreachable), Err(BlockError::ConnectionError));
}

#[test]
fn construction_fails_without_a_reply() {
    let r = IBus::new(IBusConfig::default(), String::from("a"), &QueryOutcome::NoReply);
    assert_eq!(r.err(), Some(BlockError::QueryError(QueryFault::NoReply)));
}

#[test]
fn construction_fails_on_a_reply_without_positions() {
    let r = IBus::new(
        IBusConfig::default(),
        String::from("a"),
        &QueryOutcome::Reply(PropertyValue::Scalar),
    );
    assert_eq!(r.err(), Some(BlockError::QueryError(QueryFault::NotAStructure)));
    let r = IBus::new(
        IBusConfig::default(),
        String::from("a"),
        &QueryOutcome::Reply(PropertyValue::Structure(vec![text("IBusEngineDesc"), text("x")])),
    );
    assert_eq!(r.err(), Some(BlockError::QueryError(QueryFault::TooShort)));
}

#[test]
fn update_without_the_store_is_a_lock_error() {
    let mut parts = build(&engine_desc(text("xkb:us::eng")));
    assert_eq!(parts.block.update(None), Err(BlockError::LockError));
    assert_eq!(parts.block.view()[0].text(), "IBus");
    parts.block.update(Some(&parts.store)).unwrap();
    assert_eq!(parts.block.update(None), Err(BlockError::LockError));
    assert_eq!(parts.block.view()[0].text(), "xkb:us::eng");
}

#[test]
fn click_is_accepted_and_changes_nothing() {
    let mut parts = build(&engine_desc(text("xkb:us::eng")));
    parts.block.update(Some(&parts.store)).unwrap();
    let id = String::from(parts.block.id());
    let event = I3BarEvent { name: Some(String::from("ibus")), instance: None, button: 1 };
    assert_eq!(parts.block.click(&event), Ok(()));
    assert_eq!(parts.block.id(), id);
    assert_eq!(parts.block.view()[0].text(), "xkb:us::eng");
}

#[test]
fn end_to_end() {
    let env = Environment {
        config_root: Some(String::from("/home/u/.config")),
        machine_id: Some(String::from("7542d73dce451c2461a044e24bc131f4\n")),
        display: Some(String::from(":0")),
    };
    assert_eq!(
        discovery_path(&env),
        Ok(String::from("/home/u/.config/ibus/bus/7542d73dce451c2461a044e24bc131f4-unix-0"))
    );
    let address = extract_address(Some("IBUS_ADDRESS=unix:abstract=/tmp/x,guid=abc")).unwrap();
    assert_eq!(address, "unix:abstract=/tmp/x");

    let reply = QueryOutcome::Reply(PropertyValue::Structure(vec![
        text("Desc"),
        BusArg::Other,
        text("xkb:us::eng"),
        text("English (US)"),
    ]));
    let IBusParts { mut block, mut store, listener } =
        IBus::new(IBusConfig { as_icon: IBusConfig::default_abbreviate() }, address, &reply).unwrap();
    assert_eq!(store.read(), "xkb:us::eng");
    assert_eq!(listener.address(), "unix:abstract=/tmp/x");

    let signal = ConnectionItem::Signal(Message {
        interface: String::from("org.freedesktop.IBus"),
        member: String::from("GlobalEngineChanged"),
        args: vec![text("xkb:jp::jpn")],
    });
    let event = listener.deliver(&mut store, &signal).expect("the signal gives an event");
    assert_eq!(event.id, block.id());
    assert_eq!(block.update(Some(&store)), Ok(None));
    assert_eq!(block.view()[0].text(), "xkb:jp::jpn");
}
