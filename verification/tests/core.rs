use std::cell::RefCell;
use std::rc::Rc;

use robus::Command;
use robus::Core;
use robus::Message;
use robus::ModuleType;
use robus::ParsingError;
use robus::Peripherals;

const BAUDRATE: u32 = 57600;

struct LoopbackLine {
    written: Rc<RefCell<Vec<u8>>>,
    timeouts_started: Rc<RefCell<u32>>,
}

impl LoopbackLine {
    fn new() -> (LoopbackLine, Rc<RefCell<Vec<u8>>>, Rc<RefCell<u32>>) {
        let written = Rc::new(RefCell::new(Vec::new()));
        let timeouts_started = Rc::new(RefCell::new(0));
        let line = LoopbackLine {
            written: written.clone(),
            timeouts_started: timeouts_started.clone(),
        };
        (line, written, timeouts_started)
    }
}

impl Peripherals for LoopbackLine {
    fn baudrate(&self) -> u32 {
        BAUDRATE
    }

    fn write_byte(&mut self, byte: u8) {
        self.written.borrow_mut().push(byte);
    }

    fn set_driver_enable(&mut self, _enabled: bool) {}

    fn set_receiver_enable(&mut self, _enabled: bool) {}

    fn start_timeout(&mut self, _ticks: u32) {
        *self.timeouts_started.borrow_mut() += 1;
    }
}

fn new_core() -> (Core<LoopbackLine>, Rc<RefCell<Vec<u8>>>) {
    let (line, written, _) = LoopbackLine::new();
    (robus::init(line), written)
}

fn deliveries(core: &mut Core<LoopbackLine>, bytes: &[u8]) -> Vec<(Message, Vec<usize>)> {
    let mut out = Vec::new();
    for b in bytes.iter() {
        if let Some(hit) = core.receive(*b) {
            out.push(hit);
        }
    }
    out
}

#[test]
fn fill_source_on_send() {
    let (mut core, _) = new_core();
    let mut msg = Message::id(3, Command::PublishState, &vec![1, 2]);

    let from: u16 = 42;

    let m1 = core.create_module("m1", ModuleType::Button).unwrap();
    core.set_module_id(m1, from);

    core.send(m1, &mut msg);

    assert_eq!(msg.header.source, from);
}

#[test]
fn send_emits_frame() {
    let (mut core, written) = new_core();
    let mut msg = Message::id(3, Command::PublishState, &vec![1, 2]);

    let m1 = core.create_module("m1", ModuleType::Button).unwrap();
    core.set_module_id(m1, 42);

    core.send(m1, &mut msg);

    assert_eq!(*written.borrow(), msg.to_bytes());
}

#[test]
fn id_local_loop() {
    let mut send_msg = Message::id(7, Command::PublishState, &vec![4, 5, 6]);
    let gold_msg = send_msg.clone();

    let (mut core, written) = new_core();

    let m1 = core.create_module("m1", ModuleType::Button).unwrap();
    core.set_module_id(m1, send_msg.header.target);

    let m2 = core.create_module("m2", ModuleType::RgbLed).unwrap();
    core.set_module_id(m2, 99);

    core.send(m1, &mut send_msg);

    let wire = written.borrow().clone();
    let hits = deliveries(&mut core, &wire);

    assert_eq!(hits.len(), 1);
    let (msg, targets) = &hits[0];
    assert_eq!(targets, &vec![m1]);
    assert_eq!(msg.header.command, gold_msg.header.command);
    assert_eq!(msg.data, gold_msg.data);
}

#[test]
fn broadcast() {
    let mut send_msg = Message::broadcast(Command::Identify, &vec![8, 9]);
    let gold_msg = send_msg.clone();

    let (mut core, written) = new_core();

    let m1 = core.create_module("m1", ModuleType::Button).unwrap();
    core.set_module_id(m1, 11);

    let m2 = core.create_module("m2", ModuleType::RgbLed).unwrap();
    core.set_module_id(m2, 12);

    core.send(m1, &mut send_msg);

    let wire = written.borrow().clone();
    let hits = deliveries(&mut core, &wire);

    assert_eq!(hits.len(), 1);
    let (msg, targets) = &hits[0];
    assert_eq!(targets, &vec![m1, m2]);
    assert_eq!(msg.header.command, gold_msg.header.command);
    assert_eq!(msg.data, gold_msg.data);
}

#[test]
fn local_broadcast_two_modules() {
    let (mut core, written) = new_core();

    let m1 = core.create_module("m1", ModuleType::Button).unwrap();
    core.set_module_id(m1, 31);
    let m2 = core.create_module("m2", ModuleType::RgbLed).unwrap();
    core.set_module_id(m2, 32);

    let mut msg = Message::broadcast(Command::Identify, &vec![]);
    core.send(m1, &mut msg);

    let wire = written.borrow().clone();
    let hits = deliveries(&mut core, &wire);

    assert_eq!(hits.len(), 1);
    let (delivered, targets) = &hits[0];
    assert_eq!(targets, &vec![m1, m2]);
    assert_eq!(delivered.header.command, Command::Identify);
    assert_eq!(delivered.data, Vec::<u8>::new());
}

#[test]
fn sniffer_on_unrelated_id() {
    let (mut core, _) = new_core();

    let m1 = core.create_module("m1", ModuleType::Button).unwrap();
    core.set_module_id(m1, 5);
    let sniffer = core.create_module("sniffer", ModuleType::Sniffer).unwrap();
    core.set_module_id(sniffer, 99);
    let m2 = core.create_module("m2", ModuleType::RgbLed).unwrap();
    core.set_module_id(m2, 7);

    let msg = Message::id(5, Command::GetState, &vec![]);
    let hits = deliveries(&mut core, &msg.to_bytes());

    assert_eq!(hits.len(), 1);
    let (_, targets) = &hits[0];
    assert_eq!(targets, &vec![m1, sniffer]);
}

#[test]
fn button_led_loopback() {
    let (mut node_a, written_a) = new_core();
    let button = node_a.create_module("button", ModuleType::Button).unwrap();
    node_a.set_module_id(button, 2);

    let (mut node_b, _) = new_core();
    let led = node_b.create_module("led", ModuleType::RgbLed).unwrap();
    node_b.set_module_id(led, 3);

    let mut led_lit = false;

    for expected in [1u8, 0u8] {
        written_a.borrow_mut().clear();
        let mut msg = Message::id(3, Command::PublishState, &vec![expected]);
        node_a.send(button, &mut msg);

        let wire = written_a.borrow().clone();
        let hits = deliveries(&mut node_b, &wire);

        assert_eq!(hits.len(), 1);
        let (delivered, targets) = &hits[0];
        assert_eq!(targets, &vec![led]);
        led_lit = delivered.data[0] == 1;
        assert_eq!(led_lit, expected == 1);
    }
    assert!(!led_lit);
}

#[test]
fn ring_of_four() {
    let mut nodes = Vec::new();
    let mut handles = Vec::new();
    let mut lines = Vec::new();
    for i in 0..4u16 {
        let (mut core, written) = new_core();
        let handle = core.create_module("ring", ModuleType::Gate).unwrap();
        core.set_module_id(handle, i + 1);
        nodes.push(core);
        handles.push(handle);
        lines.push(written);
    }

    let mut counters = [0u32; 4];

    // Node 1 injects the seed frame addressed to node 2.
    lines[0].borrow_mut().clear();
    let mut seed = Message::id(2, Command::Introduction, &vec![]);
    nodes[0].send(handles[0], &mut seed);
    let mut wire = lines[0].borrow().clone();
    let mut next: usize = 1;

    for _ in 0..8 {
        let hits = deliveries(&mut nodes[next], &wire.clone());
        assert_eq!(hits.len(), 1);
        let (delivered, targets) = &hits[0];
        assert_eq!(delivered.header.command, Command::Introduction);
        assert_eq!(targets, &vec![handles[next]]);
        counters[next] += 1;

        // Forward the introduction to the next node in the ring.
        let forward_to = ((next + 1) % 4) as u16 + 1;
        lines[next].borrow_mut().clear();
        let mut fwd = Message::id(forward_to, Command::Introduction, &vec![]);
        nodes[next].send(handles[next], &mut fwd);
        wire = lines[next].borrow().clone();
        next = (next + 1) % 4;
    }

    assert_eq!(counters, [2, 2, 2, 2]);
}

#[test]
fn type_dispatch() {
    let (mut core, _) = new_core();

    let m1 = core.create_module("m1", ModuleType::Button).unwrap();
    core.set_module_id(m1, 5);
    let m2 = core.create_module("m2", ModuleType::RgbLed).unwrap();
    core.set_module_id(m2, 7);

    let button_code = ModuleType::Button.code();
    let msg = Message::type_msg(button_code, Command::GetState, &vec![]);
    let hits = deliveries(&mut core, &msg.to_bytes());

    assert_eq!(hits.len(), 1);
    let (_, targets) = &hits[0];
    assert_eq!(targets, &vec![m1]);
}

#[test]
fn multicast_no_dispatch() {
    let (mut core, _) = new_core();

    let m1 = core.create_module("m1", ModuleType::Button).unwrap();
    core.set_module_id(m1, 5);

    let msg = Message::multicast(5, Command::GetState, &vec![]);
    let hits = deliveries(&mut core, &msg.to_bytes());

    assert_eq!(hits.len(), 1);
    let (_, targets) = &hits[0];
    assert_eq!(targets, &Vec::<usize>::new());
}

#[test]
fn timeout_recovers_reception() {
    let (mut core, _) = new_core();

    let m1 = core.create_module("m1", ModuleType::Button).unwrap();
    core.set_module_id(m1, 5);

    // Three stale header bytes, then the timer fires mid-frame.
    core.receive(48);
    core.receive(0);
    core.receive(32);
    core.timeout();

    let msg = Message::id(5, Command::PublishState, &vec![1]);
    let hits = deliveries(&mut core, &msg.to_bytes());

    assert_eq!(hits.len(), 1);
    let (delivered, targets) = &hits[0];
    assert_eq!(delivered.data, vec![1]);
    assert_eq!(targets, &vec![m1]);
}

#[test]
fn send_after_send_overrides_stale_lock() {
    let (mut core, written) = new_core();

    let m1 = core.create_module("m1", ModuleType::Button).unwrap();
    core.set_module_id(m1, 1);

    let mut first = Message::id(2, Command::GetState, &vec![]);
    core.send(m1, &mut first);

    // The lock from the first send is still held; a second send waits out
    // the inter-frame timeout and then transmits normally.
    written.borrow_mut().clear();
    let mut second = Message::id(2, Command::PublishState, &vec![9]);
    core.send(m1, &mut second);

    assert_eq!(second.header.source, 1);
    assert_eq!(*written.borrow(), second.to_bytes());
}

#[test]
fn create_module_rejects_long_alias() {
    let (mut core, _) = new_core();

    let alias = "a_very_long_alias_over_the_limit";
    assert_eq!(
        core.create_module(alias, ModuleType::Button),
        Err(ParsingError::AliasTooLong(alias.len()))
    );
}
