//! The full entity pipeline over a synthetic demo: schema building,
//! class binding, and a packet-entities delta decoded through the
//! Huffman-coded path run.

use cs2demo::gameevent::GameEvent;
use cs2demo::huffman::HuffmanTable;
use cs2demo::parser;
use cs2demo::bitreader::Bitreader;
use cs2demo::{Container, DemoEvent, EntityContext, EntityFilter, LazyParser, Variant};

fn pb_varint(out: &mut Vec<u8>, mut v: u64) {
    loop {
        let b = (v & 0x7f) as u8;
        v >>= 7;
        if v == 0 {
            out.push(b);
            return;
        }
        out.push(b | 0x80);
    }
}

fn pb_varint_field(out: &mut Vec<u8>, field: u64, v: u64) {
    pb_varint(out, field << 3);
    pb_varint(out, v);
}

fn pb_bytes_field(out: &mut Vec<u8>, field: u64, data: &[u8]) {
    pb_varint(out, (field << 3) | 2);
    pb_varint(out, data.len() as u64);
    out.extend_from_slice(data);
}

struct BitWriter {
    bytes: Vec<u8>,
    used: u32,
}

impl BitWriter {
    fn new() -> Self {
        BitWriter {
            bytes: Vec::new(),
            used: 0,
        }
    }
    fn push_bits(&mut self, value: u64, n: u32) {
        for i in 0..n {
            let bit = (value >> i) & 1;
            if self.used % 8 == 0 {
                self.bytes.push(0);
            }
            let idx = self.bytes.len() - 1;
            self.bytes[idx] |= (bit as u8) << (self.used % 8);
            self.used += 1;
        }
    }
    fn push_ubitvar(&mut self, v: u32) {
        if v < 16 {
            self.push_bits(v as u64, 6);
        } else if (v >> 4) < 16 {
            self.push_bits(((0b01 << 4) | (v & 15)) as u64, 6);
            self.push_bits((v >> 4) as u64, 4);
        } else if (v >> 4) < 256 {
            self.push_bits(((0b10 << 4) | (v & 15)) as u64, 6);
            self.push_bits((v >> 4) as u64, 8);
        } else {
            self.push_bits(((0b11 << 4) | (v & 15)) as u64, 6);
            self.push_bits((v >> 4) as u64, 28);
        }
    }
    fn push_message(&mut self, msg_type: u32, payload: &[u8]) {
        self.push_ubitvar(msg_type);
        let mut len = Vec::new();
        pb_varint(&mut len, payload.len() as u64);
        for b in len {
            self.push_bits(b as u64, 8);
        }
        for b in payload {
            self.push_bits(*b as u64, 8);
        }
    }
    fn finish(self) -> Vec<u8> {
        self.bytes
    }
}

fn frame(cmd: u64, tick: u64, payload: &[u8]) -> Vec<u8> {
    let mut out = Vec::new();
    pb_varint(&mut out, cmd);
    pb_varint(&mut out, tick);
    pb_varint(&mut out, payload.len() as u64);
    out.extend_from_slice(payload);
    out
}

fn container(frames: &[Vec<u8>]) -> Vec<u8> {
    let mut inner = Vec::new();
    for f in frames {
        inner.extend_from_slice(f);
    }
    let mut out = Vec::new();
    out.extend_from_slice(b"PBDEMS2\0");
    out.extend_from_slice(&((inner.len() as u32).saturating_sub(2)).to_le_bytes());
    out.extend_from_slice(&[0, 0, 0, 0]);
    out.extend_from_slice(&inner);
    out
}

fn code_of(table: &HuffmanTable, symbol: u8) -> (u64, u32) {
    fn walk(
        table: &HuffmanTable,
        node: usize,
        symbol: u8,
        code: u64,
        len: u32,
    ) -> Option<(u64, u32)> {
        let n = &table.nodes[node];
        if n.is_leaf {
            if n.symbol == symbol {
                return Some((code, len));
            }
            return None;
        }
        if let Some(hit) = walk(table, n.zero, symbol, code, len + 1) {
            return Some(hit);
        }
        walk(table, n.one, symbol, code | (1 << len), len + 1)
    }
    walk(table, table.root, symbol, 0, 0).expect("symbol coded")
}

/// One serializer "CTestClass" with a single boolean leaf "m_bFlag".
fn send_tables_frame_payload() -> Vec<u8> {
    let symbols = ["CTestClass", "m_bFlag", "bool", "(root)"];
    let mut field = Vec::new();
    pb_varint_field(&mut field, 1, 2); // var type: "bool"
    pb_varint_field(&mut field, 2, 1); // var name: "m_bFlag"
    pb_varint_field(&mut field, 9, 3); // send node
    let mut ser = Vec::new();
    pb_varint_field(&mut ser, 1, 0); // serializer name: "CTestClass"
    pb_varint_field(&mut ser, 3, 0); // field index 0
    let mut msg = Vec::new();
    pb_bytes_field(&mut msg, 1, &ser);
    for s in symbols {
        pb_bytes_field(&mut msg, 2, s.as_bytes());
    }
    pb_bytes_field(&mut msg, 3, &field);
    // The frame wraps the message behind a leading byte-count varint.
    let mut data = Vec::new();
    pb_varint(&mut data, msg.len() as u64);
    data.extend_from_slice(&msg);
    let mut out = Vec::new();
    pb_bytes_field(&mut out, 1, &data);
    out
}

fn class_info_frame_payload() -> Vec<u8> {
    let mut class = Vec::new();
    pb_varint_field(&mut class, 1, 1); // class id 1
    pb_bytes_field(&mut class, 2, b"CTestClass");
    let mut out = Vec::new();
    pb_bytes_field(&mut out, 1, &class);
    out
}

/// One created entity (id 3, class 1) whose single leaf is set to true.
fn packet_entities_payload() -> Vec<u8> {
    let table = HuffmanTable::new();
    let (c_plus_one, l_plus_one) = code_of(&table, 0);
    let (c_stop, l_stop) = code_of(&table, 39);

    let mut e = BitWriter::new();
    e.push_ubitvar(3); // entity id delta: -1 + 1 + 3 = 3
    e.push_bits(0b10, 2); // create
    e.push_bits(1, 8); // class id
    e.push_bits(0, 17); // serial
    e.push_bits(0, 8); // reserved varint
    e.push_bits(c_plus_one, l_plus_one); // path: first field
    e.push_bits(c_stop, l_stop); // terminator
    e.push_bits(1, 1); // boolean value
    let entity_data = e.finish();

    let mut m = Vec::new();
    pb_varint_field(&mut m, 2, 1); // one updated entry
    pb_bytes_field(&mut m, 7, &entity_data);

    let mut w = BitWriter::new();
    w.push_message(55, &m);
    let mut packet = Vec::new();
    pb_bytes_field(&mut packet, 3, &w.finish());
    packet
}

fn entity_demo() -> Vec<u8> {
    let mut header = Vec::new();
    pb_bytes_field(&mut header, 5, b"de_test");
    let mut info = Vec::new();
    pb_varint_field(&mut info, 2, 7);
    container(&[
        frame(1, 0, &header),
        frame(4, 0, &send_tables_frame_payload()),
        frame(5, 0, &class_info_frame_payload()),
        frame(7, 1, &packet_entities_payload()),
        frame(2, 2, &info),
    ])
}

#[test]
fn entity_update_decodes_through_the_schema() {
    let demo = entity_demo();
    let c = Container::parse(&demo).unwrap();
    let out = parser::parse(&c.inner, EntityFilter::all()).unwrap();
    assert_eq!(out.entity_states.ticks.len(), 1);
    let states = &out.entity_states.ticks[0].states;
    assert_eq!(states.len(), 1);
    let state = &states[0];
    assert_eq!(state.id, 3);
    assert_eq!(state.cls, 1);
    assert_eq!(state.class, b"CTestClass");
    assert_eq!(state.props.len(), 1);
    let prop = &state.props[0];
    assert_eq!(prop.value, Variant::Bool(true));
    assert_eq!(prop.prop_info.prop_name, b"CTestClass.m_bFlag");
    assert_eq!(prop.prop_info.id, 1000);
    assert_eq!(prop.field_info.prop_id, 1000);
    // Named lookup through the state.
    assert!(state.get_prop(b"CTestClass.m_bFlag").is_some());
}

#[test]
fn recreating_an_entity_replaces_its_class() {
    fn create_bits(cls: u8) -> Vec<u8> {
        let mut w = BitWriter::new();
        w.push_bits(cls as u64, 8);
        w.push_bits(0, 17);
        w.push_bits(0, 8);
        w.finish()
    }
    let mut ctx = EntityContext::new(EntityFilter::all());
    let mut r1 = Bitreader::new(create_bits(4));
    assert_eq!(ctx.create_entity(9, &mut r1).unwrap(), 4);
    let mut r2 = Bitreader::new(create_bits(6));
    assert_eq!(ctx.create_entity(9, &mut r2).unwrap(), 6);
    // One entry, holding the latest class.
    assert_eq!(ctx.entities.len(), 1);
    assert_eq!(ctx.entities[0].0, 9);
    assert_eq!(ctx.entities[0].1.cls, 6);
}

#[test]
fn disabled_filter_skips_entity_decoding() {
    let demo = entity_demo();
    let c = Container::parse(&demo).unwrap();
    let out = parser::parse(&c.inner, EntityFilter::disabled()).unwrap();
    assert_eq!(out.entity_states.ticks.len(), 1);
    assert!(out.entity_states.ticks[0].states.is_empty());
}

#[test]
fn lazy_entities_match_the_eager_pass() {
    let demo = entity_demo();
    let c = Container::parse(&demo).unwrap();
    let eager = parser::parse(&c.inner, EntityFilter::all()).unwrap();

    let c2 = Container::parse(&demo).unwrap();
    let lazy = LazyParser::new(c2);
    let mut it = lazy.entities();
    let mut got = Vec::new();
    while let Some(e) = it.next() {
        got.push(e.expect("lazy entity"));
    }
    assert_eq!(got.len(), 1);
    let (tick, state) = &got[0];
    assert_eq!(*tick, 0);
    let eager_state = &eager.entity_states.ticks[0].states[0];
    assert_eq!(state.id, eager_state.id);
    assert_eq!(state.cls, eager_state.cls);
    assert_eq!(state.class, eager_state.class);
    assert_eq!(state.props.len(), eager_state.props.len());
    assert_eq!(state.props[0].value, eager_state.props[0].value);
    assert_eq!(
        state.props[0].prop_info.prop_name,
        eager_state.props[0].prop_info.prop_name
    );

    // The event view of the same demo is empty but error-free.
    let c3 = Container::parse(&demo).unwrap();
    let lazy2 = LazyParser::new(c3);
    let mut evs = lazy2.events();
    let mut n = 0;
    while let Some(e) = evs.next() {
        let ev: DemoEvent = e.expect("lazy event");
        match ev {
            DemoEvent::GameEvent(g) => match *g {
                GameEvent::BombPlanted(_) => {}
                _ => {}
            },
            _ => {}
        }
        n += 1;
    }
    assert_eq!(n, 0);
}
