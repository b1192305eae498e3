//! End-to-end passes over a synthetic demo: the eager pass, the lazy
//! iterators, and their agreement on the same input.

use cs2demo::gameevent::GameEvent;
use cs2demo::parser;
use cs2demo::{Container, DemoEvent, EntityFilter, LazyParser, UserId};

fn pb_varint(out: &mut Vec<u8>, mut v: u64) {
    loop {
        let b = (v & 0x7f) as u8;
        v >>= 7;
        if v == 0 {
            out.push(b);
            return;
        }
        out.push(b | 0x80);
    }
}

fn pb_varint_field(out: &mut Vec<u8>, field: u64, v: u64) {
    pb_varint(out, field << 3);
    pb_varint(out, v);
}

fn pb_bytes_field(out: &mut Vec<u8>, field: u64, data: &[u8]) {
    pb_varint(out, (field << 3) | 2);
    pb_varint(out, data.len() as u64);
    out.extend_from_slice(data);
}

struct BitWriter {
    bytes: Vec<u8>,
    used: u32,
}

impl BitWriter {
    fn new() -> Self {
        BitWriter {
            bytes: Vec::new(),
            used: 0,
        }
    }
    fn push_bits(&mut self, value: u64, n: u32) {
        for i in 0..n {
            let bit = (value >> i) & 1;
            if self.used % 8 == 0 {
                self.bytes.push(0);
            }
            let idx = self.bytes.len() - 1;
            self.bytes[idx] |= (bit as u8) << (self.used % 8);
            self.used += 1;
        }
    }
    fn push_ubitvar(&mut self, v: u32) {
        if v < 16 {
            self.push_bits(v as u64, 6);
        } else if (v >> 4) < 16 {
            self.push_bits(((0b01 << 4) | (v & 15)) as u64, 6);
            self.push_bits((v >> 4) as u64, 4);
        } else if (v >> 4) < 256 {
            self.push_bits(((0b10 << 4) | (v & 15)) as u64, 6);
            self.push_bits((v >> 4) as u64, 8);
        } else {
            self.push_bits(((0b11 << 4) | (v & 15)) as u64, 6);
            self.push_bits((v >> 4) as u64, 28);
        }
    }
    fn push_message(&mut self, msg_type: u32, payload: &[u8]) {
        self.push_ubitvar(msg_type);
        let mut len = Vec::new();
        pb_varint(&mut len, payload.len() as u64);
        for b in len {
            self.push_bits(b as u64, 8);
        }
        for b in payload {
            self.push_bits(*b as u64, 8);
        }
    }
    fn finish(self) -> Vec<u8> {
        self.bytes
    }
}

fn frame(cmd: u64, tick: u64, payload: &[u8]) -> Vec<u8> {
    let mut out = Vec::new();
    pb_varint(&mut out, cmd);
    pb_varint(&mut out, tick);
    pb_varint(&mut out, payload.len() as u64);
    out.extend_from_slice(payload);
    out
}

fn container(frames: &[Vec<u8>]) -> Vec<u8> {
    let mut inner = Vec::new();
    for f in frames {
        inner.extend_from_slice(f);
    }
    let mut out = Vec::new();
    out.extend_from_slice(b"PBDEMS2\0");
    out.extend_from_slice(&((inner.len() as u32).saturating_sub(2)).to_le_bytes());
    out.extend_from_slice(&[0, 0, 0, 0]);
    out.extend_from_slice(&inner);
    out
}

fn tick_msg(tick: u64) -> Vec<u8> {
    let mut m = Vec::new();
    pb_varint_field(&mut m, 1, tick);
    m
}

fn event_list_msg() -> Vec<u8> {
    // Descriptor 9: bomb_planted with no keys.
    let mut d1 = Vec::new();
    pb_varint_field(&mut d1, 1, 9);
    pb_bytes_field(&mut d1, 2, b"bomb_planted");
    // Descriptor 4: player_jump with a short-typed userid key.
    let mut key = Vec::new();
    pb_varint_field(&mut key, 1, 9);
    pb_bytes_field(&mut key, 2, b"userid");
    let mut d2 = Vec::new();
    pb_varint_field(&mut d2, 1, 4);
    pb_bytes_field(&mut d2, 2, b"player_jump");
    pb_bytes_field(&mut d2, 3, &key);
    let mut m = Vec::new();
    pb_bytes_field(&mut m, 1, &d1);
    pb_bytes_field(&mut m, 1, &d2);
    m
}

fn event_msg(eventid: u64, short_val: Option<u64>) -> Vec<u8> {
    let mut m = Vec::new();
    pb_varint_field(&mut m, 2, eventid);
    if let Some(v) = short_val {
        let mut k = Vec::new();
        pb_varint_field(&mut k, 1, 9);
        pb_varint_field(&mut k, 5, v);
        pb_bytes_field(&mut m, 3, &k);
    }
    m
}

fn end_of_match_msg() -> Vec<u8> {
    let mut p = Vec::new();
    pb_varint_field(&mut p, 1, 2);
    pb_varint_field(&mut p, 2, 3);
    pb_bytes_field(&mut p, 3, b"bob");
    pb_varint_field(&mut p, 4, 77);
    pb_varint_field(&mut p, 5, 1);
    let mut m = Vec::new();
    pb_bytes_field(&mut m, 1, &p);
    m
}

fn synthetic_demo() -> Vec<u8> {
    let mut header = Vec::new();
    pb_varint_field(&mut header, 2, 13);
    pb_bytes_field(&mut header, 5, b"de_test");

    let mut info = Vec::new();
    pb_varint_field(&mut info, 2, 42);

    let mut w = BitWriter::new();
    w.push_message(205, &event_list_msg());
    w.push_message(4, &tick_msg(100));
    w.push_message(207, &event_msg(9, None));
    w.push_message(4, &tick_msg(200));
    w.push_message(207, &event_msg(4, Some(7)));
    w.push_message(375, &end_of_match_msg());
    let mut packet = Vec::new();
    pb_bytes_field(&mut packet, 3, &w.finish());

    container(&[
        frame(1, 0, &header),
        frame(7, 1, &packet),
        frame(2, 2, &info),
        frame(0, 3, &[]),
    ])
}

fn event_shape(e: &DemoEvent) -> String {
    match e {
        DemoEvent::Tick(t) => format!("tick:{}", t.tick),
        DemoEvent::ServerInfo(s) => format!("serverinfo:{}", s.protocol),
        DemoEvent::RankUpdate(r) => format!("rankupdate:{}", r.rank_update.len()),
        DemoEvent::RankReveal(_) => "rankreveal".to_string(),
        DemoEvent::GameEvent(g) => match &**g {
            GameEvent::BombPlanted(_) => "bomb_planted".to_string(),
            GameEvent::PlayerJump(j) => format!("player_jump:{:?}", j.userid),
            _ => "other".to_string(),
        },
    }
}

#[test]
fn eager_pass_collects_everything() {
    let demo = synthetic_demo();
    let c = Container::parse(&demo).unwrap();
    let out = parser::parse(&c.inner, EntityFilter::all()).unwrap();
    assert_eq!(out.header.map_name, b"de_test");
    assert_eq!(out.header.network_protocol, 13);
    assert_eq!(out.info.playback_ticks, 42);
    let shapes: Vec<String> = out.events.iter().map(event_shape).collect();
    assert_eq!(
        shapes,
        vec![
            "tick:100",
            "bomb_planted",
            "tick:200",
            "player_jump:Some(7)"
        ]
    );
    assert_eq!(out.player_info.len(), 1);
    assert_eq!(out.player_info[0].0, UserId(2));
    assert_eq!(out.player_info[0].1.name, b"bob");
    assert_eq!(out.player_info[0].1.xuid, 77);
    assert_eq!(out.player_info[0].1.team, 3);
    assert_eq!(out.player_info[0].1.color, 1);
}

#[test]
fn tick_markers_stay_monotone() {
    let demo = synthetic_demo();
    let c = Container::parse(&demo).unwrap();
    let out = parser::parse(&c.inner, EntityFilter::all()).unwrap();
    let mut last = 0u32;
    for e in &out.events {
        if let DemoEvent::Tick(t) = e {
            assert!(t.tick >= last);
            last = t.tick;
        }
    }
}

#[test]
fn backwards_tick_is_an_error() {
    let mut header = Vec::new();
    pb_bytes_field(&mut header, 5, b"m");
    let mut info = Vec::new();
    pb_varint_field(&mut info, 2, 1);
    let mut w = BitWriter::new();
    w.push_message(4, &tick_msg(200));
    w.push_message(4, &tick_msg(100));
    let mut packet = Vec::new();
    pb_bytes_field(&mut packet, 3, &w.finish());
    let demo = container(&[frame(1, 0, &header), frame(7, 1, &packet), frame(2, 2, &info)]);
    let c = Container::parse(&demo).unwrap();
    match parser::parse(&c.inner, EntityFilter::all()) {
        Err(parser::FirstPassError::NonMonotonicTick) => {}
        other => panic!("unexpected: {:?}", other.map(|_| ())),
    }
}

#[test]
fn missing_header_and_info_are_reported() {
    let demo = container(&[frame(0, 0, &[])]);
    let c = Container::parse(&demo).unwrap();
    match parser::parse(&c.inner, EntityFilter::all()) {
        Err(parser::FirstPassError::MissingFileHeader) => {}
        other => panic!("unexpected: {:?}", other.map(|_| ())),
    }
    let mut header = Vec::new();
    pb_bytes_field(&mut header, 5, b"m");
    let demo = container(&[frame(1, 0, &header)]);
    let c = Container::parse(&demo).unwrap();
    match parser::parse(&c.inner, EntityFilter::all()) {
        Err(parser::FirstPassError::MissingFileInfo) => {}
        other => panic!("unexpected: {:?}", other.map(|_| ())),
    }
}

#[test]
fn lazy_views_match_the_eager_pass() {
    let demo = synthetic_demo();
    let c = Container::parse(&demo).unwrap();
    let eager = parser::parse(&c.inner, EntityFilter::all()).unwrap();

    let c2 = Container::parse(&demo).unwrap();
    let lazy = LazyParser::new(c2);

    let header = lazy.file_header().unwrap();
    assert_eq!(header.map_name, eager.header.map_name);
    let info = lazy.file_info().unwrap();
    assert_eq!(info.playback_ticks, eager.info.playback_ticks);

    let mut lazy_events = Vec::new();
    let mut it = lazy.events();
    while let Some(e) = it.next() {
        lazy_events.push(e.expect("lazy event"));
    }
    let eager_shapes: Vec<String> = eager.events.iter().map(event_shape).collect();
    let lazy_shapes: Vec<String> = lazy_events.iter().map(event_shape).collect();
    assert_eq!(eager_shapes, lazy_shapes);

    let players = lazy.player_info();
    assert_eq!(players.len(), eager.player_info.len());
    assert_eq!(players[0].0, eager.player_info[0].0);
    assert_eq!(players[0].1.name, eager.player_info[0].1.name);
    assert_eq!(players[0].1.xuid, eager.player_info[0].1.xuid);

    // No entity data in this stream: the lazy entity view is empty.
    let mut ents = lazy.entities();
    assert!(ents.next().is_none());
}

#[test]
fn compressed_frame_payloads_are_inflated() {
    let mut info = Vec::new();
    pb_varint_field(&mut info, 2, 42);
    let compressed = snap::raw::Encoder::new().compress_vec(&info).unwrap();
    let mut header = Vec::new();
    pb_bytes_field(&mut header, 5, b"m");
    let demo = container(&[
        frame(1, 0, &header),
        frame(2 | 64, 0, &compressed),
    ]);
    let c = Container::parse(&demo).unwrap();
    let out = parser::parse(&c.inner, EntityFilter::all()).unwrap();
    assert_eq!(out.info.playback_ticks, 42);
}
