//! The field-path edit operations and the Huffman-driven path run.

use cs2demo::bitreader::Bitreader;
use cs2demo::fieldpath::{ops, parse_paths};
use cs2demo::huffman::HuffmanTable;
use cs2demo::Paths;

struct BitWriter {
    bytes: Vec<u8>,
    used: u32,
}

impl BitWriter {
    fn new() -> Self {
        BitWriter {
            bytes: Vec::new(),
            used: 0,
        }
    }
    fn push_bits(&mut self, value: u64, n: u32) {
        for i in 0..n {
            let bit = (value >> i) & 1;
            if self.used % 8 == 0 {
                self.bytes.push(0);
            }
            let idx = self.bytes.len() - 1;
            self.bytes[idx] |= (bit as u8) << (self.used % 8);
            self.used += 1;
        }
    }
    fn reader(self) -> Bitreader {
        Bitreader::new(self.bytes)
    }
}

#[test]
fn initial_path_has_sentinel() {
    let p = Paths::new_path();
    assert_eq!(p.path, [-1, 0, 0, 0, 0, 0, 0]);
    assert_eq!(p.last, 0);
}

#[test]
fn plus_ops_adjust_the_tail() {
    let mut r = Bitreader::new(vec![]);
    let mut p = Paths::new_path();
    ops::plus_one(&mut r, &mut p).unwrap();
    assert_eq!((p.path[0], p.last), (0, 0));
    ops::plus_four(&mut r, &mut p).unwrap();
    assert_eq!(p.path[0], 4);
}

#[test]
fn plus_n_reads_an_operand() {
    // Unary prefix: first flag set, 2-bit payload 3; tail += 3 + 5.
    let mut w = BitWriter::new();
    w.push_bits(1, 1);
    w.push_bits(3, 2);
    let mut r = w.reader();
    let mut p = Paths::new_path();
    ops::plus_n(&mut r, &mut p).unwrap();
    assert_eq!(p.path[0], -1 + 3 + 5);
}

#[test]
fn pushes_grow_and_pops_shrink() {
    let mut r = Bitreader::new(vec![]);
    let mut p = Paths::new_path();
    ops::plus_one(&mut r, &mut p).unwrap();
    ops::push_one_left_delta_one_right_zero(&mut r, &mut p).unwrap();
    assert_eq!((p.path[0], p.path[1], p.last), (1, 0, 1));
    ops::plus_two(&mut r, &mut p).unwrap();
    assert_eq!(p.path[1], 2);
    ops::pop_one_plus_one(&mut r, &mut p).unwrap();
    assert_eq!((p.path[0], p.path[1], p.last), (2, 0, 0));
}

#[test]
fn push_past_capacity_is_malformed() {
    let mut r = Bitreader::new(vec![]);
    let mut p = Paths::new_path();
    for _ in 0..6 {
        ops::push_one_left_delta_zero_right_zero(&mut r, &mut p).unwrap();
    }
    assert_eq!(p.last, 6);
    assert!(ops::push_one_left_delta_zero_right_zero(&mut r, &mut p).is_err());
}

#[test]
fn pop_below_zero_is_malformed() {
    let mut r = Bitreader::new(vec![]);
    let mut p = Paths::new_path();
    assert!(ops::pop_one_plus_one(&mut r, &mut p).is_err());
}

#[test]
fn pack6_pushes_both_halves() {
    // 3 bits (+2) for the old tail, 3 bits (+1) for the new.
    let mut w = BitWriter::new();
    w.push_bits(5, 3);
    w.push_bits(2, 3);
    let mut r = w.reader();
    let mut p = Paths::new_path();
    ops::plus_one(&mut r, &mut p).unwrap();
    ops::push_one_left_delta_n_right_non_zero_pack6_bits(&mut r, &mut p).unwrap();
    assert_eq!((p.path[0], p.path[1], p.last), (7, 3, 1));
}

#[test]
fn paths_buffer_grows_and_keeps_order() {
    let mut paths = Paths::new();
    let mut a = Paths::new_path();
    a.path[0] = 4;
    paths.write(&a, 0);
    let mut b = Paths::new_path();
    b.path[0] = 9;
    paths.write(&b, 2);
    let stored = paths.paths();
    assert_eq!(stored.len(), 3);
    assert_eq!(stored[0].path[0], 4);
    assert_eq!(stored[1].path[0], -1);
    assert_eq!(stored[2].path[0], 9);
}

/// Finds the code of `symbol` by walking the built tree.
fn code_of(table: &HuffmanTable, symbol: u8) -> Option<(u64, u32)> {
    fn walk(table: &HuffmanTable, node: usize, symbol: u8, code: u64, len: u32) -> Option<(u64, u32)> {
        let n = &table.nodes[node];
        if n.is_leaf {
            if n.symbol == symbol {
                return Some((code, len));
            }
            return None;
        }
        // The 0 branch keeps the code; the 1 branch sets the next bit.
        if let Some(hit) = walk(table, n.zero, symbol, code, len + 1) {
            return Some(hit);
        }
        walk(table, n.one, symbol, code | (1 << len), len + 1)
    }
    walk(table, table.root, symbol, 0, 0)
}

#[test]
fn every_symbol_has_a_short_code() {
    let table = HuffmanTable::new();
    for sym in 0u8..=39 {
        let (_, len) = code_of(&table, sym).expect("symbol must be coded");
        assert!(len >= 1 && len <= 17, "symbol {sym} code length {len}");
    }
}

#[test]
fn decode_inverts_the_code() {
    let table = HuffmanTable::new();
    for sym in [0u8, 11, 27, 39] {
        let (code, len) = code_of(&table, sym).unwrap();
        let mut w = BitWriter::new();
        w.push_bits(code, len);
        let mut r = w.reader();
        assert_eq!(table.decode_symbol(&mut r).unwrap(), sym);
    }
}

#[test]
fn path_run_applies_ops_until_terminator() {
    let table = HuffmanTable::new();
    let (c_plus_one, l_plus_one) = code_of(&table, 0).unwrap();
    let (c_stop, l_stop) = code_of(&table, 39).unwrap();
    let mut w = BitWriter::new();
    // Two tail increments, then the terminator.
    w.push_bits(c_plus_one, l_plus_one);
    w.push_bits(c_plus_one, l_plus_one);
    w.push_bits(c_stop, l_stop);
    let mut r = w.reader();
    let mut paths = Paths::new();
    let n = parse_paths(&table, &mut r, &mut paths).unwrap();
    assert_eq!(n, 2);
    let stored = paths.paths();
    assert_eq!(stored[0].path[0], 0);
    assert_eq!(stored[1].path[0], 1);
}
