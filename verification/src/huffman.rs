//! The Huffman code over the 39 field-path edit operations and the
//! terminator symbol.  The code is rebuilt from the operations' fixed
//! frequency weights: repeatedly join the two lowest-weighted nodes
//! (breaking weight ties towards the higher node number), the earlier
//! take becoming the 0 branch.  Decoding walks the tree bit by bit; no
//! code is longer than 17 bits.

use crate::bitreader::Bitreader;
use crate::parser::FirstPassError;
use vstd::prelude::*;

verus! {

/// The terminator symbol: ends a path-edit run.
pub const TERMINATOR_SYMBOL: u8 = 39;

/// Frequency weight of each of the 40 symbols; zero-weight symbols are
/// raised to one so that every symbol receives a code.
fn symbol_weight(symbol: u8) -> (w: u64)
    requires
        symbol <= 39,
    ensures
        1 <= w <= 40000,
{
    match symbol {
        0 => 36271,
        1 => 10334,
        2 => 1375,
        3 => 646,
        4 => 4128,
        5 => 35,
        6 => 3,
        7 => 521,
        8 => 2942,
        9 => 560,
        10 => 471,
        11 => 10530,
        12 => 251,
        26 => 310,
        27 => 2,
        29 => 1837,
        30 => 149,
        31 => 300,
        32 => 634,
        35 => 1,
        36 => 76,
        37 => 271,
        38 => 99,
        39 => 25474,
        _ => 1,
    }
}

/// One node of the built code tree.  Leaves carry a symbol; inner nodes
/// point at strictly earlier entries, so every walk descends.
pub struct HuffNode {
    pub weight: u64,
    pub value: u32,
    pub symbol: u8,
    pub is_leaf: bool,
    pub zero: usize,
    pub one: usize,
}

/// The built code tree.
pub struct HuffmanTable {
    pub nodes: Vec<HuffNode>,
    pub root: usize,
}

/// The symbol a bit position decodes to under the code tree, with the
/// position just past the code: one bit per inner node until a leaf.
pub open spec fn spec_walk(nodes: Seq<HuffNode>, node: int, data: Seq<u8>, pos: int) -> Option<
    (u8, int),
>
    decreases node,
{
    if !(0 <= node < nodes.len()) {
        None
    } else if nodes[node].is_leaf {
        Some((nodes[node].symbol, pos))
    } else if !(nodes[node].zero < node && nodes[node].one < node) {
        None
    } else if pos < 0 || pos >= data.len() * 8 {
        None
    } else if crate::bitreader::bit_at(data, pos) == 1 {
        spec_walk(nodes, nodes[node].one as int, data, pos + 1)
    } else {
        spec_walk(nodes, nodes[node].zero as int, data, pos + 1)
    }
}

impl HuffmanTable {
    /// Every inner node's children come earlier in the vector, and every
    /// leaf names a real symbol.
    pub open spec fn wf(&self) -> bool {
        &&& self.root < self.nodes@.len()
        &&& forall|j: int|
            0 <= j < self.nodes@.len() ==> (#[trigger] self.nodes@[j].is_leaf
                || (self.nodes@[j].zero < j && self.nodes@[j].one < j))
        &&& forall|j: int|
            0 <= j < self.nodes@.len() ==> (self.nodes@[j].is_leaf ==> #[trigger] self.nodes@[j].symbol
                <= 39)
    }

    /// Builds the code tree from the fixed weights.
    pub fn new() -> (r: HuffmanTable)
        ensures
            r.wf(),
    {
        let mut nodes: Vec<HuffNode> = Vec::new();
        let mut sym: u8 = 0;
        while sym <= 39
            invariant
                sym <= 40,
                nodes@.len() == sym,
                forall|j: int| 0 <= j < nodes@.len() ==> (#[trigger] nodes@[j]).is_leaf,
                forall|j: int|
                    0 <= j < nodes@.len() ==> (#[trigger] nodes@[j]).symbol <= 39,
            decreases 40 - sym,
        {
            let w = symbol_weight(sym);
            nodes.push(
                HuffNode { weight: w, value: sym as u32, symbol: sym, is_leaf: true, zero: 0, one: 0 },
            );
            sym = sym + 1;
        }
        // Active queue of tree roots, as indices into `nodes`.
        let mut active: Vec<usize> = Vec::new();
        let mut i: usize = 0;
        while i < 40
            invariant
                i <= 40,
                nodes@.len() == 40,
                active@.len() == i,
                forall|j: int| 0 <= j < active@.len() ==> #[trigger] active@[j] < nodes@.len(),
            decreases 40 - i,
        {
            active.push(i);
            i = i + 1;
        }
        let mut next_value: u32 = 40;
        while active.len() > 1
            invariant
                1 <= active@.len(),
                forall|j: int| 0 <= j < active@.len() ==> #[trigger] active@[j] < nodes@.len(),
                forall|j: int|
                    0 <= j < nodes@.len() ==> ((#[trigger] nodes@[j]).is_leaf || (nodes@[j].zero < j
                        && nodes@[j].one < j)),
                forall|j: int|
                    0 <= j < nodes@.len() ==> ((#[trigger] nodes@[j]).is_leaf ==> nodes@[j].symbol
                        <= 39),
            decreases active@.len(),
        {
            let first_pos = Self::lowest(&nodes, &active, usize::MAX);
            let first = active[first_pos];
            let second_pos = Self::lowest(&nodes, &active, first_pos);
            let second = active[second_pos];
            let wa = nodes[first].weight;
            let wb = nodes[second].weight;
            let w = if wa <= u64::MAX - wb {
                wa + wb
            } else {
                u64::MAX
            };
            let idx = nodes.len();
            nodes.push(
                HuffNode {
                    weight: w,
                    value: next_value,
                    symbol: 0,
                    is_leaf: false,
                    zero: first,
                    one: second,
                },
            );
            if next_value < u32::MAX {
                next_value = next_value + 1;
            }
            // Remove the larger position first so the other stays put.
            if first_pos > second_pos {
                active.remove(first_pos);
                active.remove(second_pos);
            } else {
                active.remove(second_pos);
                active.remove(first_pos);
            }
            active.push(idx);
        }
        let root = active[0];
        HuffmanTable { nodes, root }
    }

    /// Position of the highest-priority root in `active`: least weight,
    /// ties towards the greater node value; `skip` is left out.
    fn lowest(nodes: &Vec<HuffNode>, active: &Vec<usize>, skip: usize) -> (r: usize)
        requires
            active@.len() >= 2 || (active@.len() >= 1 && skip >= active@.len()),
            forall|j: int| 0 <= j < active@.len() ==> #[trigger] active@[j] < nodes@.len(),
        ensures
            r < active@.len(),
            r != skip,
    {
        let mut best: usize = if skip == 0 {
            1
        } else {
            0
        };
        let mut j: usize = 0;
        while j < active.len()
            invariant
                best < active@.len(),
                best != skip,
                active@.len() >= 1,
                forall|k: int| 0 <= k < active@.len() ==> #[trigger] active@[k] < nodes@.len(),
            decreases active@.len() - j,
        {
            if j != skip {
                let nb = &nodes[active[best]];
                let nj = &nodes[active[j]];
                if nj.weight < nb.weight || (nj.weight == nb.weight && nj.value > nb.value) {
                    best = j;
                }
            }
            j = j + 1;
        }
        best
    }

    /// Decodes one symbol by walking the tree on the next bits; consumes
    /// exactly the code's bits, between 1 and 17 of them.
    pub fn decode_symbol(&self, reader: &mut Bitreader) -> (r: Result<u8, FirstPassError>)
        requires
            self.wf(),
            old(reader).wf(),
        ensures
            final (reader).wf(),
            final (reader).data@ == old(reader).data@,
            final (reader).pos >= old(reader).pos,
            match r {
                Ok(sym) => {
                    &&& sym <= 39
                    &&& old(reader).pos < final (reader).pos <= old(reader).pos + 17
                    &&& spec_walk(
                        self.nodes@,
                        self.root as int,
                        old(reader).data@,
                        old(reader).pos as int,
                    ) == Some((sym, final (reader).pos as int))
                },
                Err(_) => true,
            },
    {
        let mut node: usize = self.root;
        let mut steps: u32 = 0;
        while steps < 17
            invariant
                self.wf(),
                reader.wf(),
                reader.data@ == old(reader).data@,
                node < self.nodes@.len(),
                old(reader).pos + steps == reader.pos,
                steps <= 17,
                steps > 0 ==> !self.nodes@[node as int].is_leaf || reader.pos > old(reader).pos,
                spec_walk(
                    self.nodes@,
                    self.root as int,
                    old(reader).data@,
                    old(reader).pos as int,
                ) == spec_walk(self.nodes@, node as int, old(reader).data@, reader.pos as int),
            decreases 17 - steps,
        {
            if self.nodes[node].is_leaf && steps > 0 {
                return Ok(self.nodes[node].symbol);
            }
            if self.nodes[node].is_leaf {
                // A one-node tree cannot arise from 40 symbols; treat a
                // zero-length code as malformed rather than loop.
                return Err(FirstPassError::MalformedPath);
            }
            let ghost prev = node as int;
            let ghost prev_pos = reader.pos as int;
            let bit = match reader.read_boolean() {
                Ok(b) => b,
                Err(e) => {
                    return Err(FirstPassError::Bitreader(e));
                },
            };
            node = if bit {
                self.nodes[node].one
            } else {
                self.nodes[node].zero
            };
            proof {
                assert(!self.nodes@[prev].is_leaf);
                assert(self.nodes@[prev].zero < prev && self.nodes@[prev].one < prev);
                assert(0 <= prev_pos < old(reader).data@.len() * 8);
                assert(spec_walk(self.nodes@, prev, old(reader).data@, prev_pos) == spec_walk(
                    self.nodes@,
                    node as int,
                    old(reader).data@,
                    prev_pos + 1,
                ));
            }
            steps = steps + 1;
        }
        if self.nodes[node].is_leaf {
            return Ok(self.nodes[node].symbol);
        }
        Err(FirstPassError::MalformedPath)
    }
}

} // verus!
