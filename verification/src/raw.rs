use vstd::prelude::*;

verus! {

/// A tile identifier exactly as it appears in the wire document.
#[derive(Debug, Clone, Copy, PartialEq, Eq, Structural)]
pub struct Tile(pub u8);

/// One take or discard event of a seat: either a plain tile code or a
/// call/annotation written as text in the wire document.
#[derive(Debug, Clone, PartialEq, Eq)]
pub enum ActionItem {
    Tile(Tile),
    Naki(String),
}

/// Round metadata: round number, repeat counter and riichi stick count.
#[derive(Debug, Clone, Copy, PartialEq, Eq, Structural)]
pub struct KyokuMeta {
    pub kyoku_num: u8,
    pub honba: u8,
    pub kyotaku: u8,
}

/// The rule block of the document: a free display text and the four
/// special-tile counters.
#[derive(Debug, Clone)]
pub struct Rule {
    pub disp: String,
    pub aka: u32,
    pub aka51: u32,
    pub aka52: u32,
    pub aka53: u32,
}

/// An entry of a winner/target descriptor array: either a non-negative
/// integer, or any other wire value (annotation text and the like).
#[derive(Debug, Clone, Copy, PartialEq, Eq, Structural)]
pub enum RawValue {
    Int(u64),
    Other,
}

/// One element of a round's heterogeneous result array.
#[derive(Debug, Clone, PartialEq)]
pub enum ResultItem {
    Status(String),
    ScoreDeltas([i32; 4]),
    HoraDetail(Vec<RawValue>),
}

/// One raw round entry: metadata, scoreboard, indicator lists, the
/// per-seat parallel lists keyed by positional suffix, and the result array.
#[derive(Debug, Clone)]
pub struct RawKyoku {
    pub meta: KyokuMeta,
    pub scoreboard: [i32; 4],
    pub dora_indicators: Vec<Tile>,
    pub ura_indicators: Vec<Tile>,
    pub haipai_0: Vec<Tile>,
    pub takes_0: Vec<ActionItem>,
    pub discards_0: Vec<ActionItem>,
    pub haipai_1: Vec<Tile>,
    pub takes_1: Vec<ActionItem>,
    pub discards_1: Vec<ActionItem>,
    pub haipai_2: Vec<Tile>,
    pub takes_2: Vec<ActionItem>,
    pub discards_2: Vec<ActionItem>,
    pub haipai_3: Vec<Tile>,
    pub takes_3: Vec<ActionItem>,
    pub discards_3: Vec<ActionItem>,
    pub results: Vec<ResultItem>,
}

/// The whole raw document: the rounds in document order, the four player
/// names and the rule block.
#[derive(Debug, Clone)]
pub struct RawLog {
    pub logs: Vec<RawKyoku>,
    pub names: [String; 4],
    pub rule: Rule,
}

} // verus!
