//! Candlestick pattern registry, match bookkeeping and pattern rules.
//!
//! The rules here decide which patterns match at a bar from the comparisons
//! of that bar with its neighbours and with the rolling body/range averages
//! ([`CandleSignals`]); the comparisons themselves are made on prices by the
//! caller.

use vstd::prelude::*;

use crate::error::IndicatorError;
use crate::indicator::check_aligned_inputs;
use crate::text::str_equal;

verus! {

/// Bitset type used to combine candlestick pattern matches.
pub type CandleSet = u64;

/// No candlestick patterns matched.
pub const TC_NONE: CandleSet = 0;

/// All supported candlestick patterns.
pub const TC_ALL: CandleSet = 0x3ff_ffff;

pub const TC_ABANDONED_BABY_BEAR: CandleSet = 0x1;

pub const TC_ABANDONED_BABY_BULL: CandleSet = 0x2;

pub const TC_BIG_BLACK_CANDLE: CandleSet = 0x4;

pub const TC_BIG_WHITE_CANDLE: CandleSet = 0x8;

pub const TC_BLACK_MARUBOZU: CandleSet = 0x10;

pub const TC_DOJI: CandleSet = 0x20;

pub const TC_DRAGONFLY_DOJI: CandleSet = 0x40;

pub const TC_ENGULFING_BEAR: CandleSet = 0x80;

pub const TC_ENGULFING_BULL: CandleSet = 0x100;

pub const TC_EVENING_DOJI_STAR: CandleSet = 0x200;

pub const TC_EVENING_STAR: CandleSet = 0x400;

pub const TC_FOUR_PRICE_DOJI: CandleSet = 0x800;

pub const TC_GRAVESTONE_DOJI: CandleSet = 0x1000;

pub const TC_HAMMER: CandleSet = 0x2000;

pub const TC_HANGING_MAN: CandleSet = 0x4000;

pub const TC_INVERTED_HAMMER: CandleSet = 0x8000;

pub const TC_LONG_LEGGED_DOJI: CandleSet = 0x1_0000;

pub const TC_MARUBOZU: CandleSet = 0x2_0000;

pub const TC_MORNING_DOJI_STAR: CandleSet = 0x4_0000;

pub const TC_MORNING_STAR: CandleSet = 0x8_0000;

pub const TC_SHOOTING_STAR: CandleSet = 0x10_0000;

pub const TC_SPINNING_TOP: CandleSet = 0x20_0000;

pub const TC_STAR: CandleSet = 0x40_0000;

pub const TC_THREE_BLACK_CROWS: CandleSet = 0x80_0000;

pub const TC_THREE_WHITE_SOLDIERS: CandleSet = 0x100_0000;

pub const TC_WHITE_MARUBOZU: CandleSet = 0x200_0000;

/// One candle pattern hit at a specific index.
#[derive(Debug, Clone, Copy, PartialEq, Eq, Structural)]
pub struct CandleHit {
    /// Zero-based input index where the pattern matched.
    pub index: usize,
    /// Bitset of matching patterns at this index.
    pub patterns: CandleSet,
}

/// Hits listed in strictly increasing index order.
pub open spec fn hits_sorted(hits: Seq<CandleHit>) -> bool {
    forall|a: int, b: int| 0 <= a < b < hits.len() ==> #[trigger] hits[a].index < #[trigger] hits[b].index
}

/// The pattern bitset recorded at source index `index` (none when absent).
pub open spec fn patterns_at(hits: Seq<CandleHit>, index: usize) -> CandleSet
    decreases hits.len(),
{
    if hits.len() == 0 {
        0
    } else if hits.last().index == index {
        hits.last().patterns
    } else {
        patterns_at(hits.drop_last(), index)
    }
}

/// With no hit at `index`, nothing is recorded there.
proof fn lemma_patterns_at_absent(hits: Seq<CandleHit>, index: usize)
    requires
        forall|k: int| 0 <= k < hits.len() ==> #[trigger] hits[k].index != index,
    ensures
        patterns_at(hits, index) == 0,
    decreases hits.len(),
{
    if hits.len() > 0 {
        assert(hits.last().index != index);
        let rest = hits.drop_last();
        assert forall|k: int| 0 <= k < rest.len() implies #[trigger] rest[k].index != index by {
            assert(rest[k] == hits[k]);
        }
        lemma_patterns_at_absent(rest, index);
    }
}

/// In sorted hits, the hit carrying `index` is the one recorded there.
proof fn lemma_patterns_at_found(hits: Seq<CandleHit>, k: int)
    requires
        hits_sorted(hits),
        0 <= k < hits.len(),
    ensures
        patterns_at(hits, hits[k].index) == hits[k].patterns,
    decreases hits.len(),
{
    if k < hits.len() - 1 {
        assert(hits[k].index < hits[hits.len() - 1].index);
        let rest = hits.drop_last();
        assert(rest[k] == hits[k]);
        assert(hits_sorted(rest));
        lemma_patterns_at_found(rest, k);
    }
}

/// Collected candlestick matches for a run.
#[derive(Debug, Clone, PartialEq, Eq)]
pub struct CandleResult {
    hits: Vec<CandleHit>,
    pattern_count: usize,
}

impl CandleResult {
    /// Hits are kept in strictly increasing index order.
    pub closed spec fn wf(self) -> bool {
        hits_sorted(self.hits@)
    }

    /// The hits in match order.
    pub closed spec fn spec_hits(self) -> Seq<CandleHit> {
        self.hits@
    }

    /// The total number of pattern hits recorded.
    pub closed spec fn spec_pattern_count(self) -> nat {
        self.pattern_count as nat
    }

    /// The bitset recorded at a source index.
    pub open spec fn spec_at(self, index: usize) -> CandleSet {
        patterns_at(self.spec_hits(), index)
    }

    /// Create an empty result set.
    pub fn new() -> (r: Self)
        ensures
            r.wf(),
            r.spec_hits() == Seq::<CandleHit>::empty(),
            r.spec_pattern_count() == 0,
    {
        CandleResult { hits: Vec::new(), pattern_count: 0 }
    }

    /// Return the number of matched indices.
    pub fn count(&self) -> (r: usize)
        ensures
            r == self.spec_hits().len(),
    {
        self.hits.len()
    }

    /// Return the total number of pattern hits, including repeated hits at one index.
    pub fn pattern_count(&self) -> (r: usize)
        ensures
            r == self.spec_pattern_count(),
    {
        self.pattern_count
    }

    /// Return the hit at `index` in match order.
    pub fn get(&self, index: usize) -> (r: Option<CandleHit>)
        ensures
            index < self.spec_hits().len() ==> r == Some(self.spec_hits()[index as int]),
            index >= self.spec_hits().len() ==> r is None,
    {
        if index < self.hits.len() {
            Some(self.hits[index])
        } else {
            None
        }
    }

    /// Return the pattern bitset at a source index.
    pub fn at(&self, index: usize) -> (r: CandleSet)
        requires
            self.wf(),
        ensures
            r == self.spec_at(index),
    {
        let mut lo: usize = 0;
        let mut hi: usize = self.hits.len();
        while lo < hi
            invariant
                0 <= lo <= hi <= self.hits@.len(),
                hits_sorted(self.hits@),
                forall|k: int| 0 <= k < lo ==> #[trigger] self.hits@[k].index < index,
                forall|k: int| hi <= k < self.hits@.len() ==> #[trigger] self.hits@[k].index > index,
            decreases hi - lo,
        {
            let mid = lo + (hi - lo) / 2;
            let probe = self.hits[mid].index;
            if probe == index {
                proof {
                    lemma_patterns_at_found(self.hits@, mid as int);
                }
                return self.hits[mid].patterns;
            } else if probe < index {
                lo = mid + 1;
            } else {
                hi = mid;
            }
        }
        proof {
            assert forall|k: int| 0 <= k < self.hits@.len() implies #[trigger] self.hits@[k].index
                != index by {
                if k < lo {
                } else {
                }
            }
            lemma_patterns_at_absent(self.hits@, index);
        }
        TC_NONE
    }

    /// The matched indices in order.
    pub fn iter(&self) -> (r: Vec<CandleHit>)
        ensures
            r@ == self.spec_hits(),
    {
        self.hits.clone()
    }

    /// Record that `pattern` matched at `index`; hits at the same index merge.
    pub fn add(&mut self, index: usize, pattern: CandleSet)
        requires
            old(self).wf(),
            old(self).spec_pattern_count() < usize::MAX,
            old(self).spec_hits().len() > 0 ==> old(self).spec_hits().last().index <= index,
        ensures
            final(self).wf(),
            final(self).spec_pattern_count() == old(self).spec_pattern_count() + 1,
            final(self).spec_at(index) == old(self).spec_at(index) | pattern,
            forall|j: usize| j != index ==> #[trigger] final(self).spec_at(j) == old(self).spec_at(j),
            final(self).spec_hits().len() > 0,
            final(self).spec_hits().last().index == index,
            old(self).spec_hits().len() > 0 && old(self).spec_hits().last().index == index
                ==> final(self).spec_hits() == old(self).spec_hits().update(
                old(self).spec_hits().len() - 1,
                CandleHit { index, patterns: old(self).spec_hits().last().patterns | pattern },
            ),
            !(old(self).spec_hits().len() > 0 && old(self).spec_hits().last().index == index)
                ==> final(self).spec_hits() == old(self).spec_hits().push(
                CandleHit { index, patterns: pattern },
            ),
    {
        let ghost before = self.hits@;
        self.pattern_count = self.pattern_count + 1;
        let n = self.hits.len();
        if n > 0 && self.hits[n - 1].index == index {
            let last = self.hits[n - 1];
            let merged = CandleHit { index, patterns: last.patterns | pattern };
            self.hits.set(n - 1, merged);
            proof {
                let after = self.hits@;
                assert(after.drop_last() =~= before.drop_last());
                assert forall|j: usize| j != index implies #[trigger] patterns_at(after, j)
                    == patterns_at(before, j) by {
                }
            }
        } else {
            self.hits.push(CandleHit { index, patterns: pattern });
            proof {
                let after = self.hits@;
                assert(after.drop_last() =~= before);
                assert forall|k: int| 0 <= k < before.len() implies #[trigger] before[k].index
                    != index by {
                    if k < before.len() - 1 {
                        assert(before[k].index < before[before.len() - 1].index);
                    }
                }
                lemma_patterns_at_absent(before, index);
                assert(0u64 | pattern == pattern) by (bit_vector);
                assert forall|j: usize| j != index implies #[trigger] patterns_at(after, j)
                    == patterns_at(before, j) by {
                }
            }
        }
    }
}

impl Default for CandleResult {
    /// The empty result set, as [`CandleResult::new`] makes it.
    fn default() -> (r: Self)
        ensures
            r.wf(),
            r.spec_hits() == Seq::<CandleHit>::empty(),
            r.spec_pattern_count() == 0,
    {
        CandleResult::new()
    }
}

/// Metadata describing a named candlestick pattern.
#[derive(Debug, Clone, Copy, PartialEq, Eq)]
pub struct CandleInfo {
    /// Lowercase registry name.
    pub name: &'static str,
    /// Human-readable name.
    pub full_name: &'static str,
    /// Bitset value used to represent the pattern.
    pub pattern: CandleSet,
}

/// Number of supported candlestick patterns.
pub open spec fn spec_candle_count() -> int {
    26
}

/// The candle registry, in name order (which is also bit order).
pub open spec fn spec_candles() -> Seq<CandleInfo> {
    seq![
        CandleInfo { name: "abandoned_baby_bear", full_name: "Abandoned Baby Bear", pattern: TC_ABANDONED_BABY_BEAR },
        CandleInfo { name: "abandoned_baby_bull", full_name: "Abandoned Baby Bull", pattern: TC_ABANDONED_BABY_BULL },
        CandleInfo { name: "big_black_candle", full_name: "Big Black Candle", pattern: TC_BIG_BLACK_CANDLE },
        CandleInfo { name: "big_white_candle", full_name: "Big White Candle", pattern: TC_BIG_WHITE_CANDLE },
        CandleInfo { name: "black_marubozu", full_name: "Black Marubozu", pattern: TC_BLACK_MARUBOZU },
        CandleInfo { name: "doji", full_name: "Doji", pattern: TC_DOJI },
        CandleInfo { name: "dragonfly_doji", full_name: "Dragonfly Doji", pattern: TC_DRAGONFLY_DOJI },
        CandleInfo { name: "engulfing_bear", full_name: "Engulfing Bear", pattern: TC_ENGULFING_BEAR },
        CandleInfo { name: "engulfing_bull", full_name: "Engulfing Bull", pattern: TC_ENGULFING_BULL },
        CandleInfo { name: "evening_doji_star", full_name: "Evening Doji Star", pattern: TC_EVENING_DOJI_STAR },
        CandleInfo { name: "evening_star", full_name: "Evening Star", pattern: TC_EVENING_STAR },
        CandleInfo { name: "four_price_doji", full_name: "Four Price Doji", pattern: TC_FOUR_PRICE_DOJI },
        CandleInfo { name: "gravestone_doji", full_name: "Gravestone Doji", pattern: TC_GRAVESTONE_DOJI },
        CandleInfo { name: "hammer", full_name: "Hammer", pattern: TC_HAMMER },
        CandleInfo { name: "hanging_man", full_name: "Hanging Man", pattern: TC_HANGING_MAN },
        CandleInfo { name: "inverted_hammer", full_name: "Inverted Hammer", pattern: TC_INVERTED_HAMMER },
        CandleInfo { name: "long_legged_doji", full_name: "Long Legged Doji", pattern: TC_LONG_LEGGED_DOJI },
        CandleInfo { name: "marubozu", full_name: "Marubozu", pattern: TC_MARUBOZU },
        CandleInfo { name: "morning_doji_star", full_name: "Morning Doji Star", pattern: TC_MORNING_DOJI_STAR },
        CandleInfo { name: "morning_star", full_name: "Morning Star", pattern: TC_MORNING_STAR },
        CandleInfo { name: "shooting_star", full_name: "Shooting Star", pattern: TC_SHOOTING_STAR },
        CandleInfo { name: "spinning_top", full_name: "Spinning Top", pattern: TC_SPINNING_TOP },
        CandleInfo { name: "star", full_name: "Star", pattern: TC_STAR },
        CandleInfo { name: "three_black_crows", full_name: "Three Black Crows", pattern: TC_THREE_BLACK_CROWS },
        CandleInfo { name: "three_white_soldiers", full_name: "Three White Soldiers", pattern: TC_THREE_WHITE_SOLDIERS },
        CandleInfo { name: "white_marubozu", full_name: "White Marubozu", pattern: TC_WHITE_MARUBOZU },
    ]
}

/// The `k`-th entry of the candle registry.
pub open spec fn spec_candle(k: int) -> CandleInfo {
    spec_candles()[k]
}

/// Return every supported candlestick pattern.
pub fn all_candles() -> (r: &'static [CandleInfo])
    ensures
        r@.len() == spec_candle_count(),
        forall|k: int| 0 <= k < spec_candle_count() ==> #[trigger] r@[k] == spec_candle(k),
{
    let table: &'static [CandleInfo] = &[
        CandleInfo { name: "abandoned_baby_bear", full_name: "Abandoned Baby Bear", pattern: TC_ABANDONED_BABY_BEAR },
        CandleInfo { name: "abandoned_baby_bull", full_name: "Abandoned Baby Bull", pattern: TC_ABANDONED_BABY_BULL },
        CandleInfo { name: "big_black_candle", full_name: "Big Black Candle", pattern: TC_BIG_BLACK_CANDLE },
        CandleInfo { name: "big_white_candle", full_name: "Big White Candle", pattern: TC_BIG_WHITE_CANDLE },
        CandleInfo { name: "black_marubozu", full_name: "Black Marubozu", pattern: TC_BLACK_MARUBOZU },
        CandleInfo { name: "doji", full_name: "Doji", pattern: TC_DOJI },
        CandleInfo { name: "dragonfly_doji", full_name: "Dragonfly Doji", pattern: TC_DRAGONFLY_DOJI },
        CandleInfo { name: "engulfing_bear", full_name: "Engulfing Bear", pattern: TC_ENGULFING_BEAR },
        CandleInfo { name: "engulfing_bull", full_name: "Engulfing Bull", pattern: TC_ENGULFING_BULL },
        CandleInfo { name: "evening_doji_star", full_name: "Evening Doji Star", pattern: TC_EVENING_DOJI_STAR },
        CandleInfo { name: "evening_star", full_name: "Evening Star", pattern: TC_EVENING_STAR },
        CandleInfo { name: "four_price_doji", full_name: "Four Price Doji", pattern: TC_FOUR_PRICE_DOJI },
        CandleInfo { name: "gravestone_doji", full_name: "Gravestone Doji", pattern: TC_GRAVESTONE_DOJI },
        CandleInfo { name: "hammer", full_name: "Hammer", pattern: TC_HAMMER },
        CandleInfo { name: "hanging_man", full_name: "Hanging Man", pattern: TC_HANGING_MAN },
        CandleInfo { name: "inverted_hammer", full_name: "Inverted Hammer", pattern: TC_INVERTED_HAMMER },
        CandleInfo { name: "long_legged_doji", full_name: "Long Legged Doji", pattern: TC_LONG_LEGGED_DOJI },
        CandleInfo { name: "marubozu", full_name: "Marubozu", pattern: TC_MARUBOZU },
        CandleInfo { name: "morning_doji_star", full_name: "Morning Doji Star", pattern: TC_MORNING_DOJI_STAR },
        CandleInfo { name: "morning_star", full_name: "Morning Star", pattern: TC_MORNING_STAR },
        CandleInfo { name: "shooting_star", full_name: "Shooting Star", pattern: TC_SHOOTING_STAR },
        CandleInfo { name: "spinning_top", full_name: "Spinning Top", pattern: TC_SPINNING_TOP },
        CandleInfo { name: "star", full_name: "Star", pattern: TC_STAR },
        CandleInfo { name: "three_black_crows", full_name: "Three Black Crows", pattern: TC_THREE_BLACK_CROWS },
        CandleInfo { name: "three_white_soldiers", full_name: "Three White Soldiers", pattern: TC_THREE_WHITE_SOLDIERS },
        CandleInfo { name: "white_marubozu", full_name: "White Marubozu", pattern: TC_WHITE_MARUBOZU },
    ];
    assert(table@.len() == 26);
    table
}

/// Return the number of supported candlestick patterns.
pub fn candle_count() -> (r: usize)
    ensures
        r == spec_candle_count(),
{
    all_candles().len()
}

/// Look up a candle pattern by its lowercase registry name.
pub fn find_candle(name: &str) -> (r: Option<&'static CandleInfo>)
    ensures
        r is Some <==> exists|k: int| 0 <= k < spec_candle_count() && #[trigger] spec_candle(k).name@ == name@,
        r matches Some(info) ==> exists|k: int|
            {
                &&& 0 <= k < spec_candle_count()
                &&& *info == spec_candle(k)
                &&& info.name@ == name@
                &&& forall|j: int| 0 <= j < k ==> #[trigger] spec_candle(j).name@ != name@
            },
{
    let table = all_candles();
    let mut k: usize = 0;
    while k < table.len()
        invariant
            table@.len() == spec_candle_count(),
            forall|j: int| 0 <= j < spec_candle_count() ==> #[trigger] table@[j] == spec_candle(j),
            0 <= k <= table@.len(),
            forall|j: int| 0 <= j < k ==> #[trigger] spec_candle(j).name@ != name@,
        decreases table@.len() - k,
    {
        if str_equal(table[k].name, name) {
            return Some(&table[k]);
        }
        k = k + 1;
    }
    None
}

/// `k` is the lowest set bit of `p`.
pub open spec fn is_lowest_bit(p: u64, k: u64) -> bool {
    &&& k < 64
    &&& (p >> k) & 1u64 == 1u64
    &&& p & (((1u64 << k) - 1) as u64) == 0u64
}

/// Bit `k` is the lowest set bit of `p`.
pub open spec fn lowest_bit_at(p: u64, k: int) -> bool {
    0 <= k < 64 && is_lowest_bit(p, k as u64)
}

proof fn lemma_lowest_bit(p: u64, k: u64)
    by (bit_vector)
    requires
        p != 0,
        k < 64,
    ensures
        is_lowest_bit(p, k) <==> (p & ((!p + 1) as u64)) == (1u64 << k),
{
}

proof fn lemma_candle_bits()
    ensures
        forall|k: int| 0 <= k < spec_candle_count() ==> #[trigger] spec_candle(k).pattern == 1u64 << (k as u64),
{
    assert forall|k: int| 0 <= k < spec_candle_count() implies #[trigger] spec_candle(k).pattern == 1u64 << (k as u64) by {
        if k == 0 {
            assert(spec_candle(0).pattern == 1u64 << 0u64) by (bit_vector);
        } else if k == 1 {
            assert(spec_candle(1).pattern == 1u64 << 1u64) by (bit_vector);
        } else if k == 2 {
            assert(spec_candle(2).pattern == 1u64 << 2u64) by (bit_vector);
        } else if k == 3 {
            assert(spec_candle(3).pattern == 1u64 << 3u64) by (bit_vector);
        } else if k == 4 {
            assert(spec_candle(4).pattern == 1u64 << 4u64) by (bit_vector);
        } else if k == 5 {
            assert(spec_candle(5).pattern == 1u64 << 5u64) by (bit_vector);
        } else if k == 6 {
            assert(spec_candle(6).pattern == 1u64 << 6u64) by (bit_vector);
        } else if k == 7 {
            assert(spec_candle(7).pattern == 1u64 << 7u64) by (bit_vector);
        } else if k == 8 {
            assert(spec_candle(8).pattern == 1u64 << 8u64) by (bit_vector);
        } else if k == 9 {
            assert(spec_candle(9).pattern == 1u64 << 9u64) by (bit_vector);
        } else if k == 10 {
            assert(spec_candle(10).pattern == 1u64 << 10u64) by (bit_vector);
        } else if k == 11 {
            assert(spec_candle(11).pattern == 1u64 << 11u64) by (bit_vector);
        } else if k == 12 {
            assert(spec_candle(12).pattern == 1u64 << 12u64) by (bit_vector);
        } else if k == 13 {
            assert(spec_candle(13).pattern == 1u64 << 13u64) by (bit_vector);
        } else if k == 14 {
            assert(spec_candle(14).pattern == 1u64 << 14u64) by (bit_vector);
        } else if k == 15 {
            assert(spec_candle(15).pattern == 1u64 << 15u64) by (bit_vector);
        } else if k == 16 {
            assert(spec_candle(16).pattern == 1u64 << 16u64) by (bit_vector);
        } else if k == 17 {
            assert(spec_candle(17).pattern == 1u64 << 17u64) by (bit_vector);
        } else if k == 18 {
            assert(spec_candle(18).pattern == 1u64 << 18u64) by (bit_vector);
        } else if k == 19 {
            assert(spec_candle(19).pattern == 1u64 << 19u64) by (bit_vector);
        } else if k == 20 {
            assert(spec_candle(20).pattern == 1u64 << 20u64) by (bit_vector);
        } else if k == 21 {
            assert(spec_candle(21).pattern == 1u64 << 21u64) by (bit_vector);
        } else if k == 22 {
            assert(spec_candle(22).pattern == 1u64 << 22u64) by (bit_vector);
        } else if k == 23 {
            assert(spec_candle(23).pattern == 1u64 << 23u64) by (bit_vector);
        } else if k == 24 {
            assert(spec_candle(24).pattern == 1u64 << 24u64) by (bit_vector);
        } else if k == 25 {
            assert(spec_candle(25).pattern == 1u64 << 25u64) by (bit_vector);
        }
    }
}

/// Look up a candle pattern by bitset value: the entry for the lowest set bit.
pub fn get_candle_info(pattern: CandleSet) -> (r: Option<&'static CandleInfo>)
    ensures
        forall|k: int|
            0 <= k < spec_candle_count() && #[trigger] lowest_bit_at(pattern, k) ==> (r matches Some(
                info,
            ) && *info == spec_candle(k)),
        (forall|k: int| 0 <= k < spec_candle_count() ==> !#[trigger] lowest_bit_at(pattern, k)) ==> r is None,
{
    if pattern == 0 {
        assert forall|k: int| 0 <= k < spec_candle_count() implies !#[trigger] lowest_bit_at(pattern, k) by {
            let kk = k as u64;
            assert(pattern == 0 ==> !is_lowest_bit(pattern, kk)) by (bit_vector);
        }
        return None;
    }
    assert(pattern != 0 ==> !pattern < 0xffff_ffff_ffff_ffffu64) by (bit_vector);
    let lowest = pattern & (!pattern + 1);
    proof {
        lemma_candle_bits();
    }
    let table = all_candles();
    let mut k: usize = 0;
    while k < table.len()
        invariant
            pattern != 0,
            lowest == pattern & ((!pattern + 1) as u64),
            table@.len() == spec_candle_count(),
            forall|j: int| 0 <= j < spec_candle_count() ==> #[trigger] table@[j] == spec_candle(j),
            forall|j: int| 0 <= j < spec_candle_count() ==> #[trigger] spec_candle(j).pattern == 1u64 << (j as u64),
            0 <= k <= table@.len(),
            forall|j: int| 0 <= j < k ==> !#[trigger] lowest_bit_at(pattern, j),
        decreases table@.len() - k,
    {
        proof {
            lemma_lowest_bit(pattern, k as u64);
        }
        if table[k].pattern == lowest {
            proof {
                assert(lowest_bit_at(pattern, k as int));
                assert forall|j: int| 0 <= j < spec_candle_count() && #[trigger] lowest_bit_at(pattern, j) implies j == k by {
                    lemma_lowest_bit(pattern, j as u64);
                    lemma_shift_injective(j as u64, k as u64);
                }
            }
            return Some(&table[k]);
        }
        k = k + 1;
    }
    None
}

proof fn lemma_shift_injective(a: u64, b: u64)
    by (bit_vector)
    requires
        a < 64,
        b < 64,
        (1u64 << a) == (1u64 << b),
    ensures
        a == b,
{
}

/// The comparisons that the pattern rules read at one bar.
///
/// Each field is one comparison of the bar (or of its one or two
/// predecessors) with a price or with one of the thresholds derived from the
/// rolling body and range averages at this bar. A comparison that needs a
/// predecessor that does not exist is false.
#[derive(Debug, Clone, Copy, PartialEq, Eq, Structural)]
pub struct CandleSignals {
    /// True when the bar closed below its open.
    pub black: bool,
    /// True when the bar closed above its open.
    pub white: bool,
    /// True when the body is below the no-body threshold.
    pub body_none: bool,
    /// True when the body is below the short-body threshold.
    pub body_short: bool,
    /// True when the body is above the long-body threshold.
    pub body_long: bool,
    /// True when the upper wick is below the no-wick threshold.
    pub wick_upper_none: bool,
    /// True when the upper wick is above the long-wick threshold.
    pub wick_upper_long: bool,
    /// True when the upper wick is longer than the body.
    pub wick_upper_longer_than_body: bool,
    /// True when the lower wick is below the no-wick threshold.
    pub wick_lower_none: bool,
    /// True when the lower wick is above the long-wick threshold.
    pub wick_lower_long: bool,
    /// True when the lower wick is longer than the body.
    pub wick_lower_longer_than_body: bool,
    /// True when there is a previous bar and this body sits at or above its body.
    pub gap_up: bool,
    /// True when there is a previous bar and this body sits at or below its body.
    pub gap_down: bool,
    /// True when there is a previous bar and this low is at or above its high.
    pub star_up: bool,
    /// True when there is a previous bar and this high is at or below its low.
    pub star_down: bool,
    /// True when the previous bar closed above its open.
    pub prev_white: bool,
    /// True when the previous bar closed below its open.
    pub prev_black: bool,
    /// True when the previous body is below this bar's no-body threshold.
    pub prev_body_none: bool,
    /// True when the previous body is below this bar's short-body threshold.
    pub prev_body_short: bool,
    /// True when the previous body sits at or above the body two bars back.
    pub prev_gap_up: bool,
    /// True when the previous body sits at or below the body two bars back.
    pub prev_gap_down: bool,
    /// True when the previous open lies strictly inside the body two bars back.
    pub prev_open_inside: bool,
    /// True when this open lies strictly inside the previous body.
    pub open_inside: bool,
    /// True when this close is below the previous open.
    pub close_below_prev_open: bool,
    /// True when this open is above the previous close.
    pub open_above_prev_close: bool,
    /// True when this close is above the previous open.
    pub close_above_prev_open: bool,
    /// True when this open is below the previous close.
    pub open_below_prev_close: bool,
    /// True when this body bottom is at most the previous low plus the nearness threshold.
    pub near_prev_low: bool,
    /// True when this body bottom is at least the previous high minus the nearness threshold.
    pub near_prev_high: bool,
    /// True when the bar two back closed above its open.
    pub prev2_white: bool,
    /// True when the bar two back closed below its open.
    pub prev2_black: bool,
    /// True when the body two bars back is above this bar's long-body threshold.
    pub prev2_body_long: bool,
    /// True when the previous low is at or above the high two bars back.
    pub prev_low_above_prev2_high: bool,
    /// True when the previous high is at or below the low two bars back.
    pub prev_high_below_prev2_low: bool,
    /// True when this close is at or below the close two bars back.
    pub close_at_or_below_prev2: bool,
    /// True when this close is at or above the close two bars back.
    pub close_at_or_above_prev2: bool,
}

/// Whether the rule of pattern number `k` (its bit position) holds at bar `index`.
pub open spec fn rule_holds(k: int, index: usize, s: CandleSignals) -> bool {
    if k == 0 {
        index >= 2 && s.prev2_white && s.prev2_body_long && s.prev_low_above_prev2_high && s.prev_body_none && s.black && s.star_down && s.close_at_or_below_prev2
    } else if k == 1 {
        index >= 2 && s.prev2_black && s.prev2_body_long && s.prev_high_below_prev2_low && s.prev_body_none && s.white && s.star_up && s.close_at_or_above_prev2
    } else if k == 2 {
        s.black && s.body_long
    } else if k == 3 {
        s.white && s.body_long
    } else if k == 4 {
        s.body_long && s.wick_upper_none && s.wick_lower_none && s.black
    } else if k == 5 {
        s.body_none
    } else if k == 6 {
        s.body_none && s.wick_upper_none && s.wick_lower_long
    } else if k == 7 {
        index >= 1 && s.black && s.prev_white && s.close_below_prev_open && s.open_above_prev_close
    } else if k == 8 {
        index >= 1 && s.white && s.prev_black && s.close_above_prev_open && s.open_below_prev_close
    } else if k == 9 {
        index >= 2 && s.prev2_white && s.prev2_body_long && s.prev_gap_up && s.prev_body_none && s.black && s.gap_down && s.close_at_or_below_prev2
    } else if k == 10 {
        index >= 2 && s.prev2_white && s.prev2_body_long && s.prev_gap_up && s.prev_body_short && s.black && s.gap_down && s.close_at_or_below_prev2
    } else if k == 11 {
        s.body_none && s.wick_upper_none && s.wick_lower_none
    } else if k == 12 {
        s.body_none && s.wick_upper_long && s.wick_lower_none
    } else if k == 13 {
        index >= 1 && s.body_short && s.wick_upper_none && s.wick_lower_long && s.near_prev_low
    } else if k == 14 {
        index >= 1 && s.body_short && s.wick_upper_none && s.wick_lower_long && s.near_prev_high
    } else if k == 15 {
        index >= 1 && s.body_short && s.wick_upper_long && s.wick_lower_none && s.gap_down
    } else if k == 16 {
        s.body_none && s.wick_upper_long && s.wick_lower_long
    } else if k == 17 {
        s.body_long && s.wick_upper_none && s.wick_lower_none
    } else if k == 18 {
        index >= 2 && s.prev2_black && s.prev2_body_long && s.prev_gap_down && s.prev_body_none && s.white && s.gap_up && s.close_at_or_above_prev2
    } else if k == 19 {
        index >= 2 && s.prev2_black && s.prev2_body_long && s.prev_gap_down && s.prev_body_short && s.white && s.gap_up && s.close_at_or_above_prev2
    } else if k == 20 {
        index >= 1 && s.body_short && s.wick_upper_long && s.wick_lower_none && s.gap_up
    } else if k == 21 {
        s.body_short && s.wick_upper_longer_than_body && s.wick_lower_longer_than_body
    } else if k == 22 {
        index >= 1 && (s.star_up || s.star_down)
    } else if k == 23 {
        index >= 2 && s.prev2_black && s.prev_black && s.black && s.prev_open_inside && s.open_inside
    } else if k == 24 {
        index >= 2 && s.prev2_white && s.prev_white && s.white && s.prev_open_inside && s.open_inside
    } else if k == 25 {
        s.body_long && s.wick_upper_none && s.wick_lower_none && s.white
    } else {
        false
    }
}

/// Evaluate the rule of pattern number `k` at bar `index`.
pub fn rule_matches(k: usize, index: usize, s: &CandleSignals) -> (r: bool)
    requires
        k < 26,
    ensures
        r == rule_holds(k as int, index, *s),
{
    match k {
        0 => index >= 2 && s.prev2_white && s.prev2_body_long && s.prev_low_above_prev2_high && s.prev_body_none && s.black && s.star_down && s.close_at_or_below_prev2,
        1 => index >= 2 && s.prev2_black && s.prev2_body_long && s.prev_high_below_prev2_low && s.prev_body_none && s.white && s.star_up && s.close_at_or_above_prev2,
        2 => s.black && s.body_long,
        3 => s.white && s.body_long,
        4 => s.body_long && s.wick_upper_none && s.wick_lower_none && s.black,
        5 => s.body_none,
        6 => s.body_none && s.wick_upper_none && s.wick_lower_long,
        7 => index >= 1 && s.black && s.prev_white && s.close_below_prev_open && s.open_above_prev_close,
        8 => index >= 1 && s.white && s.prev_black && s.close_above_prev_open && s.open_below_prev_close,
        9 => index >= 2 && s.prev2_white && s.prev2_body_long && s.prev_gap_up && s.prev_body_none && s.black && s.gap_down && s.close_at_or_below_prev2,
        10 => index >= 2 && s.prev2_white && s.prev2_body_long && s.prev_gap_up && s.prev_body_short && s.black && s.gap_down && s.close_at_or_below_prev2,
        11 => s.body_none && s.wick_upper_none && s.wick_lower_none,
        12 => s.body_none && s.wick_upper_long && s.wick_lower_none,
        13 => index >= 1 && s.body_short && s.wick_upper_none && s.wick_lower_long && s.near_prev_low,
        14 => index >= 1 && s.body_short && s.wick_upper_none && s.wick_lower_long && s.near_prev_high,
        15 => index >= 1 && s.body_short && s.wick_upper_long && s.wick_lower_none && s.gap_down,
        16 => s.body_none && s.wick_upper_long && s.wick_lower_long,
        17 => s.body_long && s.wick_upper_none && s.wick_lower_none,
        18 => index >= 2 && s.prev2_black && s.prev2_body_long && s.prev_gap_down && s.prev_body_none && s.white && s.gap_up && s.close_at_or_above_prev2,
        19 => index >= 2 && s.prev2_black && s.prev2_body_long && s.prev_gap_down && s.prev_body_short && s.white && s.gap_up && s.close_at_or_above_prev2,
        20 => index >= 1 && s.body_short && s.wick_upper_long && s.wick_lower_none && s.gap_up,
        21 => s.body_short && s.wick_upper_longer_than_body && s.wick_lower_longer_than_body,
        22 => index >= 1 && (s.star_up || s.star_down),
        23 => index >= 2 && s.prev2_black && s.prev_black && s.black && s.prev_open_inside && s.open_inside,
        24 => index >= 2 && s.prev2_white && s.prev_white && s.white && s.prev_open_inside && s.open_inside,
        25 => s.body_long && s.wick_upper_none && s.wick_lower_none && s.white,
        _ => false,
    }
}

/// Pattern number `k` is among the requested `patterns`.
pub open spec fn selected(patterns: CandleSet, k: int) -> bool {
    patterns & (1u64 << (k as u64)) != 0
}

/// Pattern number `k` is requested and its rule holds at bar `index`.
pub open spec fn fires(patterns: CandleSet, k: int, index: usize, s: CandleSignals) -> bool {
    selected(patterns, k) && rule_holds(k, index, s)
}

/// The bits of the patterns among the first `n` that fire at bar `index`.
pub open spec fn fired_bits(patterns: CandleSet, index: usize, s: CandleSignals, n: nat) -> CandleSet
    decreases n,
{
    if n == 0 {
        0
    } else {
        fired_bits(patterns, index, s, (n - 1) as nat) | (if fires(patterns, n - 1, index, s) {
            1u64 << ((n - 1) as u64)
        } else {
            0u64
        })
    }
}

/// How many of the first `n` patterns fire at bar `index`.
pub open spec fn fired_count(patterns: CandleSet, index: usize, s: CandleSignals, n: nat) -> nat
    decreases n,
{
    if n == 0 {
        0
    } else {
        fired_count(patterns, index, s, (n - 1) as nat) + (if fires(patterns, n - 1, index, s) {
            1nat
        } else {
            0nat
        })
    }
}

/// The set of requested patterns that match at bar `index`.
pub open spec fn candle_matches(patterns: CandleSet, index: usize, s: CandleSignals) -> CandleSet {
    fired_bits(patterns, index, s, 26)
}

/// The number of requested patterns that match at bar `index`.
pub open spec fn candle_match_count(patterns: CandleSet, index: usize, s: CandleSignals) -> nat {
    fired_count(patterns, index, s, 26)
}

proof fn lemma_fired_count_bound(patterns: CandleSet, index: usize, s: CandleSignals, n: nat)
    ensures
        fired_count(patterns, index, s, n) <= n,
    decreases n,
{
    if n > 0 {
        lemma_fired_count_bound(patterns, index, s, (n - 1) as nat);
    }
}

proof fn lemma_or_assoc(a: u64, b: u64, c: u64)
    by (bit_vector)
    ensures
        (a | b) | c == a | (b | c),
        a | 0u64 == a,
{
}

/// Record, in bit order, every requested pattern whose rule holds at bar `index`.
pub fn detect_patterns(result: &mut CandleResult, patterns: CandleSet, index: usize, s: &CandleSignals)
    requires
        old(result).wf(),
        old(result).spec_pattern_count() + 26 <= usize::MAX,
        old(result).spec_hits().len() > 0 ==> old(result).spec_hits().last().index <= index,
    ensures
        final(result).wf(),
        final(result).spec_at(index) == old(result).spec_at(index) | candle_matches(patterns, index, *s),
        forall|j: usize| j != index ==> #[trigger] final(result).spec_at(j) == old(result).spec_at(j),
        final(result).spec_pattern_count() == old(result).spec_pattern_count() + candle_match_count(
            patterns,
            index,
            *s,
        ),
        final(result).spec_hits().len() > 0 ==> final(result).spec_hits().last().index <= index,
        candle_matches(patterns, index, *s) == 0 ==> final(result).spec_hits() == old(result).spec_hits(),
        candle_matches(patterns, index, *s) != 0 && (old(result).spec_hits().len() == 0
            || old(result).spec_hits().last().index < index) ==> final(result).spec_hits()
            == old(result).spec_hits().push(
            CandleHit { index, patterns: candle_matches(patterns, index, *s) },
        ),
{
    let ghost start = *result;
    proof {
        lemma_or_assoc(start.spec_at(index), 0u64, 0u64);
    }
    let mut k: usize = 0;
    while k < 26
        invariant
            0 <= k <= 26,
            result.wf(),
            start.wf(),
            start.spec_pattern_count() + 26 <= usize::MAX,
            result.spec_at(index) == start.spec_at(index) | fired_bits(patterns, index, *s, k as nat),
            forall|j: usize| j != index ==> #[trigger] result.spec_at(j) == start.spec_at(j),
            result.spec_pattern_count() == start.spec_pattern_count() + fired_count(patterns, index, *s, k as nat),
            start.spec_hits().len() > 0 ==> start.spec_hits().last().index <= index,
            result.spec_hits().len() > 0 ==> result.spec_hits().last().index <= index,
            fired_bits(patterns, index, *s, k as nat) == 0 ==> result.spec_hits() == start.spec_hits(),
            fired_bits(patterns, index, *s, k as nat) != 0 && (start.spec_hits().len() == 0
                || start.spec_hits().last().index < index) ==> result.spec_hits()
                == start.spec_hits().push(
                CandleHit { index, patterns: fired_bits(patterns, index, *s, k as nat) },
            ),
        decreases 26 - k,
    {
        let bit: CandleSet = 1u64 << (k as u64);
        proof {
            let kk = k as u64;
            assert(kk < 26 ==> (1u64 << kk) != 0u64) by (bit_vector);
            lemma_fired_count_bound(patterns, index, *s, k as nat);
            lemma_or_assoc(start.spec_at(index), fired_bits(patterns, index, *s, k as nat), bit);
            lemma_or_assoc(start.spec_at(index), fired_bits(patterns, index, *s, k as nat), 0u64);
            lemma_or_assoc(fired_bits(patterns, index, *s, k as nat), 0u64, 0u64);
            lemma_or_assoc(0u64, 0u64, bit);
            lemma_or_zero_left(bit);
        }
        if patterns & bit != 0 && rule_matches(k, index, s) {
            result.add(index, bit);
            proof {
                lemma_or_nonzero(fired_bits(patterns, index, *s, k as nat), bit);
            }
        }
        k = k + 1;
    }
}

proof fn lemma_or_zero_left(a: u64)
    by (bit_vector)
    ensures
        0u64 | a == a,
{
}

proof fn lemma_or_nonzero(a: u64, b: u64)
    by (bit_vector)
    requires
        b != 0,
    ensures
        a | b != 0,
{
}

/// The hits that scanning `n` consecutive bars, starting at source index
/// `first`, records: one per bar where some requested pattern matches.
pub open spec fn scanned_hits(patterns: CandleSet, first: int, signals: Seq<CandleSignals>, n: nat) -> Seq<
    CandleHit,
>
    decreases n,
{
    if n == 0 {
        Seq::empty()
    } else {
        let prev = scanned_hits(patterns, first, signals, (n - 1) as nat);
        let index = (first + n - 1) as usize;
        let m = candle_matches(patterns, index, signals[n - 1]);
        if m != 0 {
            prev.push(CandleHit { index, patterns: m })
        } else {
            prev
        }
    }
}

/// The total number of pattern matches over `n` consecutive bars starting at `first`.
pub open spec fn scanned_count(patterns: CandleSet, first: int, signals: Seq<CandleSignals>, n: nat) -> nat
    decreases n,
{
    if n == 0 {
        0
    } else {
        scanned_count(patterns, first, signals, (n - 1) as nat) + candle_match_count(
            patterns,
            (first + n - 1) as usize,
            signals[n - 1],
        )
    }
}

proof fn lemma_scanned_hits_below(patterns: CandleSet, first: int, signals: Seq<CandleSignals>, n: nat)
    requires
        0 <= first,
        first + n <= usize::MAX,
    ensures
        forall|k: int| 0 <= k < scanned_hits(patterns, first, signals, n).len()
            ==> #[trigger] scanned_hits(patterns, first, signals, n)[k].index < first + n,
    decreases n,
{
    if n > 0 {
        lemma_scanned_hits_below(patterns, first, signals, (n - 1) as nat);
        let prev = scanned_hits(patterns, first, signals, (n - 1) as nat);
        let cur = scanned_hits(patterns, first, signals, n);
        assert forall|k: int| 0 <= k < cur.len() implies #[trigger] cur[k].index < first + n by {
            if k < prev.len() {
                assert(cur[k] == prev[k]);
            }
        }
    }
}

proof fn lemma_scanned_count_bound(patterns: CandleSet, first: int, signals: Seq<CandleSignals>, n: nat)
    ensures
        scanned_count(patterns, first, signals, n) <= 26 * n,
    decreases n,
{
    if n > 0 {
        lemma_scanned_count_bound(patterns, first, signals, (n - 1) as nat);
        lemma_fired_count_bound(patterns, (first + n - 1) as usize, signals[n - 1], 26);
    }
}

/// Scan consecutive bars, the first of which is source index `first`, and
/// record every requested pattern that matches.
///
/// `signals[i]` holds the comparisons at source index `first + i`.
pub fn scan_candles(patterns: CandleSet, first: usize, signals: &[CandleSignals]) -> (r: CandleResult)
    requires
        first + signals@.len() <= usize::MAX,
        26 * signals@.len() <= usize::MAX,
    ensures
        r.wf(),
        r.spec_hits() == scanned_hits(patterns, first as int, signals@, signals@.len()),
        r.spec_pattern_count() == scanned_count(patterns, first as int, signals@, signals@.len()),
        forall|i: int|
            0 <= i < signals@.len() ==> #[trigger] r.spec_at((first + i) as usize) == candle_matches(
                patterns,
                (first + i) as usize,
                signals@[i],
            ),
        forall|j: usize| (j < first || j >= first + signals@.len()) ==> #[trigger] r.spec_at(j) == 0,
{
    let mut result = CandleResult::new();
    let n = signals.len();
    let mut i: usize = 0;
    while i < n
        invariant
            n == signals@.len(),
            first + n <= usize::MAX,
            26 * n <= usize::MAX,
            0 <= i <= n,
            result.wf(),
            result.spec_hits() == scanned_hits(patterns, first as int, signals@, i as nat),
            result.spec_pattern_count() == scanned_count(patterns, first as int, signals@, i as nat),
            forall|t: int|
                0 <= t < i ==> #[trigger] result.spec_at((first + t) as usize) == candle_matches(
                    patterns,
                    (first + t) as usize,
                    signals@[t],
                ),
            forall|j: usize| (j < first || j >= first + i) ==> #[trigger] result.spec_at(j) == 0,
        decreases n - i,
    {
        let index = first + i;
        proof {
            lemma_scanned_hits_below(patterns, first as int, signals@, i as nat);
            lemma_scanned_count_bound(patterns, first as int, signals@, i as nat);
            assert(26 * i + 26 <= 26 * n) by (nonlinear_arith)
                requires
                    i < n,
            ;
            lemma_or_zero_left(candle_matches(patterns, index, signals@[i as int]));
            if result.spec_hits().len() > 0 {
                let last = result.spec_hits().len() - 1;
                assert(result.spec_hits()[last].index < first + i);
            }
        }
        detect_patterns(&mut result, patterns, index, &signals[i]);
        proof {
            assert forall|t: int| 0 <= t < i + 1 implies #[trigger] result.spec_at((first + t) as usize)
                == candle_matches(patterns, (first + t) as usize, signals@[t]) by {
                if t < i {
                    assert((first + t) as usize != index);
                }
            }
        }
        i = i + 1;
    }
    result
}

/// Check the open/high/low/close columns and the averaging period of a
/// candle run, and return how many bars get scanned (those from index
/// `period` on).
///
/// Errors, in the order they are checked: not exactly four columns; a column
/// whose length differs from the first one (the first such column is
/// reported); a zero period.
pub fn check_candle_inputs<T>(inputs: &[&[T]], period: usize) -> (r: Result<usize, IndicatorError>)
    ensures
        inputs@.len() != 4 ==> r == Err::<usize, IndicatorError>(
            IndicatorError::WrongInputCount {
                indicator: "candle",
                expected: 4,
                actual: inputs@.len() as usize,
            },
        ),
        inputs@.len() == 4 ==> {
            let size = inputs@[0]@.len();
            let mismatch = exists|k: int| 1 <= k < 4 && #[trigger] inputs@[k]@.len() != size;
            &&& mismatch ==> exists|k: int|
                {
                    &&& 1 <= k < 4
                    &&& inputs@[k]@.len() != size
                    &&& forall|j: int| 1 <= j < k ==> #[trigger] inputs@[j]@.len() == size
                    &&& r == Err::<usize, IndicatorError>(
                        IndicatorError::InputLengthMismatch {
                            indicator: "candle",
                            expected: size as usize,
                            actual: inputs@[k]@.len() as usize,
                            input_index: k as usize,
                        },
                    )
                }
            &&& !mismatch && period == 0 ==> r == Err::<usize, IndicatorError>(
                IndicatorError::InvalidOption {
                    indicator: "candle",
                    option: "period",
                    value: 0,
                    reason: "period must be at least 1",
                },
            )
            &&& !mismatch && period > 0 ==> r == Ok::<usize, IndicatorError>(
                (if size >= period {
                    size - period
                } else {
                    0
                }) as usize,
            )
        },
{
    let size = match check_aligned_inputs("candle", inputs, 4) {
        Ok(size) => size,
        Err(e) => return Err(e),
    };
    if period == 0 {
        return Err(
            IndicatorError::InvalidOption {
                indicator: "candle",
                option: "period",
                value: 0,
                reason: "period must be at least 1",
            },
        );
    }
    if size < period {
        Ok(0)
    } else {
        Ok(size - period)
    }
}

/// The bitset of the pattern registered under `name`, as a named candle run resolves it.
pub fn resolve_candle_name(name: &str) -> (r: Result<CandleSet, IndicatorError>)
    ensures
        (exists|k: int| 0 <= k < spec_candle_count() && #[trigger] spec_candle(k).name@ == name@)
            ==> exists|k: int|
            {
                &&& 0 <= k < spec_candle_count()
                &&& spec_candle(k).name@ == name@
                &&& forall|j: int| 0 <= j < k ==> #[trigger] spec_candle(j).name@ != name@
                &&& r == Ok::<CandleSet, IndicatorError>(spec_candle(k).pattern)
            },
        !(exists|k: int| 0 <= k < spec_candle_count() && #[trigger] spec_candle(k).name@ == name@)
            ==> r == Err::<CandleSet, IndicatorError>(
            IndicatorError::InvalidOption {
                indicator: "candle",
                option: "pattern",
                value: 0,
                reason: "unknown candle pattern name",
            },
        ),
{
    match find_candle(name) {
        Some(info) => Ok(info.pattern),
        None => Err(
            IndicatorError::InvalidOption {
                indicator: "candle",
                option: "pattern",
                value: 0,
                reason: "unknown candle pattern name",
            },
        ),
    }
}

/// Every registry entry is found again from its own bit: the lowest set bit
/// of entry `k`'s bitset is bit `k`, so looking that bitset up yields entry `k`.
pub proof fn lemma_candle_bit_lookup(k: int)
    requires
        0 <= k < spec_candle_count(),
    ensures
        lowest_bit_at(spec_candle(k).pattern, k),
        spec_candle(k).pattern & TC_ALL == spec_candle(k).pattern,
{
    lemma_candle_bits();
    let kk = k as u64;
    assert(kk < 26 ==> is_lowest_bit(1u64 << kk, kk)) by (bit_vector);
    assert(kk < 26 ==> (1u64 << kk) & 0x3ff_ffffu64 == (1u64 << kk)) by (bit_vector);
}

/// A short fingerprint of a name: its length and three of its characters.
spec fn name_key(s: Seq<char>) -> (int, char, char, char) {
    (s.len() as int, s[0], s[(s.len() / 2) as int], s[s.len() - 1])
}

/// The registry position whose name has fingerprint `key`.
spec fn key_position(key: (int, char, char, char)) -> int {
    if key == (19int, 'a', '_', 'r') {
        0
    } else if key == (19int, 'a', '_', 'l') {
        1
    } else if key == (16int, 'b', 'k', 'e') {
        2
    } else if key == (16int, 'b', 'e', 'e') {
        3
    } else if key == (14int, 'b', 'a', 'u') {
        4
    } else if key == (4int, 'd', 'j', 'i') {
        5
    } else if key == (14int, 'd', 'l', 'i') {
        6
    } else if key == (14int, 'e', 'n', 'r') {
        7
    } else if key == (14int, 'e', 'n', 'l') {
        8
    } else if key == (17int, 'e', 'd', 'r') {
        9
    } else if key == (12int, 'e', 'g', 'r') {
        10
    } else if key == (15int, 'f', 'i', 'i') {
        11
    } else if key == (15int, 'g', 'o', 'i') {
        12
    } else if key == (6int, 'h', 'm', 'r') {
        13
    } else if key == (11int, 'h', 'n', 'n') {
        14
    } else if key == (15int, 'i', 'd', 'r') {
        15
    } else if key == (16int, 'l', 'g', 'i') {
        16
    } else if key == (8int, 'm', 'b', 'u') {
        17
    } else if key == (17int, 'm', 'd', 'r') {
        18
    } else if key == (12int, 'm', 'g', 'r') {
        19
    } else if key == (13int, 's', 'n', 'r') {
        20
    } else if key == (12int, 's', 'n', 'p') {
        21
    } else if key == (4int, 's', 'a', 'r') {
        22
    } else if key == (17int, 't', 'a', 's') {
        23
    } else if key == (20int, 't', 'e', 's') {
        24
    } else if key == (14int, 'w', 'a', 'u') {
        25
    } else {
        -1
    }
}

proof fn lemma_name_key(k: int)
    requires
        0 <= k < spec_candle_count(),
    ensures
        key_position(name_key(spec_candle(k).name@)) == k,
{
    if k == 0 {
        reveal_strlit("abandoned_baby_bear");
        assert(spec_candle(0).name@.len() == 19);
    } else if k == 1 {
        reveal_strlit("abandoned_baby_bull");
        assert(spec_candle(1).name@.len() == 19);
    } else if k == 2 {
        reveal_strlit("big_black_candle");
        assert(spec_candle(2).name@.len() == 16);
    } else if k == 3 {
        reveal_strlit("big_white_candle");
        assert(spec_candle(3).name@.len() == 16);
    } else if k == 4 {
        reveal_strlit("black_marubozu");
        assert(spec_candle(4).name@.len() == 14);
    } else if k == 5 {
        reveal_strlit("doji");
        assert(spec_candle(5).name@.len() == 4);
    } else if k == 6 {
        reveal_strlit("dragonfly_doji");
        assert(spec_candle(6).name@.len() == 14);
    } else if k == 7 {
        reveal_strlit("engulfing_bear");
        assert(spec_candle(7).name@.len() == 14);
    } else if k == 8 {
        reveal_strlit("engulfing_bull");
        assert(spec_candle(8).name@.len() == 14);
    } else if k == 9 {
        reveal_strlit("evening_doji_star");
        assert(spec_candle(9).name@.len() == 17);
    } else if k == 10 {
        reveal_strlit("evening_star");
        assert(spec_candle(10).name@.len() == 12);
    } else if k == 11 {
        reveal_strlit("four_price_doji");
        assert(spec_candle(11).name@.len() == 15);
    } else if k == 12 {
        reveal_strlit("gravestone_doji");
        assert(spec_candle(12).name@.len() == 15);
    } else if k == 13 {
        reveal_strlit("hammer");
        assert(spec_candle(13).name@.len() == 6);
    } else if k == 14 {
        reveal_strlit("hanging_man");
        assert(spec_candle(14).name@.len() == 11);
    } else if k == 15 {
        reveal_strlit("inverted_hammer");
        assert(spec_candle(15).name@.len() == 15);
    } else if k == 16 {
        reveal_strlit("long_legged_doji");
        assert(spec_candle(16).name@.len() == 16);
    } else if k == 17 {
        reveal_strlit("marubozu");
        assert(spec_candle(17).name@.len() == 8);
    } else if k == 18 {
        reveal_strlit("morning_doji_star");
        assert(spec_candle(18).name@.len() == 17);
    } else if k == 19 {
        reveal_strlit("morning_star");
        assert(spec_candle(19).name@.len() == 12);
    } else if k == 20 {
        reveal_strlit("shooting_star");
        assert(spec_candle(20).name@.len() == 13);
    } else if k == 21 {
        reveal_strlit("spinning_top");
        assert(spec_candle(21).name@.len() == 12);
    } else if k == 22 {
        reveal_strlit("star");
        assert(spec_candle(22).name@.len() == 4);
    } else if k == 23 {
        reveal_strlit("three_black_crows");
        assert(spec_candle(23).name@.len() == 17);
    } else if k == 24 {
        reveal_strlit("three_white_soldiers");
        assert(spec_candle(24).name@.len() == 20);
    } else if k == 25 {
        reveal_strlit("white_marubozu");
        assert(spec_candle(25).name@.len() == 14);
    }
}

/// Registry names are pairwise different, so a name identifies one entry.
pub proof fn lemma_candle_names_distinct(j: int, k: int)
    requires
        0 <= j < spec_candle_count(),
        0 <= k < spec_candle_count(),
        j != k,
    ensures
        spec_candle(j).name@ != spec_candle(k).name@,
{
    lemma_name_key(j);
    lemma_name_key(k);
}

/// Looking up an entry's own name finds that entry.
pub proof fn lemma_candle_name_lookup(k: int, found: CandleInfo)
    requires
        0 <= k < spec_candle_count(),
        exists|i: int| 0 <= i < spec_candle_count() && found == spec_candle(i) && found.name@ == spec_candle(k).name@,
    ensures
        found == spec_candle(k),
{
    let i = choose|i: int| 0 <= i < spec_candle_count() && found == spec_candle(i) && found.name@ == spec_candle(k).name@;
    if i != k {
        lemma_candle_names_distinct(i, k);
    }
}

proof fn lemma_mask_bit(a: u64, p: u64, k: u64)
    by (bit_vector)
    requires
        k < 64,
    ensures
        (a | (1u64 << k)) & p == (a & p) | (if p & (1u64 << k) != 0 {
            1u64 << k
        } else {
            0u64
        }),
        (a | 0u64) & p == (a & p) | 0u64,
        0u64 & p == 0u64,
{
}

proof fn lemma_all_selects(k: u64)
    by (bit_vector)
    requires
        k < 26,
    ensures
        0x3ff_ffffu64 & (1u64 << k) != 0,
{
}

proof fn lemma_fired_bits_masked(patterns: CandleSet, index: usize, s: CandleSignals, n: nat)
    requires
        n <= 26,
    ensures
        fired_bits(patterns, index, s, n) == fired_bits(TC_ALL, index, s, n) & patterns,
    decreases n,
{
    if n == 0 {
        lemma_mask_bit(0, patterns, 0);
    } else {
        let k = (n - 1) as u64;
        lemma_fired_bits_masked(patterns, index, s, (n - 1) as nat);
        lemma_all_selects(k);
        lemma_mask_bit(fired_bits(TC_ALL, index, s, (n - 1) as nat), patterns, k);
    }
}

/// Scanning for a subset of the patterns finds exactly the matches of a
/// scan for all patterns, restricted to that subset: matches never include
/// a pattern that was not asked for, and asking for more never loses one.
pub proof fn lemma_matches_restrict(patterns: CandleSet, index: usize, s: CandleSignals)
    ensures
        candle_matches(patterns, index, s) == candle_matches(TC_ALL, index, s) & patterns,
{
    lemma_fired_bits_masked(patterns, index, s, 26);
}

/// The number of set bits among the lowest `n` bits of `x`.
pub open spec fn ones_below(x: u64, n: nat) -> nat
    decreases n,
{
    if n == 0 {
        0
    } else {
        ones_below(x, (n - 1) as nat) + (if x & (1u64 << ((n - 1) as u64)) != 0 {
            1nat
        } else {
            0nat
        })
    }
}

/// The number of set bits of `x`.
pub open spec fn count_ones(x: u64) -> nat {
    ones_below(x, 64)
}

/// The set bits of all hits together: each hit counts once per pattern it carries.
pub open spec fn total_bits(hits: Seq<CandleHit>) -> nat
    decreases hits.len(),
{
    if hits.len() == 0 {
        0
    } else {
        total_bits(hits.drop_last()) + count_ones(hits.last().patterns)
    }
}

proof fn lemma_bit_of_or(a: u64, k: u64, j: u64)
    by (bit_vector)
    requires
        k < 64,
        j < 64,
    ensures
        ((a | (1u64 << k)) & (1u64 << j) != 0) == ((a & (1u64 << j)) != 0 || j == k),
        ((a | 0u64) & (1u64 << j) != 0) == ((a & (1u64 << j)) != 0),
        (0u64 & (1u64 << j)) == 0u64,
{
}

/// Bit `j` of the fired set is set exactly when pattern `j` is among the
/// first `n` and fires.
proof fn lemma_fired_bit(patterns: CandleSet, index: usize, s: CandleSignals, n: nat, j: u64)
    requires
        n <= 26,
        j < 64,
    ensures
        (fired_bits(patterns, index, s, n) & (1u64 << j) != 0) == (j < n && fires(patterns, j as int, index, s)),
    decreases n,
{
    lemma_bit_of_or(0u64, 0u64, j);
    if n > 0 {
        lemma_fired_bit(patterns, index, s, (n - 1) as nat, j);
        let a = fired_bits(patterns, index, s, (n - 1) as nat);
        lemma_bit_of_or(a, (n - 1) as u64, j);
    }
}

proof fn lemma_ones_of_fired(patterns: CandleSet, index: usize, s: CandleSignals, k: nat)
    requires
        k <= 64,
    ensures
        ones_below(candle_matches(patterns, index, s), k) == fired_count(
            patterns,
            index,
            s,
            if k <= 26 {
                k
            } else {
                26
            },
        ),
    decreases k,
{
    if k > 0 {
        lemma_ones_of_fired(patterns, index, s, (k - 1) as nat);
        lemma_fired_bit(patterns, index, s, 26, (k - 1) as u64);
    }
}

/// The matches at a bar carry as many bits as patterns matched there.
proof fn lemma_match_bits(patterns: CandleSet, index: usize, s: CandleSignals)
    ensures
        count_ones(candle_matches(patterns, index, s)) == candle_match_count(patterns, index, s),
{
    lemma_ones_of_fired(patterns, index, s, 64);
}

proof fn lemma_fired_nonzero(patterns: CandleSet, index: usize, s: CandleSignals, n: nat)
    requires
        fired_bits(patterns, index, s, n) != 0,
    ensures
        fired_count(patterns, index, s, n) >= 1,
    decreases n,
{
    if n > 0 {
        let a = fired_bits(patterns, index, s, (n - 1) as nat);
        lemma_or_assoc(a, 0u64, 0u64);
        if !fires(patterns, n - 1, index, s) {
            lemma_fired_nonzero(patterns, index, s, (n - 1) as nat);
        }
    }
}

proof fn lemma_scanned_hits_sorted(patterns: CandleSet, first: int, signals: Seq<CandleSignals>, n: nat)
    requires
        0 <= first,
        first + n <= usize::MAX,
        n <= signals.len(),
    ensures
        hits_sorted(scanned_hits(patterns, first, signals, n)),
        forall|k: int|
            0 <= k < scanned_hits(patterns, first, signals, n).len() ==> #[trigger] scanned_hits(
                patterns,
                first,
                signals,
                n,
            )[k].patterns != 0,
    decreases n,
{
    if n > 0 {
        lemma_scanned_hits_sorted(patterns, first, signals, (n - 1) as nat);
        lemma_scanned_hits_below(patterns, first, signals, (n - 1) as nat);
        let prev = scanned_hits(patterns, first, signals, (n - 1) as nat);
        let cur = scanned_hits(patterns, first, signals, n);
        assert forall|a: int, b: int| 0 <= a < b < cur.len() implies #[trigger] cur[a].index
            < #[trigger] cur[b].index by {
            assert(cur[a] == prev[a]);
            if b < prev.len() {
                assert(cur[b] == prev[b]);
            }
        }
        assert forall|k: int| 0 <= k < cur.len() implies #[trigger] cur[k].patterns != 0 by {
            if k < prev.len() {
                assert(cur[k] == prev[k]);
            }
        }
    }
}

proof fn lemma_ones_zero(k: nat)
    requires
        k <= 64,
    ensures
        ones_below(0u64, k) == 0,
    decreases k,
{
    if k > 0 {
        lemma_ones_zero((k - 1) as nat);
        lemma_bit_of_or(0u64, 0u64, (k - 1) as u64);
    }
}

proof fn lemma_scanned_totals(patterns: CandleSet, first: int, signals: Seq<CandleSignals>, n: nat)
    ensures
        scanned_count(patterns, first, signals, n) == total_bits(scanned_hits(patterns, first, signals, n)),
        scanned_hits(patterns, first, signals, n).len() <= scanned_count(patterns, first, signals, n),
    decreases n,
{
    if n > 0 {
        lemma_scanned_totals(patterns, first, signals, (n - 1) as nat);
        let index = (first + n - 1) as usize;
        let m = candle_matches(patterns, index, signals[n - 1]);
        lemma_match_bits(patterns, index, signals[n - 1]);
        let prev = scanned_hits(patterns, first, signals, (n - 1) as nat);
        if m != 0 {
            lemma_fired_nonzero(patterns, index, signals[n - 1], 26);
            let h = CandleHit { index, patterns: m };
            assert(prev.push(h).drop_last() =~= prev);
        } else {
            lemma_ones_zero(64);
        }
    }
}

/// What a scan records is counted consistently: `count()` is the number of
/// distinct bars with a match, it is at most `pattern_count()`, and
/// `pattern_count()` is the number of pattern bits over all hits, several
/// patterns at one bar each counting once.
pub proof fn lemma_scan_counts(patterns: CandleSet, first: usize, signals: Seq<CandleSignals>, r: CandleResult)
    requires
        first + signals.len() <= usize::MAX,
        r.spec_hits() == scanned_hits(patterns, first as int, signals, signals.len()),
        r.spec_pattern_count() == scanned_count(patterns, first as int, signals, signals.len()),
    ensures
        Set::new(|i: usize| r.spec_at(i) != 0).finite(),
        r.spec_hits().len() == Set::new(|i: usize| r.spec_at(i) != 0).len(),
        r.spec_hits().len() <= r.spec_pattern_count(),
        r.spec_pattern_count() == total_bits(r.spec_hits()),
{
    let h = r.spec_hits();
    lemma_scanned_hits_sorted(patterns, first as int, signals, signals.len());
    lemma_scanned_totals(patterns, first as int, signals, signals.len());
    let idx = h.map_values(|x: CandleHit| x.index);
    let matched = Set::new(|i: usize| r.spec_at(i) != 0);
    assert forall|i: usize| #[trigger] matched.contains(i) == idx.to_set().contains(i) by {
        if idx.contains(i) {
            let k = choose|k: int| 0 <= k < idx.len() && idx[k] == i;
            lemma_patterns_at_found(h, k);
        }
        if !idx.contains(i) {
            assert forall|k: int| 0 <= k < h.len() implies #[trigger] h[k].index != i by {
                assert(idx[k] == h[k].index);
            }
            lemma_patterns_at_absent(h, i);
        } else {
            let k = choose|k: int| 0 <= k < idx.len() && idx[k] == i;
            assert(h[k].patterns != 0);
        }
    }
    assert(matched =~= idx.to_set());
    assert(idx.no_duplicates()) by {
        assert forall|a: int, b: int| 0 <= a < idx.len() && 0 <= b < idx.len() && a != b implies idx[a]
            != idx[b] by {
            if a < b {
                assert(h[a].index < h[b].index);
            } else {
                assert(h[b].index < h[a].index);
            }
        }
    }
    idx.unique_seq_to_set();
    vstd::seq_lib::seq_to_set_is_finite(idx);
}

proof fn lemma_scanned_take(patterns: CandleSet, first: int, signals: Seq<CandleSignals>, m: nat, j: nat)
    requires
        j <= m <= signals.len(),
    ensures
        scanned_hits(patterns, first, signals.take(m as int), j) == scanned_hits(patterns, first, signals, j),
        scanned_count(patterns, first, signals.take(m as int), j) == scanned_count(patterns, first, signals, j),
    decreases j,
{
    if j > 0 {
        lemma_scanned_take(patterns, first, signals, m, (j - 1) as nat);
        assert(signals.take(m as int)[j - 1] == signals[j - 1]);
    }
}

proof fn lemma_filter_keeps_all(hits: Seq<CandleHit>, pred: spec_fn(CandleHit) -> bool)
    requires
        forall|k: int| 0 <= k < hits.len() ==> pred(#[trigger] hits[k]),
    ensures
        hits.filter(pred) == hits,
    decreases hits.len(),
{
    reveal(Seq::filter);
    if hits.len() > 0 {
        let rest = hits.drop_last();
        assert forall|k: int| 0 <= k < rest.len() implies pred(#[trigger] rest[k]) by {
            assert(rest[k] == hits[k]);
        }
        lemma_filter_keeps_all(rest, pred);
        assert(pred(hits[hits.len() - 1]));
        assert(rest.push(hits.last()) =~= hits);
    }
}

proof fn lemma_scanned_filter(patterns: CandleSet, first: int, signals: Seq<CandleSignals>, m: nat, n: nat)
    requires
        0 <= first,
        first + n <= usize::MAX,
        m <= n <= signals.len(),
    ensures
        scanned_hits(patterns, first, signals, n).filter(|h: CandleHit| h.index < first + m) == scanned_hits(
            patterns,
            first,
            signals,
            m,
        ),
    decreases n,
{
    reveal(Seq::filter);
    let pred = |h: CandleHit| h.index < first + m;
    if n == m {
        lemma_scanned_hits_below(patterns, first, signals, n);
        lemma_filter_keeps_all(scanned_hits(patterns, first, signals, n), pred);
    } else {
        lemma_scanned_filter(patterns, first, signals, m, (n - 1) as nat);
        let prev = scanned_hits(patterns, first, signals, (n - 1) as nat);
        let index = (first + n - 1) as usize;
        let mm = candle_matches(patterns, index, signals[n - 1]);
        if mm != 0 {
            let h = CandleHit { index, patterns: mm };
            assert(prev.push(h).drop_last() =~= prev);
            assert(prev.push(h).last() == h);
            assert(!pred(h));
        }
    }
}

/// A match at a bar depends only on the bars up to it: scanning the first
/// `m` bars records exactly those hits of the scan over all bars that lie
/// before bar `first + m`, and counts exactly their patterns.
pub proof fn lemma_scan_prefix(patterns: CandleSet, first: usize, signals: Seq<CandleSignals>, m: nat)
    requires
        first + signals.len() <= usize::MAX,
        m <= signals.len(),
    ensures
        scanned_hits(patterns, first as int, signals.take(m as int), m) == scanned_hits(
            patterns,
            first as int,
            signals,
            signals.len(),
        ).filter(|h: CandleHit| h.index < first + m),
        scanned_count(patterns, first as int, signals.take(m as int), m) == total_bits(
            scanned_hits(patterns, first as int, signals, signals.len()).filter(
                |h: CandleHit| h.index < first + m,
            ),
        ),
{
    lemma_scanned_take(patterns, first as int, signals, m, m);
    lemma_scanned_filter(patterns, first as int, signals, m, signals.len());
    lemma_scanned_totals(patterns, first as int, signals, m);
}

/// An ASCII lowercase letter in upper case; any other character unchanged.
pub open spec fn upper_ascii(c: char) -> char {
    if 'a' <= c <= 'z' {
        ((c as u32) - 32) as char
    } else {
        c
    }
}

/// A registry name written as a title: underscores become spaces and every
/// word starts with a capital letter.
pub open spec fn title_of(name: Seq<char>) -> Seq<char> {
    Seq::new(
        name.len(),
        |i: int|
            if name[i] == '_' {
                ' '
            } else if i == 0 || name[i - 1] == '_' {
                upper_ascii(name[i])
            } else {
                name[i]
            },
    )
}

/// `a` comes strictly before `b` in character order.
pub open spec fn precedes(a: Seq<char>, b: Seq<char>) -> bool {
    exists|i: int|
        #![trigger a.take(i), b.take(i)]
        0 <= i <= a.len() && i <= b.len() && a.take(i) == b.take(i) && ((i == a.len() && i < b.len()) || (i
            < a.len() && i < b.len() && (a[i] as u32) < (b[i] as u32)))
}

/// A registry name is made of lowercase ASCII letters and underscores.
pub open spec fn is_registry_name(name: Seq<char>) -> bool {
    name.len() > 0 && forall|i: int| 0 <= i < name.len() ==> (('a' <= #[trigger] name[i] <= 'z') || name[i] == '_')
}

/// The text of registry entry `k`: its name is made of lowercase letters and
/// underscores, its full name is that name written as a title, and its name
/// comes before the next entry's.
pub proof fn lemma_candle_entry_text(k: int)
    requires
        0 <= k < spec_candle_count(),
    ensures
        is_registry_name(spec_candle(k).name@),
        spec_candle(k).full_name@ == title_of(spec_candle(k).name@),
        k + 1 < spec_candle_count() ==> precedes(spec_candle(k).name@, spec_candle(k + 1).name@),
{
    if k == 0 {
        reveal_strlit("abandoned_baby_bear");
        reveal_strlit("Abandoned Baby Bear");
        assert(spec_candle(0).full_name@ =~= title_of(spec_candle(0).name@));
        reveal_strlit("abandoned_baby_bull");
        assert(spec_candle(0).name@.take(16) =~= spec_candle(1).name@.take(16));
        assert((spec_candle(0).name@[16] as u32) < (spec_candle(1).name@[16] as u32));
    } else if k == 1 {
        reveal_strlit("abandoned_baby_bull");
        reveal_strlit("Abandoned Baby Bull");
        assert(spec_candle(1).full_name@ =~= title_of(spec_candle(1).name@));
        reveal_strlit("big_black_candle");
        assert(spec_candle(1).name@.take(0) =~= spec_candle(2).name@.take(0));
        assert((spec_candle(1).name@[0] as u32) < (spec_candle(2).name@[0] as u32));
    } else if k == 2 {
        reveal_strlit("big_black_candle");
        reveal_strlit("Big Black Candle");
        assert(spec_candle(2).full_name@ =~= title_of(spec_candle(2).name@));
        reveal_strlit("big_white_candle");
        assert(spec_candle(2).name@.take(4) =~= spec_candle(3).name@.take(4));
        assert((spec_candle(2).name@[4] as u32) < (spec_candle(3).name@[4] as u32));
    } else if k == 3 {
        reveal_strlit("big_white_candle");
        reveal_strlit("Big White Candle");
        assert(spec_candle(3).full_name@ =~= title_of(spec_candle(3).name@));
        reveal_strlit("black_marubozu");
        assert(spec_candle(3).name@.take(1) =~= spec_candle(4).name@.take(1));
        assert((spec_candle(3).name@[1] as u32) < (spec_candle(4).name@[1] as u32));
    } else if k == 4 {
        reveal_strlit("black_marubozu");
        reveal_strlit("Black Marubozu");
        assert(spec_candle(4).full_name@ =~= title_of(spec_candle(4).name@));
        reveal_strlit("doji");
        assert(spec_candle(4).name@.take(0) =~= spec_candle(5).name@.take(0));
        assert((spec_candle(4).name@[0] as u32) < (spec_candle(5).name@[0] as u32));
    } else if k == 5 {
        reveal_strlit("doji");
        reveal_strlit("Doji");
        assert(spec_candle(5).full_name@ =~= title_of(spec_candle(5).name@));
        reveal_strlit("dragonfly_doji");
        assert(spec_candle(5).name@.take(1) =~= spec_candle(6).name@.take(1));
        assert((spec_candle(5).name@[1] as u32) < (spec_candle(6).name@[1] as u32));
    } else if k == 6 {
        reveal_strlit("dragonfly_doji");
        reveal_strlit("Dragonfly Doji");
        assert(spec_candle(6).full_name@ =~= title_of(spec_candle(6).name@));
        reveal_strlit("engulfing_bear");
        assert(spec_candle(6).name@.take(0) =~= spec_candle(7).name@.take(0));
        assert((spec_candle(6).name@[0] as u32) < (spec_candle(7).name@[0] as u32));
    } else if k == 7 {
        reveal_strlit("engulfing_bear");
        reveal_strlit("Engulfing Bear");
        assert(spec_candle(7).full_name@ =~= title_of(spec_candle(7).name@));
        reveal_strlit("engulfing_bull");
        assert(spec_candle(7).name@.take(11) =~= spec_candle(8).name@.take(11));
        assert((spec_candle(7).name@[11] as u32) < (spec_candle(8).name@[11] as u32));
    } else if k == 8 {
        reveal_strlit("engulfing_bull");
        reveal_strlit("Engulfing Bull");
        assert(spec_candle(8).full_name@ =~= title_of(spec_candle(8).name@));
        reveal_strlit("evening_doji_star");
        assert(spec_candle(8).name@.take(1) =~= spec_candle(9).name@.take(1));
        assert((spec_candle(8).name@[1] as u32) < (spec_candle(9).name@[1] as u32));
    } else if k == 9 {
        reveal_strlit("evening_doji_star");
        reveal_strlit("Evening Doji Star");
        assert(spec_candle(9).full_name@ =~= title_of(spec_candle(9).name@));
        reveal_strlit("evening_star");
        assert(spec_candle(9).name@.take(8) =~= spec_candle(10).name@.take(8));
        assert((spec_candle(9).name@[8] as u32) < (spec_candle(10).name@[8] as u32));
    } else if k == 10 {
        reveal_strlit("evening_star");
        reveal_strlit("Evening Star");
        assert(spec_candle(10).full_name@ =~= title_of(spec_candle(10).name@));
        reveal_strlit("four_price_doji");
        assert(spec_candle(10).name@.take(0) =~= spec_candle(11).name@.take(0));
        assert((spec_candle(10).name@[0] as u32) < (spec_candle(11).name@[0] as u32));
    } else if k == 11 {
        reveal_strlit("four_price_doji");
        reveal_strlit("Four Price Doji");
        assert(spec_candle(11).full_name@ =~= title_of(spec_candle(11).name@));
        reveal_strlit("gravestone_doji");
        assert(spec_candle(11).name@.take(0) =~= spec_candle(12).name@.take(0));
        assert((spec_candle(11).name@[0] as u32) < (spec_candle(12).name@[0] as u32));
    } else if k == 12 {
        reveal_strlit("gravestone_doji");
        reveal_strlit("Gravestone Doji");
        assert(spec_candle(12).full_name@ =~= title_of(spec_candle(12).name@));
        reveal_strlit("hammer");
        assert(spec_candle(12).name@.take(0) =~= spec_candle(13).name@.take(0));
        assert((spec_candle(12).name@[0] as u32) < (spec_candle(13).name@[0] as u32));
    } else if k == 13 {
        reveal_strlit("hammer");
        reveal_strlit("Hammer");
        assert(spec_candle(13).full_name@ =~= title_of(spec_candle(13).name@));
        reveal_strlit("hanging_man");
        assert(spec_candle(13).name@.take(2) =~= spec_candle(14).name@.take(2));
        assert((spec_candle(13).name@[2] as u32) < (spec_candle(14).name@[2] as u32));
    } else if k == 14 {
        reveal_strlit("hanging_man");
        reveal_strlit("Hanging Man");
        assert(spec_candle(14).full_name@ =~= title_of(spec_candle(14).name@));
        reveal_strlit("inverted_hammer");
        assert(spec_candle(14).name@.take(0) =~= spec_candle(15).name@.take(0));
        assert((spec_candle(14).name@[0] as u32) < (spec_candle(15).name@[0] as u32));
    } else if k == 15 {
        reveal_strlit("inverted_hammer");
        reveal_strlit("Inverted Hammer");
        assert(spec_candle(15).full_name@ =~= title_of(spec_candle(15).name@));
        reveal_strlit("long_legged_doji");
        assert(spec_candle(15).name@.take(0) =~= spec_candle(16).name@.take(0));
        assert((spec_candle(15).name@[0] as u32) < (spec_candle(16).name@[0] as u32));
    } else if k == 16 {
        reveal_strlit("long_legged_doji");
        reveal_strlit("Long Legged Doji");
        assert(spec_candle(16).full_name@ =~= title_of(spec_candle(16).name@));
        reveal_strlit("marubozu");
        assert(spec_candle(16).name@.take(0) =~= spec_candle(17).name@.take(0));
        assert((spec_candle(16).name@[0] as u32) < (spec_candle(17).name@[0] as u32));
    } else if k == 17 {
        reveal_strlit("marubozu");
        reveal_strlit("Marubozu");
        assert(spec_candle(17).full_name@ =~= title_of(spec_candle(17).name@));
        reveal_strlit("morning_doji_star");
        assert(spec_candle(17).name@.take(1) =~= spec_candle(18).name@.take(1));
        assert((spec_candle(17).name@[1] as u32) < (spec_candle(18).name@[1] as u32));
    } else if k == 18 {
        reveal_strlit("morning_doji_star");
        reveal_strlit("Morning Doji Star");
        assert(spec_candle(18).full_name@ =~= title_of(spec_candle(18).name@));
        reveal_strlit("morning_star");
        assert(spec_candle(18).name@.take(8) =~= spec_candle(19).name@.take(8));
        assert((spec_candle(18).name@[8] as u32) < (spec_candle(19).name@[8] as u32));
    } else if k == 19 {
        reveal_strlit("morning_star");
        reveal_strlit("Morning Star");
        assert(spec_candle(19).full_name@ =~= title_of(spec_candle(19).name@));
        reveal_strlit("shooting_star");
        assert(spec_candle(19).name@.take(0) =~= spec_candle(20).name@.take(0));
        assert((spec_candle(19).name@[0] as u32) < (spec_candle(20).name@[0] as u32));
    } else if k == 20 {
        reveal_strlit("shooting_star");
        reveal_strlit("Shooting Star");
        assert(spec_candle(20).full_name@ =~= title_of(spec_candle(20).name@));
        reveal_strlit("spinning_top");
        assert(spec_candle(20).name@.take(1) =~= spec_candle(21).name@.take(1));
        assert((spec_candle(20).name@[1] as u32) < (spec_candle(21).name@[1] as u32));
    } else if k == 21 {
        reveal_strlit("spinning_top");
        reveal_strlit("Spinning Top");
        assert(spec_candle(21).full_name@ =~= title_of(spec_candle(21).name@));
        reveal_strlit("star");
        assert(spec_candle(21).name@.take(1) =~= spec_candle(22).name@.take(1));
        assert((spec_candle(21).name@[1] as u32) < (spec_candle(22).name@[1] as u32));
    } else if k == 22 {
        reveal_strlit("star");
        reveal_strlit("Star");
        assert(spec_candle(22).full_name@ =~= title_of(spec_candle(22).name@));
        reveal_strlit("three_black_crows");
        assert(spec_candle(22).name@.take(0) =~= spec_candle(23).name@.take(0));
        assert((spec_candle(22).name@[0] as u32) < (spec_candle(23).name@[0] as u32));
    } else if k == 23 {
        reveal_strlit("three_black_crows");
        reveal_strlit("Three Black Crows");
        assert(spec_candle(23).full_name@ =~= title_of(spec_candle(23).name@));
        reveal_strlit("three_white_soldiers");
        assert(spec_candle(23).name@.take(6) =~= spec_candle(24).name@.take(6));
        assert((spec_candle(23).name@[6] as u32) < (spec_candle(24).name@[6] as u32));
    } else if k == 24 {
        reveal_strlit("three_white_soldiers");
        reveal_strlit("Three White Soldiers");
        assert(spec_candle(24).full_name@ =~= title_of(spec_candle(24).name@));
        reveal_strlit("white_marubozu");
        assert(spec_candle(24).name@.take(0) =~= spec_candle(25).name@.take(0));
        assert((spec_candle(24).name@[0] as u32) < (spec_candle(25).name@[0] as u32));
    } else {
        reveal_strlit("white_marubozu");
        reveal_strlit("White Marubozu");
        assert(spec_candle(25).full_name@ =~= title_of(spec_candle(25).name@));
    }
}

/// The registry as a whole: every name is lowercase letters and underscores,
/// every full name is its name written as a title, and the names are listed
/// in strictly increasing order.
pub proof fn lemma_candle_registry_text()
    ensures
        forall|k: int| 0 <= k < spec_candle_count() ==> is_registry_name(#[trigger] spec_candle(k).name@),
        forall|k: int| 0 <= k < spec_candle_count() ==> #[trigger] spec_candle(k).full_name@ == title_of(spec_candle(k).name@),
        forall|k: int| 0 <= k < spec_candle_count() - 1 ==> precedes(#[trigger] spec_candle(k).name@, spec_candle(k + 1).name@),
{
    assert forall|k: int| 0 <= k < spec_candle_count() implies {
        &&& is_registry_name(#[trigger] spec_candle(k).name@)
        &&& spec_candle(k).full_name@ == title_of(spec_candle(k).name@)
        &&& (k + 1 < spec_candle_count() ==> precedes(spec_candle(k).name@, spec_candle(k + 1).name@))
    } by {
        lemma_candle_entry_text(k);
    }
}

} // verus!
