//! Benchmark configuration and the arithmetic around benchmark runs: the
//! iteration budget, the median sample, the default period, and the
//! comma-separated size lists read from and written to the environment.
//!
//! Durations are carried as whole milliseconds (targets) or nanoseconds
//! (samples).

use vstd::prelude::*;
use vstd::relations::{sorted_by, total_ordering};

use crate::error::IndicatorError;
use crate::indicator::{output_len_for_input, spec_output_len};
use crate::text::{
    chars_of, decimal_chars, decimal_value, digit_char, digit_value, is_digit, parse_unsigned, parse_unsigned_range,
    push_decimal, split_on, lemma_split_on_nonempty, str_equal, trim, trim_range, unsigned_digits,
};

verus! {

broadcast use vstd::seq_lib::group_to_multiset_ensures;

/// Default input lengths.
pub const DEFAULT_SIZES: [usize; 4] = [256, 4096, 65_536, 262_144];

/// Default chunk length for stream benchmarks.
pub const DEFAULT_STREAM_CHUNK: usize = 1024;

/// Default lower bound on iterations per sample.
pub const DEFAULT_MIN_ITERATIONS: usize = 16;

/// Default target duration of one sample, in milliseconds.
pub const DEFAULT_TARGET_MS: u64 = 1_000;

/// Default number of timed samples.
pub const DEFAULT_REPEATS: usize = 3;

/// Which API path a benchmark measured.
#[derive(Debug, Clone, Copy, PartialEq, Eq, Structural)]
pub enum BenchmarkMode {
    Batch,
    Stream,
}

impl BenchmarkMode {
    /// The lowercase label of the mode.
    pub fn as_str(self) -> (r: &'static str)
        ensures
            self == BenchmarkMode::Batch ==> r@ == "batch"@,
            self == BenchmarkMode::Stream ==> r@ == "stream"@,
    {
        match self {
            BenchmarkMode::Batch => "batch",
            BenchmarkMode::Stream => "stream",
        }
    }
}

/// Settings of a benchmark run.
#[derive(Debug, Clone)]
pub struct BenchmarkConfig {
    pub sizes: Vec<usize>,
    pub stream_chunk_size: usize,
    pub min_iterations: usize,
    /// Target duration of one timed sample, in milliseconds.
    pub target_duration_ms: u64,
    pub repeats: usize,
    pub output_dir: String,
}

impl BenchmarkConfig {
    /// The default settings, writing reports under `output_dir`.
    pub fn with_output_dir(output_dir: String) -> (r: Self)
        ensures
            r.sizes@ == seq![256usize, 4096, 65_536, 262_144],
            r.stream_chunk_size == DEFAULT_STREAM_CHUNK,
            r.min_iterations == DEFAULT_MIN_ITERATIONS,
            r.target_duration_ms == DEFAULT_TARGET_MS,
            r.repeats == DEFAULT_REPEATS,
            r.output_dir@ == output_dir@,
    {
        let defaults = DEFAULT_SIZES;
        let mut sizes: Vec<usize> = Vec::new();
        let mut i: usize = 0;
        while i < 4
            invariant
                0 <= i <= 4,
                defaults@ == seq![256usize, 4096, 65_536, 262_144],
                sizes@ == defaults@.take(i as int),
            decreases 4 - i,
        {
            sizes.push(defaults[i]);
            proof {
                assert(defaults@.take(i + 1) =~= defaults@.take(i as int).push(defaults@[i as int]));
            }
            i = i + 1;
        }
        proof {
            assert(defaults@.take(4) =~= defaults@);
        }
        BenchmarkConfig {
            sizes,
            stream_chunk_size: DEFAULT_STREAM_CHUNK,
            min_iterations: DEFAULT_MIN_ITERATIONS,
            target_duration_ms: DEFAULT_TARGET_MS,
            repeats: DEFAULT_REPEATS,
            output_dir,
        }
    }

    /// Apply settings read from the environment: each argument is the text of
    /// the corresponding variable when it is set. A size list replaces the
    /// sizes when it yields at least one size; a number replaces its setting
    /// when it parses and is positive; anything else is ignored.
    pub fn apply_env(
        &mut self,
        sizes: Option<&str>,
        stream_chunk_size: Option<&str>,
        min_iterations: Option<&str>,
        target_ms: Option<&str>,
        repeats: Option<&str>,
    )
        ensures
            final(self).output_dir == old(self).output_dir,
            final(self).sizes@ == (match sizes {
                Some(raw) => if csv_sizes(raw@).len() > 0 {
                    csv_sizes(raw@)
                } else {
                    old(self).sizes@
                },
                None => old(self).sizes@,
            }),
            final(self).stream_chunk_size == positive_setting(stream_chunk_size, usize::MAX as nat, old(self).stream_chunk_size as nat),
            final(self).min_iterations == positive_setting(min_iterations, usize::MAX as nat, old(self).min_iterations as nat),
            final(self).target_duration_ms == positive_setting(target_ms, u64::MAX as nat, old(self).target_duration_ms as nat),
            final(self).repeats == positive_setting(repeats, usize::MAX as nat, old(self).repeats as nat),
    {
        if let Some(raw) = sizes {
            let parsed = parse_csv_usize(raw);
            if parsed.len() > 0 {
                self.sizes = parsed;
            }
        }
        self.stream_chunk_size = apply_positive(stream_chunk_size, usize::MAX as u64, self.stream_chunk_size as u64) as usize;
        self.min_iterations = apply_positive(min_iterations, usize::MAX as u64, self.min_iterations as u64) as usize;
        self.target_duration_ms = apply_positive(target_ms, u64::MAX, self.target_duration_ms);
        self.repeats = apply_positive(repeats, usize::MAX as u64, self.repeats as u64) as usize;
    }
}

/// The setting after reading `raw`: its value when it parses as an unsigned
/// integer of at most `max` and is positive, `current` otherwise.
pub open spec fn positive_setting(raw: Option<&str>, max: nat, current: nat) -> nat {
    match raw {
        Some(text) => match parse_unsigned(text@, max) {
            Some(v) => if v > 0 {
                v
            } else {
                current
            },
            None => current,
        },
        None => current,
    }
}

fn apply_positive(raw: Option<&str>, max: u64, current: u64) -> (r: u64)
    requires
        current <= max,
    ensures
        r == positive_setting(raw, max as nat, current as nat),
        r <= max,
{
    match raw {
        Some(text) => {
            let chars = chars_of(text);
            proof {
                assert(chars@.subrange(0, chars@.len() as int) =~= text@);
            }
            match parse_unsigned_range(&chars, 0, chars.len(), max) {
                Some(v) => if v > 0 {
                    v
                } else {
                    current
                },
                None => current,
            }
        },
        None => current,
    }
}

/// Iterations per timed sample: a work target of a million input samples
/// per second of target duration (saturating), divided by the input length,
/// but never fewer than the configured minimum.
pub open spec fn spec_choose_iterations(input_len: nat, min_iterations: nat, target_ms: nat) -> nat {
    let scaled = 1_000_000 * target_ms;
    let target_work = (if scaled > usize::MAX {
        usize::MAX as nat
    } else {
        scaled
    }) / (DEFAULT_TARGET_MS as nat);
    let per_input = target_work / (if input_len > 1 {
        input_len
    } else {
        1
    });
    if per_input >= min_iterations {
        per_input
    } else {
        min_iterations
    }
}

/// Choose how many iterations one timed sample runs.
pub fn choose_iterations(input_len: usize, config: &BenchmarkConfig) -> (r: usize)
    ensures
        r >= config.min_iterations,
        r == spec_choose_iterations(
            input_len as nat,
            config.min_iterations as nat,
            (config.target_duration_ms as usize) as nat,
        ),
{
    let ms = config.target_duration_ms as usize;
    let scaled = match 1_000_000usize.checked_mul(ms) {
        Some(v) => v,
        None => usize::MAX,
    };
    let target_work = scaled / (DEFAULT_TARGET_MS as usize);
    let divisor = if input_len > 1 {
        input_len
    } else {
        1
    };
    let iterations = target_work / divisor;
    if iterations >= config.min_iterations {
        iterations
    } else {
        config.min_iterations
    }
}

/// The order used to rank duration samples.
pub open spec fn sample_order() -> spec_fn(u128, u128) -> bool {
    |a: u128, b: u128| a <= b
}

proof fn lemma_sample_order_total()
    ensures
        total_ordering(sample_order()),
{
}

fn sorted_samples(samples: &Vec<u128>) -> (r: Vec<u128>)
    ensures
        r@.to_multiset() == samples@.to_multiset(),
        sorted_by(r@, sample_order()),
{
    let mut sorted: Vec<u128> = Vec::new();
    let mut i: usize = 0;
    while i < samples.len()
        invariant
            0 <= i <= samples@.len(),
            sorted@.to_multiset() == samples@.take(i as int).to_multiset(),
            sorted_by(sorted@, sample_order()),
        decreases samples@.len() - i,
    {
        let x = samples[i];
        let mut pos: usize = 0;
        while pos < sorted.len() && sorted[pos] <= x
            invariant
                0 <= pos <= sorted@.len(),
                forall|j: int| 0 <= j < pos ==> #[trigger] sorted@[j] <= x,
            decreases sorted@.len() - pos,
        {
            pos = pos + 1;
        }
        let ghost before = sorted@;
        sorted.insert(pos, x);
        proof {
            assert(samples@.take(i + 1) =~= samples@.take(i as int).push(x));
            assert(sorted@ =~= before.insert(pos as int, x));
            assert forall|a: int, b: int| 0 <= a < b < sorted@.len() implies #[trigger] (sample_order())(sorted@[a], sorted@[b]) by {
                if b < pos {
                    assert((sample_order())(before[a], before[b]));
                } else if b == pos {
                } else if a < pos {
                    if pos < before.len() {
                        assert(x < before[pos as int]);
                        assert((sample_order())(before[pos as int], before[b - 1]) || pos == b - 1);
                    }
                } else if a == pos {
                    assert(x < before[pos as int]);
                    assert((sample_order())(before[pos as int], before[b - 1]) || pos == b - 1);
                } else {
                    assert((sample_order())(before[a - 1], before[b - 1]));
                }
            }
        }
        i = i + 1;
    }
    proof {
        assert(samples@.take(samples@.len() as int) =~= samples@);
    }
    sorted
}

/// The median of the duration samples (in nanoseconds): the sample at
/// position `len / 2` once the samples are sorted.
pub fn median_duration(samples: Vec<u128>) -> (r: u128)
    requires
        samples@.len() > 0,
    ensures
        r == samples@.sort_by(sample_order())[(samples@.len() / 2) as int],
{
    let sorted = sorted_samples(&samples);
    proof {
        lemma_sample_order_total();
        samples@.lemma_sort_by_ensures(sample_order());
        vstd::seq_lib::lemma_sorted_unique(sorted@, samples@.sort_by(sample_order()), sample_order());
        sorted@.to_multiset_ensures();
        samples@.to_multiset_ensures();
        assert(sorted@.len() == samples@.len());
    }
    sorted[samples.len() / 2]
}

/// The comma-separated fields of `s` (an empty text is one empty field).
pub open spec fn csv_fields(s: Seq<char>) -> Seq<Seq<char>> {
    split_on(s, ',')
}

/// The positive sizes written in `fields`, in order: each field is trimmed
/// and read as an unsigned integer; fields that do not read, or read as
/// zero, are skipped.
pub open spec fn positive_sizes(fields: Seq<Seq<char>>) -> Seq<usize>
    decreases fields.len(),
{
    if fields.len() == 0 {
        Seq::empty()
    } else {
        let prev = positive_sizes(fields.drop_last());
        match parse_unsigned(trim(fields.last()), usize::MAX as nat) {
            Some(v) => if v > 0 {
                prev.push(v as usize)
            } else {
                prev
            },
            None => prev,
        }
    }
}

/// The sizes listed in a comma-separated text.
pub open spec fn csv_sizes(s: Seq<char>) -> Seq<usize> {
    positive_sizes(csv_fields(s))
}

/// Read the positive sizes from a comma-separated list such as `"256, 4096"`.
pub fn parse_csv_usize(raw: &str) -> (r: Vec<usize>)
    ensures
        r@ == csv_sizes(raw@),
{
    let chars = chars_of(raw);
    let n = chars.len();
    let mut values: Vec<usize> = Vec::new();
    let mut start: usize = 0;
    let mut pos: usize = 0;
    let ghost mut done: Seq<Seq<char>> = Seq::empty();
    proof {
        assert(chars@.take(0) =~= Seq::<char>::empty());
        assert(chars@.subrange(0, 0) =~= Seq::<char>::empty());
        assert(done.push(chars@.subrange(0, 0)) =~= seq![Seq::<char>::empty()]);
    }
    while pos < n
        invariant
            n == chars@.len(),
            chars@ == raw@,
            0 <= start <= pos <= n,
            csv_fields(chars@.take(pos as int)) == done.push(chars@.subrange(start as int, pos as int)),
            values@ == positive_sizes(done),
        decreases n - pos,
    {
        let c = chars[pos];
        proof {
            let pre = chars@.take(pos + 1);
            assert(pre.drop_last() =~= chars@.take(pos as int));
            assert(pre.last() == c);
        }
        if c == ',' {
            let (a, b) = trim_range(&chars, start, pos);
            match parse_unsigned_range(&chars, a, b, usize::MAX as u64) {
                Some(v) => if v > 0 {
                    values.push(v as usize);
                },
                None => {},
            }
            proof {
                let field = chars@.subrange(start as int, pos as int);
                assert(done.push(field).drop_last() =~= done);
                done = done.push(field);
                assert(chars@.subrange(pos + 1, pos + 1) =~= Seq::<char>::empty());
            }
            start = pos + 1;
        } else {
            proof {
                let cur = chars@.subrange(start as int, pos as int);
                assert(chars@.subrange(start as int, pos + 1) =~= cur.push(c));
                assert(done.push(cur).update(done.len() as int, cur.push(c)) =~= done.push(cur.push(c)));
            }
        }
        pos = pos + 1;
    }
    let (a, b) = trim_range(&chars, start, n);
    match parse_unsigned_range(&chars, a, b, usize::MAX as u64) {
        Some(v) => if v > 0 {
            values.push(v as usize);
        },
        None => {},
    }
    proof {
        let field = chars@.subrange(start as int, n as int);
        assert(chars@.take(n as int) =~= chars@);
        assert(done.push(field).drop_last() =~= done);
    }
    values
}

/// The sizes written as a comma-separated list.
pub open spec fn joined_sizes(sizes: Seq<usize>) -> Seq<char>
    decreases sizes.len(),
{
    if sizes.len() == 0 {
        Seq::empty()
    } else if sizes.len() == 1 {
        decimal_chars(sizes[0] as nat)
    } else {
        joined_sizes(sizes.drop_last()) + seq![','] + decimal_chars(sizes.last() as nat)
    }
}

/// Write sizes as a comma-separated list such as `"256,4096"`.
pub fn join_sizes(sizes: &[usize]) -> (r: String)
    ensures
        r@ == joined_sizes(sizes@),
{
    let mut out = String::new();
    let mut i: usize = 0;
    while i < sizes.len()
        invariant
            0 <= i <= sizes@.len(),
            out@ == joined_sizes(sizes@.take(i as int)),
        decreases sizes@.len() - i,
    {
        let ghost before = out@;
        if i > 0 {
            out.append(",");
            proof {
                reveal_strlit(",");
            }
        }
        push_decimal(&mut out, sizes[i]);
        proof {
            let pre = sizes@.take(i + 1);
            assert(pre.drop_last() =~= sizes@.take(i as int));
            if i == 0 {
                assert(before =~= Seq::<char>::empty());
                assert(out@ =~= decimal_chars(sizes@[0] as nat));
            } else {
                assert(out@ =~= before + seq![','] + decimal_chars(sizes@[i as int] as nat));
            }
        }
        i = i + 1;
    }
    proof {
        assert(sizes@.take(sizes@.len() as int) =~= sizes@);
    }
    out
}

/// The default period option for an input of `input_len` samples: a
/// thirty-second of the length, kept between 5 and 30.
pub fn default_period(input_len: usize) -> (r: usize)
    ensures
        r == (if input_len / 32 < 5 {
            5
        } else if input_len / 32 > 30 {
            30
        } else {
            input_len / 32
        }),
{
    let candidate = input_len / 32;
    if candidate < 5 {
        5
    } else if candidate > 30 {
        30
    } else {
        candidate
    }
}

proof fn lemma_csv_fields_append_plain(a: Seq<char>, b: Seq<char>)
    requires
        forall|i: int| 0 <= i < b.len() ==> #[trigger] b[i] != ',',
    ensures
        csv_fields(a + b) == csv_fields(a).update(
            csv_fields(a).len() - 1,
            csv_fields(a).last() + b,
        ),
    decreases b.len(),
{
    lemma_split_on_nonempty(a, ',');
    if b.len() == 0 {
        assert(a + b =~= a);
        assert(csv_fields(a).last() + b =~= csv_fields(a).last());
        assert(csv_fields(a).update(csv_fields(a).len() - 1, csv_fields(a).last()) =~= csv_fields(a));
    } else {
        let b0 = b.drop_last();
        assert forall|i: int| 0 <= i < b0.len() implies #[trigger] b0[i] != ',' by {
            assert(b0[i] == b[i]);
        }
        lemma_csv_fields_append_plain(a, b0);
        assert((a + b).drop_last() =~= a + b0);
        assert((a + b).last() == b.last());
        assert(b.last() == b[b.len() - 1]);
        let f = csv_fields(a);
        let g = f.update(f.len() - 1, f.last() + b0);
        assert(b.last() != ',');
        assert(csv_fields(a + b) == g.update(g.len() - 1, g.last().push(b.last())));
        assert(g.len() == f.len());
        assert(g.last() == f.last() + b0);
        assert((f.last() + b0).push(b.last()) =~= f.last() + b);
        assert(g.update(g.len() - 1, g.last().push(b.last())) =~= f.update(f.len() - 1, f.last() + b));
    }
}

proof fn lemma_digit_value(k: nat)
    requires
        k < 10,
    ensures
        digit_value(digit_char(k)) == k,
        is_digit(digit_char(k)),
{
    assert((((('0' as u32) + k) as char) as u32) == ('0' as u32) + k);
}

proof fn lemma_decimal_chars_digits(n: nat)
    ensures
        decimal_chars(n).len() > 0,
        forall|i: int| 0 <= i < decimal_chars(n).len() ==> is_digit(#[trigger] decimal_chars(n)[i]),
        decimal_value(decimal_chars(n)) == n,
    decreases n,
{
    lemma_digit_value(n % 10);
    if n < 10 {
        let d = decimal_chars(n);
        assert(d.drop_last() =~= Seq::<char>::empty());
        assert(d.last() == digit_char(n));
        assert(n % 10 == n);
        assert(decimal_value(d) == decimal_value(d.drop_last()) * 10 + digit_value(d.last()));
    } else {
        lemma_decimal_chars_digits(n / 10);
        let d = decimal_chars(n);
        assert(d.drop_last() =~= decimal_chars(n / 10));
        assert(d.last() == digit_char(n % 10));
        assert((n / 10) * 10 + n % 10 == n);
        assert(decimal_value(d) == decimal_value(d.drop_last()) * 10 + digit_value(d.last()));
        assert forall|i: int| 0 <= i < d.len() implies is_digit(#[trigger] d[i]) by {
            if i < d.len() - 1 {
                assert(d[i] == decimal_chars(n / 10)[i]);
            }
        }
    }
}

proof fn lemma_decimal_chars_read(n: nat)
    ensures
        forall|i: int| 0 <= i < decimal_chars(n).len() ==> #[trigger] decimal_chars(n)[i] != ',',
        trim(decimal_chars(n)) == decimal_chars(n),
        n <= usize::MAX ==> parse_unsigned(decimal_chars(n), usize::MAX as nat) == Some(n),
{
    lemma_decimal_chars_digits(n);
    let d = decimal_chars(n);
    assert forall|i: int| 0 <= i < d.len() implies #[trigger] d[i] != ',' by {
        assert(is_digit(d[i]));
    }
    assert(is_digit(d[0]));
    assert(is_digit(d.last()));
    assert(unsigned_digits(d) == d);
}

/// The sizes of `s` in decimal, one field each.
proof fn lemma_csv_fields_of_joined(s: Seq<usize>)
    requires
        s.len() > 0,
    ensures
        csv_fields(joined_sizes(s)) == s.map_values(|v: usize| decimal_chars(v as nat)),
    decreases s.len(),
{
    if s.len() == 1 {
        lemma_decimal_chars_read(s[0] as nat);
        lemma_csv_fields_append_plain(Seq::empty(), decimal_chars(s[0] as nat));
        assert(Seq::<char>::empty() + decimal_chars(s[0] as nat) =~= decimal_chars(s[0] as nat));
        assert(csv_fields(Seq::<char>::empty()) =~= seq![Seq::<char>::empty()]);
        assert(Seq::<char>::empty() + decimal_chars(s[0] as nat) =~= decimal_chars(s[0] as nat));
        assert(csv_fields(joined_sizes(s)) =~= s.map_values(|v: usize| decimal_chars(v as nat)));
    } else {
        let s0 = s.drop_last();
        lemma_csv_fields_of_joined(s0);
        let head = joined_sizes(s0) + seq![','];
        let last = decimal_chars(s.last() as nat);
        lemma_decimal_chars_read(s.last() as nat);
        assert(head.drop_last() =~= joined_sizes(s0));
        assert(csv_fields(head) == csv_fields(joined_sizes(s0)).push(Seq::<char>::empty()));
        lemma_csv_fields_append_plain(head, last);
        lemma_split_on_nonempty(head, ',');
        assert(Seq::<char>::empty() + last =~= last);
        assert(csv_fields(joined_sizes(s)) =~= s.map_values(|v: usize| decimal_chars(v as nat)));
    }
}

proof fn lemma_positive_sizes_of_decimals(s: Seq<usize>)
    requires
        forall|i: int| 0 <= i < s.len() ==> #[trigger] s[i] > 0,
    ensures
        positive_sizes(s.map_values(|v: usize| decimal_chars(v as nat))) == s,
    decreases s.len(),
{
    if s.len() > 0 {
        let s0 = s.drop_last();
        assert forall|i: int| 0 <= i < s0.len() implies #[trigger] s0[i] > 0 by {
            assert(s0[i] == s[i]);
        }
        lemma_positive_sizes_of_decimals(s0);
        let m = s.map_values(|v: usize| decimal_chars(v as nat));
        assert(m.drop_last() =~= s0.map_values(|v: usize| decimal_chars(v as nat)));
        lemma_decimal_chars_read(s.last() as nat);
        assert(m.last() == decimal_chars(s.last() as nat));
        assert(s0.push(s.last()) =~= s);
    }
}

/// Writing positive sizes as a comma-separated list and reading the list
/// back gives the same sizes.
pub proof fn lemma_sizes_round_trip(sizes: Seq<usize>)
    requires
        forall|i: int| 0 <= i < sizes.len() ==> #[trigger] sizes[i] > 0,
    ensures
        csv_sizes(joined_sizes(sizes)) == sizes,
{
    if sizes.len() == 0 {
        assert(joined_sizes(sizes) == Seq::<char>::empty());
        assert(csv_fields(Seq::<char>::empty()) =~= seq![Seq::<char>::empty()]);
        let f = csv_fields(Seq::<char>::empty());
        assert(f.drop_last() =~= Seq::<Seq<char>>::empty());
        assert(f.last() == Seq::<char>::empty());
        assert(trim(Seq::<char>::empty()) =~= Seq::<char>::empty());
        assert(parse_unsigned(Seq::<char>::empty(), usize::MAX as nat) is None);
        assert(f.drop_last().len() == 0);
        assert(positive_sizes(f.drop_last()) == Seq::<usize>::empty());
        assert(positive_sizes(f) =~= sizes);
    } else {
        lemma_csv_fields_of_joined(sizes);
        lemma_positive_sizes_of_decimals(sizes);
    }
}

/// The `[start, end)` row ranges in which a stream benchmark feeds an input
/// of `input_len` rows: consecutive chunks of `chunk_size` rows, the last
/// one possibly shorter.
pub fn stream_chunks(input_len: usize, chunk_size: usize) -> (r: Vec<(usize, usize)>)
    requires
        chunk_size > 0,
    ensures
        forall|k: int|
            0 <= k < r@.len() ==> {
                &&& (#[trigger] r@[k]).0 < r@[k].1 <= input_len
                &&& r@[k].0 == k * chunk_size
                &&& r@[k].1 == (if r@[k].0 + chunk_size <= input_len {
                    r@[k].0 + chunk_size
                } else {
                    input_len as int
                })
            },
        r@.len() == 0 <==> input_len == 0,
        r@.len() > 0 ==> r@.last().1 == input_len,
{
    let mut chunks: Vec<(usize, usize)> = Vec::new();
    let mut start: usize = 0;
    while start < input_len
        invariant
            chunk_size > 0,
            start <= input_len,
            start < input_len ==> start == chunks@.len() * chunk_size,
            forall|k: int|
                0 <= k < chunks@.len() ==> {
                    &&& (#[trigger] chunks@[k]).0 < chunks@[k].1 <= input_len
                    &&& chunks@[k].0 == k * chunk_size
                    &&& chunks@[k].1 == (if chunks@[k].0 + chunk_size <= input_len {
                        chunks@[k].0 + chunk_size
                    } else {
                        input_len as int
                    })
                },
            chunks@.len() > 0 ==> chunks@.last().1 == start,
            chunks@.len() == 0 ==> start == 0,
        decreases input_len - start,
    {
        let end = if chunk_size <= input_len - start {
            start + chunk_size
        } else {
            input_len
        };
        proof {
            assert((chunks@.len() + 1) * chunk_size == chunks@.len() * chunk_size + chunk_size) by (nonlinear_arith);
        }
        chunks.push((start, end));
        start = end;
    }
    chunks
}

/// What a batch benchmark of one indicator at one input length does: the
/// rows each output series gets, the values written per run, and the runs in
/// one timed sample.
#[derive(Debug, Clone, Copy, PartialEq, Eq)]
pub struct BatchPlan {
    pub output_len: usize,
    pub total_outputs: usize,
    pub iterations: usize,
}

/// Plan a batch benchmark of an indicator with `output_count` output series
/// and the given lookback over `input_len` rows.
pub fn batch_plan(input_len: usize, lookback: usize, output_count: usize, config: &BenchmarkConfig) -> (r: BatchPlan)
    requires
        spec_output_len(input_len as int, lookback as int) * output_count <= usize::MAX,
    ensures
        r.output_len == spec_output_len(input_len as int, lookback as int),
        r.total_outputs == r.output_len * output_count,
        r.iterations == spec_choose_iterations(
            input_len as nat,
            config.min_iterations as nat,
            (config.target_duration_ms as usize) as nat,
        ),
{
    let output_len = output_len_for_input(input_len, lookback);
    let total_outputs = output_len * output_count;
    let iterations = choose_iterations(input_len, config);
    BatchPlan { output_len, total_outputs, iterations }
}

/// The warmup run of a batch benchmark must fill exactly the planned rows.
pub fn check_warmup(indicator: &'static str, produced: usize, plan: &BatchPlan) -> (r: Result<(), IndicatorError>)
    ensures
        produced == plan.output_len ==> r is Ok,
        produced != plan.output_len ==> r == Err::<(), IndicatorError>(
            IndicatorError::InternalInvariant {
                indicator,
                reason: "batch benchmark warmup produced an unexpected output length",
            },
        ),
{
    if produced != plan.output_len {
        return Err(
            IndicatorError::InternalInvariant {
                indicator,
                reason: "batch benchmark warmup produced an unexpected output length",
            },
        );
    }
    Ok(())
}

/// The error for a benchmark filter that names an unknown indicator.
pub open spec fn unknown_benchmark_name() -> IndicatorError {
    IndicatorError::InvalidOption {
        indicator: "benchmark",
        option: "indicator",
        value: 0,
        reason: "unknown indicator name in benchmark filter",
    }
}

/// The characters of each name.
pub open spec fn name_views(names: Seq<&str>) -> Seq<Seq<char>> {
    names.map_values(|n: &str| n@)
}

/// The first position of `name` in `known`.
pub open spec fn first_position(known: Seq<Seq<char>>, name: Seq<char>) -> Option<int>
    decreases known.len(),
{
    if known.len() == 0 {
        None
    } else if first_position(known.drop_last(), name) is Some {
        first_position(known.drop_last(), name)
    } else if known.last() == name {
        Some(known.len() - 1)
    } else {
        None
    }
}

proof fn lemma_first_position(known: Seq<Seq<char>>, name: Seq<char>)
    ensures
        match first_position(known, name) {
            Some(j) => 0 <= j < known.len() && known[j] == name && forall|i: int| 0 <= i < j ==> known[i] != name,
            None => forall|i: int| 0 <= i < known.len() ==> known[i] != name,
        },
    decreases known.len(),
{
    if known.len() > 0 {
        let init = known.drop_last();
        lemma_first_position(init, name);
        assert forall|i: int| 0 <= i < init.len() implies init[i] == known[i] by {}
    }
}

fn find_name(known: &[&str], name: &str) -> (r: Option<usize>)
    ensures
        match r {
            Some(j) => first_position(name_views(known@), name@) == Some(j as int),
            None => first_position(name_views(known@), name@) is None,
        },
{
    let ghost views = name_views(known@);
    proof {
        lemma_first_position(views, name@);
    }
    let mut i: usize = 0;
    while i < known.len()
        invariant
            0 <= i <= known@.len(),
            views == name_views(known@),
            forall|j: int| 0 <= j < i ==> views[j] != name@,
            match first_position(views, name@) {
                Some(j) => 0 <= j < views.len() && views[j] == name@ && forall|t: int| 0 <= t < j ==> views[t] != name@,
                None => forall|t: int| 0 <= t < views.len() ==> views[t] != name@,
            },
        decreases known@.len() - i,
    {
        assert(views[i as int] == known@[i as int]@);
        if str_equal(known[i], name) {
            return Some(i);
        }
        i = i + 1;
    }
    None
}

/// Pick the indicators a benchmark filter names: for each name, the first
/// position in `known` with that name. Any unknown name fails the whole
/// filter.
pub fn find_named(names: &Vec<String>, known: &[&str]) -> (r: Result<Vec<usize>, IndicatorError>)
    ensures
        match r {
            Ok(v) => v@.len() == names@.len() && forall|i: int|
                0 <= i < names@.len() ==> first_position(name_views(known@), names@[i]@) == Some(
                    #[trigger] v@[i] as int,
                ),
            Err(e) => e == unknown_benchmark_name() && exists|i: int|
                0 <= i < names@.len() && #[trigger] first_position(name_views(known@), names@[i]@) is None,
        },
        (forall|i: int| 0 <= i < names@.len() ==> #[trigger] first_position(name_views(known@), names@[i]@) is Some)
            ==> r is Ok,
{
    let mut out: Vec<usize> = Vec::new();
    let mut i: usize = 0;
    while i < names.len()
        invariant
            0 <= i <= names@.len(),
            out@.len() == i,
            forall|t: int| 0 <= t < i ==> first_position(name_views(known@), names@[t]@) == Some(#[trigger] out@[t] as int),
        decreases names@.len() - i,
    {
        match find_name(known, names[i].as_str()) {
            Some(j) => {
                proof {
                    assert forall|t: int| 0 <= t < i implies out@.push(j)[t] == out@[t] by {}
                }
                out.push(j);
            },
            None => {
                assert(first_position(name_views(known@), names@[i as int]@) is None);
                return Err(
                    IndicatorError::InvalidOption {
                        indicator: "benchmark",
                        option: "indicator",
                        value: 0,
                        reason: "unknown indicator name in benchmark filter",
                    },
                );
            },
        }
        i = i + 1;
    }
    Ok(out)
}

/// The iterations per sample are the configured minimum or the work target
/// spread over the input, whichever is larger: never fewer than the minimum,
/// never fewer than a million samples per second of target duration
/// (saturating) divided by the input length, and equal to one of the two.
pub proof fn lemma_iterations_budget(input_len: nat, min_iterations: nat, target_ms: nat)
    ensures
        ({
            let work = (if 1_000_000 * target_ms > usize::MAX {
                usize::MAX as nat
            } else {
                1_000_000 * target_ms
            }) / 1000;
            let per = work / (if input_len >= 1 {
                input_len
            } else {
                1
            });
            let r = spec_choose_iterations(input_len, min_iterations, target_ms);
            &&& r >= min_iterations
            &&& r >= per
            &&& (r == min_iterations || r == per)
        }),
{
}

/// A setting text that reads as an unsigned integer `v` with
/// `1 <= v <= max` sets the setting to `v`; otherwise the setting keeps its
/// current value.
pub proof fn lemma_setting_replaced(raw: Option<&str>, max: nat, current: nat)
    ensures
        raw is Some && parse_unsigned(raw->0@, max) is Some && parse_unsigned(raw->0@, max)->0 >= 1
            ==> positive_setting(raw, max, current) == parse_unsigned(raw->0@, max)->0,
        positive_setting(raw, max, current) == current || (raw is Some && parse_unsigned(
            raw->0@,
            max,
        ) == Some(positive_setting(raw, max, current)) && positive_setting(raw, max, current) >= 1),
{
}

} // verus!
