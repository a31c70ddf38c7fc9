//! The tab-separated benchmark tables compared against an external run: the
//! rows of a table, the fields of a row, the checks on each row, the list of
//! indicator names, and the pairing of external rows with local results.

use vstd::prelude::*;
use vstd::string::StrSliceExecFns;

use crate::text::{chars_of, parse_unsigned, parse_unsigned_range, split_on, str_equal, trim, trim_range};

verus! {

/// A line that was ended by `"\r\n"` loses its carriage return.
pub open spec fn strip_cr(l: Seq<char>) -> Seq<char> {
    if l.len() > 0 && l.last() == '\r' {
        l.drop_last()
    } else {
        l
    }
}

/// The lines of `s` as `str::lines` yields them: the pieces between newlines,
/// each piece ended by a newline without a carriage return just before it,
/// and no empty line after a final newline.
pub open spec fn text_lines(s: Seq<char>) -> Seq<Seq<char>> {
    let p = split_on(s, '\n');
    if s.len() == 0 {
        Seq::empty()
    } else if s.last() == '\n' {
        p.drop_last().map_values(|l: Seq<char>| strip_cr(l))
    } else {
        p.drop_last().map_values(|l: Seq<char>| strip_cr(l)).push(p.last())
    }
}

/// A line with nothing but whitespace on it.
pub open spec fn is_blank(l: Seq<char>) -> bool {
    trim(l).len() == 0
}

/// `ls` without its blank lines.
pub open spec fn without_blank(ls: Seq<Seq<char>>) -> Seq<Seq<char>>
    decreases ls.len(),
{
    if ls.len() == 0 {
        Seq::empty()
    } else if is_blank(ls.last()) {
        without_blank(ls.drop_last())
    } else {
        without_blank(ls.drop_last()).push(ls.last())
    }
}

/// The lines after the first (the header), without blank ones.
pub open spec fn rows_after_header(ls: Seq<Seq<char>>) -> Seq<Seq<char>> {
    if ls.len() == 0 {
        Seq::empty()
    } else {
        without_blank(ls.drop_first())
    }
}

/// The data rows of a table: its lines after the header, blank lines skipped.
pub open spec fn table_rows(s: Seq<char>) -> Seq<Seq<char>> {
    rows_after_header(text_lines(s))
}

/// The characters of each string.
pub open spec fn string_views(v: Seq<String>) -> Seq<Seq<char>> {
    v.map_values(|x: String| x@)
}

proof fn lemma_rows_push(ls: Seq<Seq<char>>, l: Seq<char>)
    ensures
        rows_after_header(ls.push(l)) == (if ls.len() == 0 {
            Seq::<Seq<char>>::empty()
        } else if is_blank(l) {
            rows_after_header(ls)
        } else {
            rows_after_header(ls).push(l)
        }),
{
    if ls.len() > 0 {
        let t = ls.push(l).drop_first();
        assert(t.drop_last() =~= ls.drop_first());
        assert(t.last() == l);
    } else {
        assert(ls.push(l).drop_first() =~= Seq::<Seq<char>>::empty());
    }
}

proof fn lemma_string_views_push(v: Seq<String>, x: String)
    ensures
        string_views(v.push(x)) == string_views(v).push(x@),
{
    assert(string_views(v.push(x)) =~= string_views(v).push(x@));
}

/// The first `n` characters of `s` followed by the next one.
proof fn lemma_take_next(s: Seq<char>, n: int)
    requires
        0 <= n < s.len(),
    ensures
        s.take(n + 1).drop_last() == s.take(n),
        s.take(n + 1).last() == s[n],
        s.take(n + 1).len() > 0,
{
    assert(s.take(n + 1).drop_last() =~= s.take(n));
}

/// The data rows of a tab-separated table: every line after the header line
/// that holds more than whitespace, as `str::lines` splits them.
pub fn table_data_rows(raw: &str) -> (r: Vec<String>)
    ensures
        string_views(r@) == table_rows(raw@),
{
    let cs = chars_of(raw);
    let n = cs.len();
    let mut out: Vec<String> = Vec::new();
    let mut start: usize = 0;
    let mut count: usize = 0;
    let mut i: usize = 0;
    let ghost mut pieces: Seq<Seq<char>> = Seq::empty();
    proof {
        assert(cs@.take(0) =~= Seq::<char>::empty());
        assert(pieces.push(cs@.subrange(0, 0)) =~= seq![Seq::<char>::empty()]);
        assert(string_views(out@) =~= Seq::<Seq<char>>::empty());
    }
    while i < n
        invariant
            cs@ == raw@,
            n == cs@.len(),
            start <= i <= n,
            count == pieces.len(),
            count <= i,
            split_on(cs@.take(i as int), '\n') == pieces.push(cs@.subrange(start as int, i as int)),
            string_views(out@) == rows_after_header(pieces.map_values(|l: Seq<char>| strip_cr(l))),
            i > 0 && cs@[i - 1] == '\n' ==> start == i,
            i > 0 && cs@[i - 1] != '\n' ==> start < i,
        decreases n - i,
    {
        proof {
            lemma_take_next(cs@, i as int);
        }
        let cur = Ghost(cs@.subrange(start as int, i as int));
        if cs[i] == '\n' {
            let mut end = i;
            if i > start && cs[i - 1] == '\r' {
                end = i - 1;
            }
            proof {
                if i > start && cs@[i - 1] == '\r' {
                    assert(cur@.drop_last() =~= cs@.subrange(start as int, end as int));
                } else {
                    assert(cur@ =~= cs@.subrange(start as int, end as int));
                }
                assert(strip_cr(cur@) == cs@.subrange(start as int, end as int));
                lemma_rows_push(pieces.map_values(|l: Seq<char>| strip_cr(l)), strip_cr(cur@));
                assert(pieces.push(cur@).map_values(|l: Seq<char>| strip_cr(l)) =~= pieces.map_values(
                    |l: Seq<char>| strip_cr(l),
                ).push(strip_cr(cur@)));
            }
            if count > 0 {
                let (a, b) = trim_range(&cs, start, end);
                if a < b {
                    let line = raw.substring_char(start, end).to_owned();
                    proof {
                        lemma_string_views_push(out@, line);
                    }
                    out.push(line);
                }
            }
            proof {
                pieces = pieces.push(cur@);
                assert(cs@.subrange(i + 1, i + 1) =~= Seq::<char>::empty());
            }
            count = count + 1;
            start = i + 1;
        } else {
            proof {
                let c = cs@[i as int];
                assert(cs@.subrange(start as int, i + 1) =~= cur@.push(c));
                assert(pieces.push(cur@).update(pieces.len() as int, cur@.push(c)) =~= pieces.push(
                    cur@.push(c),
                ));
            }
        }
        i = i + 1;
    }
    proof {
        assert(cs@.take(n as int) =~= cs@);
    }
    if start < n {
        let ghost last = cs@.subrange(start as int, n as int);
        proof {
            lemma_rows_push(pieces.map_values(|l: Seq<char>| strip_cr(l)), last);
            assert(pieces.push(last).drop_last() =~= pieces);
        }
        if count > 0 {
            let (a, b) = trim_range(&cs, start, n);
            if a < b {
                let line = raw.substring_char(start, n).to_owned();
                proof {
                    lemma_string_views_push(out@, line);
                }
                out.push(line);
            }
        }
    } else {
        proof {
            if n > 0 {
                assert(pieces.push(Seq::<char>::empty()).drop_last() =~= pieces);
                assert(cs@.subrange(start as int, n as int) =~= Seq::<char>::empty());
            } else {
                assert(pieces.len() == 0);
            }
        }
    }
    out
}

/// The tab-separated fields of a line, as `str::split('\t')` yields them.
pub fn tab_fields(line: &str) -> (r: Vec<String>)
    ensures
        string_views(r@) == split_on(line@, '\t'),
{
    let cs = chars_of(line);
    let n = cs.len();
    let mut out: Vec<String> = Vec::new();
    let mut start: usize = 0;
    let mut i: usize = 0;
    proof {
        assert(cs@.take(0) =~= Seq::<char>::empty());
        assert(string_views(out@).push(cs@.subrange(0, 0)) =~= seq![Seq::<char>::empty()]);
    }
    while i < n
        invariant
            cs@ == line@,
            n == cs@.len(),
            start <= i <= n,
            split_on(cs@.take(i as int), '\t') == string_views(out@).push(cs@.subrange(start as int, i as int)),
        decreases n - i,
    {
        proof {
            lemma_take_next(cs@, i as int);
        }
        let ghost cur = cs@.subrange(start as int, i as int);
        if cs[i] == '\t' {
            let field = line.substring_char(start, i).to_owned();
            proof {
                lemma_string_views_push(out@, field);
                assert(cs@.subrange(i + 1, i + 1) =~= Seq::<char>::empty());
            }
            out.push(field);
            start = i + 1;
        } else {
            proof {
                let c = cs@[i as int];
                let done = string_views(out@);
                assert(cs@.subrange(start as int, i + 1) =~= cur.push(c));
                assert(done.push(cur).update(done.len() as int, cur.push(c)) =~= done.push(cur.push(c)));
            }
        }
        i = i + 1;
    }
    proof {
        assert(cs@.take(n as int) =~= cs@);
    }
    let field = line.substring_char(start, n).to_owned();
    proof {
        lemma_string_views_push(out@, field);
    }
    out.push(field);
    out
}

/// The number of fields in a row of an external benchmark table.
pub const BENCHMARK_FIELDS: usize = 13;

/// The name under which field `k` of a benchmark row is reported.
pub open spec fn field_name(k: int) -> Seq<char> {
    if k == 2 {
        "input_len"@
    } else if k == 3 {
        "calibration_runs"@
    } else if k == 4 {
        "calibration_ms"@
    } else if k == 5 {
        "iterations"@
    } else if k == 6 {
        "outputs"@
    } else if k == 7 {
        "sample_min_ms"@
    } else if k == 8 {
        "sample_median_ms"@
    } else if k == 9 {
        "sample_max_ms"@
    } else if k == 10 {
        "sample_stddev_ms"@
    } else if k == 11 {
        "sample_cv"@
    } else {
        "ns_per_input"@
    }
}

fn field_name_str(k: usize) -> (r: &'static str)
    requires
        2 <= k < BENCHMARK_FIELDS,
    ensures
        r@ == field_name(k as int),
{
    if k == 2 {
        "input_len"
    } else if k == 3 {
        "calibration_runs"
    } else if k == 4 {
        "calibration_ms"
    } else if k == 5 {
        "iterations"
    } else if k == 6 {
        "outputs"
    } else if k == 7 {
        "sample_min_ms"
    } else if k == 8 {
        "sample_median_ms"
    } else if k == 9 {
        "sample_max_ms"
    } else if k == 10 {
        "sample_stddev_ms"
    } else if k == 11 {
        "sample_cv"
    } else {
        "ns_per_input"
    }
}

/// Field `k` holds a count, read as `usize`; the other numeric fields hold
/// floating-point numbers.
pub open spec fn is_count_field(k: int) -> bool {
    k == 2 || k == 3 || k == 5 || k == 6
}

/// Field `k` reads: a count as an unsigned integer, any other field as
/// `float_ok` reports for it.
pub open spec fn field_reads(fields: Seq<Seq<char>>, float_ok: Seq<bool>, k: int) -> bool {
    if is_count_field(k) {
        parse_unsigned(fields[k], usize::MAX as nat) is Some
    } else {
        float_ok[k]
    }
}

/// The first numeric field from `k` on that does not read.
pub open spec fn first_unread(fields: Seq<Seq<char>>, float_ok: Seq<bool>, k: int) -> Option<int>
    decreases BENCHMARK_FIELDS - k,
{
    if k >= BENCHMARK_FIELDS || k < 0 {
        None
    } else if !field_reads(fields, float_ok, k) {
        Some(k)
    } else {
        first_unread(fields, float_ok, k + 1)
    }
}

/// What is wrong with a row, if anything: the wrong number of fields, or the
/// first numeric field that does not read.
pub open spec fn row_problem(line: Seq<char>, fields: Seq<Seq<char>>, float_ok: Seq<bool>) -> Option<
    Seq<char>,
> {
    if fields.len() != BENCHMARK_FIELDS {
        Some("invalid benchmark TSV row: "@ + line)
    } else {
        match first_unread(fields, float_ok, 2) {
            Some(k) => Some("invalid "@ + field_name(k) + " in row: "@ + line),
            None => None,
        }
    }
}

/// The counts of a benchmark row that reads.
#[derive(Debug, Clone, Copy, PartialEq, Eq)]
pub struct BenchmarkRowCounts {
    pub input_len: usize,
    pub calibration_runs: usize,
    pub iterations: usize,
    pub outputs: usize,
}

/// Read a count the way `str::parse::<usize>` does.
pub fn read_count(field: &str) -> (r: Option<usize>)
    ensures
        match parse_unsigned(field@, usize::MAX as nat) {
            Some(v) => r == Some(v as usize),
            None => r is None,
        },
{
    let cs = chars_of(field);
    let n = cs.len();
    proof {
        assert(cs@.subrange(0, n as int) =~= field@);
    }
    match parse_unsigned_range(&cs, 0, n, usize::MAX as u64) {
        Some(v) => Some(v as usize),
        None => None,
    }
}

/// Check one row of an external benchmark table. `fields` are the row's
/// tab-separated fields and `float_ok[k]` says whether field `k` reads as a
/// floating-point number. The row must have `BENCHMARK_FIELDS` fields and
/// every numeric field must read; the first problem is reported with the
/// row's text, and otherwise the counts are returned.
pub fn check_benchmark_row(line: &str, fields: &Vec<String>, float_ok: &Vec<bool>) -> (r: Result<
    BenchmarkRowCounts,
    String,
>)
    requires
        float_ok@.len() == fields@.len(),
    ensures
        match r {
            Err(msg) => row_problem(line@, string_views(fields@), float_ok@) == Some(msg@),
            Ok(c) => {
                &&& row_problem(line@, string_views(fields@), float_ok@) is None
                &&& parse_unsigned(fields@[2]@, usize::MAX as nat) == Some(c.input_len as nat)
                &&& parse_unsigned(fields@[3]@, usize::MAX as nat) == Some(c.calibration_runs as nat)
                &&& parse_unsigned(fields@[5]@, usize::MAX as nat) == Some(c.iterations as nat)
                &&& parse_unsigned(fields@[6]@, usize::MAX as nat) == Some(c.outputs as nat)
            },
        },
{
    let ghost views = string_views(fields@);
    if fields.len() != BENCHMARK_FIELDS {
        let mut msg = String::new();
        msg.append("invalid benchmark TSV row: ");
        msg.append(line);
        return Err(msg);
    }
    let mut counts = BenchmarkRowCounts { input_len: 0, calibration_runs: 0, iterations: 0, outputs: 0 };
    let mut k: usize = 2;
    while k < BENCHMARK_FIELDS
        invariant
            2 <= k <= BENCHMARK_FIELDS,
            fields@.len() == BENCHMARK_FIELDS,
            float_ok@.len() == BENCHMARK_FIELDS,
            views == string_views(fields@),
            first_unread(views, float_ok@, 2) == first_unread(views, float_ok@, k as int),
            k > 2 ==> parse_unsigned(fields@[2]@, usize::MAX as nat) == Some(counts.input_len as nat),
            k > 3 ==> parse_unsigned(fields@[3]@, usize::MAX as nat) == Some(counts.calibration_runs as nat),
            k > 5 ==> parse_unsigned(fields@[5]@, usize::MAX as nat) == Some(counts.iterations as nat),
            k > 6 ==> parse_unsigned(fields@[6]@, usize::MAX as nat) == Some(counts.outputs as nat),
        decreases BENCHMARK_FIELDS - k,
    {
        assert(views[k as int] == fields@[k as int]@);
        let reads = if k == 2 || k == 3 || k == 5 || k == 6 {
            match read_count(fields[k].as_str()) {
                Some(v) => {
                    if k == 2 {
                        counts.input_len = v;
                    } else if k == 3 {
                        counts.calibration_runs = v;
                    } else if k == 5 {
                        counts.iterations = v;
                    } else {
                        counts.outputs = v;
                    }
                    true
                },
                None => false,
            }
        } else {
            float_ok[k]
        };
        if !reads {
            let mut msg = String::new();
            msg.append("invalid ");
            msg.append(field_name_str(k));
            msg.append(" in row: ");
            msg.append(line);
            return Err(msg);
        }
        k = k + 1;
    }
    Ok(counts)
}

/// `names` with each name kept only where it first occurs.
pub open spec fn first_occurrences(names: Seq<Seq<char>>) -> Seq<Seq<char>>
    decreases names.len(),
{
    if names.len() == 0 {
        Seq::empty()
    } else if names.drop_last().contains(names.last()) {
        first_occurrences(names.drop_last())
    } else {
        first_occurrences(names.drop_last()).push(names.last())
    }
}

proof fn lemma_first_occurrences_contains(names: Seq<Seq<char>>, x: Seq<char>)
    ensures
        first_occurrences(names).contains(x) == names.contains(x),
    decreases names.len(),
{
    if names.len() > 0 {
        let init = names.drop_last();
        lemma_first_occurrences_contains(init, x);
        let f = first_occurrences(init);
        if names.contains(x) {
            let j = choose|j: int| 0 <= j < names.len() && names[j] == x;
            if j < names.len() - 1 {
                assert(init[j] == x);
            }
        }
        if init.contains(x) {
            let j = choose|j: int| 0 <= j < init.len() && init[j] == x;
            assert(names[j] == x);
        }
        if !init.contains(names.last()) {
            if f.push(names.last()).contains(x) && !f.contains(x) {
                assert(x == names.last());
                assert(names[names.len() - 1] == x);
            }
            if f.contains(x) {
                let j = choose|j: int| 0 <= j < f.len() && f[j] == x;
                assert(f.push(names.last())[j] == x);
            }
            if x == names.last() {
                assert(f.push(names.last())[f.len() as int] == x);
            }
        }
    }
}

fn contains_name(v: &Vec<String>, name: &str) -> (r: bool)
    ensures
        r == string_views(v@).contains(name@),
{
    let mut i: usize = 0;
    while i < v.len()
        invariant
            0 <= i <= v@.len(),
            forall|j: int| 0 <= j < i ==> v@[j]@ != name@,
        decreases v@.len() - i,
    {
        if str_equal(v[i].as_str(), name) {
            assert(string_views(v@)[i as int] == name@);
            return true;
        }
        i = i + 1;
    }
    proof {
        if string_views(v@).contains(name@) {
            let j = choose|j: int| 0 <= j < string_views(v@).len() && string_views(v@)[j] == name@;
            assert(v@[j]@ == name@);
        }
    }
    false
}

/// The indicator names of a table's rows, each once, in the order in which
/// they first occur.
pub fn unique_indicator_names(names: &Vec<String>) -> (r: Vec<String>)
    ensures
        string_views(r@) == first_occurrences(string_views(names@)),
{
    let ghost all = string_views(names@);
    let mut out: Vec<String> = Vec::new();
    let mut i: usize = 0;
    proof {
        assert(all.take(0) =~= Seq::<Seq<char>>::empty());
        assert(string_views(out@) =~= Seq::<Seq<char>>::empty());
    }
    while i < names.len()
        invariant
            0 <= i <= names@.len(),
            all == string_views(names@),
            string_views(out@) == first_occurrences(all.take(i as int)),
        decreases names@.len() - i,
    {
        let name = names[i].as_str();
        let seen = contains_name(&out, name);
        proof {
            let pre = all.take(i + 1);
            assert(pre.drop_last() =~= all.take(i as int));
            assert(pre.last() == name@);
            lemma_first_occurrences_contains(all.take(i as int), name@);
        }
        if !seen {
            let owned = name.to_owned();
            proof {
                lemma_string_views_push(out@, owned);
            }
            out.push(owned);
        }
        i = i + 1;
    }
    proof {
        assert(all.take(names@.len() as int) =~= all);
    }
    out
}

/// The key by which rows of two benchmark tables are paired.
pub struct RowKey {
    pub indicator: String,
    pub mode: String,
    pub input_len: usize,
}

impl View for RowKey {
    type V = (Seq<char>, Seq<char>, usize);

    open spec fn view(&self) -> (Seq<char>, Seq<char>, usize) {
        (self.indicator@, self.mode@, self.input_len)
    }
}

/// The keys, as plain values.
pub open spec fn key_views(keys: Seq<RowKey>) -> Seq<(Seq<char>, Seq<char>, usize)> {
    keys.map_values(|k: RowKey| k@)
}

/// The position of the last element of `s` equal to `x`.
pub open spec fn last_position<K>(s: Seq<K>, x: K) -> Option<int>
    decreases s.len(),
{
    if s.len() == 0 {
        None
    } else if s.last() == x {
        Some(s.len() - 1)
    } else {
        last_position(s.drop_last(), x)
    }
}

/// How wanted rows are paired with available ones: in order, each wanted row
/// with the last available row of the same key, a key being used up once it
/// is paired. `Err(i)` names the first wanted row left without a partner.
pub open spec fn pairing<K>(wanted: Seq<K>, available: Seq<K>) -> Result<Seq<int>, int>
    decreases wanted.len(),
{
    if wanted.len() == 0 {
        Ok(Seq::empty())
    } else {
        match pairing(wanted.drop_last(), available) {
            Err(i) => Err(i),
            Ok(m) => if wanted.drop_last().contains(wanted.last()) {
                Err(wanted.len() - 1)
            } else {
                match last_position(available, wanted.last()) {
                    Some(j) => Ok(m.push(j)),
                    None => Err(wanted.len() - 1),
                }
            },
        }
    }
}

/// Once a prefix of the wanted rows fails, every longer prefix fails at the same row.
proof fn lemma_pairing_err_extends<K>(w: Seq<K>, a: Seq<K>, n: int, e: int)
    requires
        0 <= n <= w.len(),
        pairing(w.take(n), a) == Err::<Seq<int>, int>(e),
    ensures
        pairing(w, a) == Err::<Seq<int>, int>(e),
    decreases w.len() - n,
{
    if n == w.len() {
        assert(w.take(n) =~= w);
    } else {
        assert(w.take(n + 1).drop_last() =~= w.take(n));
        lemma_pairing_err_extends(w, a, n + 1, e);
    }
}

fn same_key(a: &RowKey, b: &RowKey) -> (r: bool)
    ensures
        r == (a@ == b@),
{
    str_equal(a.indicator.as_str(), b.indicator.as_str()) && str_equal(a.mode.as_str(), b.mode.as_str())
        && a.input_len == b.input_len
}

fn key_before(keys: &Vec<RowKey>, upto: usize, k: &RowKey) -> (r: bool)
    requires
        upto <= keys@.len(),
    ensures
        r == key_views(keys@).take(upto as int).contains(k@),
{
    let ghost pre = key_views(keys@).take(upto as int);
    let mut i: usize = 0;
    while i < upto
        invariant
            upto <= keys@.len(),
            0 <= i <= upto,
            pre == key_views(keys@).take(upto as int),
            forall|j: int| 0 <= j < i ==> pre[j] != k@,
        decreases upto - i,
    {
        assert(pre[i as int] == keys@[i as int]@);
        if same_key(&keys[i], k) {
            return true;
        }
        i = i + 1;
    }
    false
}

fn last_key_position(keys: &Vec<RowKey>, k: &RowKey) -> (r: Option<usize>)
    ensures
        match r {
            Some(j) => last_position(key_views(keys@), k@) == Some(j as int),
            None => last_position(key_views(keys@), k@) is None,
        },
{
    let ghost all = key_views(keys@);
    let mut j: usize = keys.len();
    proof {
        assert(all.take(j as int) =~= all);
    }
    while j > 0
        invariant
            j <= keys@.len(),
            all == key_views(keys@),
            last_position(all, k@) == last_position(all.take(j as int), k@),
        decreases j,
    {
        let ghost pre = all.take(j as int);
        assert(pre.drop_last() =~= all.take(j - 1));
        assert(pre.last() == keys@[j - 1]@);
        if same_key(&keys[j - 1], k) {
            return Some(j - 1);
        }
        j = j - 1;
    }
    None
}

/// Pair each wanted row with an available one of the same key, as
/// [`pairing`] says; the result gives, for each wanted row, the position of
/// its partner, or the first wanted row left without one.
pub fn pair_rows(wanted: &Vec<RowKey>, available: &Vec<RowKey>) -> (r: Result<Vec<usize>, usize>)
    ensures
        match r {
            Ok(m) => pairing(key_views(wanted@), key_views(available@)) == Ok::<Seq<int>, int>(
                m@.map_values(|j: usize| j as int),
            ),
            Err(i) => pairing(key_views(wanted@), key_views(available@)) == Err::<Seq<int>, int>(
                i as int,
            ),
        },
{
    let ghost w = key_views(wanted@);
    let ghost a = key_views(available@);
    let mut out: Vec<usize> = Vec::new();
    let mut i: usize = 0;
    proof {
        assert(w.take(0) =~= Seq::<(Seq<char>, Seq<char>, usize)>::empty());
        assert(out@.map_values(|j: usize| j as int) =~= Seq::<int>::empty());
    }
    while i < wanted.len()
        invariant
            0 <= i <= wanted@.len(),
            w == key_views(wanted@),
            a == key_views(available@),
            pairing(w.take(i as int), a) == Ok::<Seq<int>, int>(out@.map_values(|j: usize| j as int)),
        decreases wanted@.len() - i,
    {
        let ghost pre = w.take(i + 1);
        proof {
            assert(pre.drop_last() =~= w.take(i as int));
            assert(pre.last() == wanted@[i as int]@);
        }
        if key_before(wanted, i, &wanted[i]) {
            proof {
                lemma_pairing_err_extends(w, a, i + 1, i as int);
            }
            return Err(i);
        }
        match last_key_position(available, &wanted[i]) {
            Some(j) => {
                proof {
                    assert(out@.push(j).map_values(|x: usize| x as int) =~= out@.map_values(
                        |x: usize| x as int,
                    ).push(j as int));
                }
                out.push(j);
            },
            None => {
                proof {
                    lemma_pairing_err_extends(w, a, i + 1, i as int);
                }
                return Err(i);
            },
        }
        i = i + 1;
    }
    proof {
        assert(w.take(wanted@.len() as int) =~= w);
    }
    Ok(out)
}

proof fn lemma_last_position<K>(s: Seq<K>, x: K)
    ensures
        match last_position(s, x) {
            Some(j) => 0 <= j < s.len() && s[j] == x,
            None => !s.contains(x),
        },
    decreases s.len(),
{
    if s.len() > 0 {
        lemma_last_position(s.drop_last(), x);
        if last_position(s, x) is None && s.contains(x) {
            let j = choose|j: int| 0 <= j < s.len() && s[j] == x;
            assert(j != s.len() - 1);
            assert(s.drop_last()[j] == x);
        }
    }
}

/// When every wanted row finds a partner, the partners are available rows of
/// the same key, and no available row is the partner of two wanted rows.
pub proof fn lemma_pairing_partners<K>(wanted: Seq<K>, available: Seq<K>)
    ensures
        match pairing(wanted, available) {
            Ok(m) => {
                &&& m.len() == wanted.len()
                &&& forall|i: int| 0 <= i < m.len() ==> 0 <= #[trigger] m[i] < available.len() && available[m[i]] == wanted[i]
                &&& forall|i: int, j: int| 0 <= i < j < m.len() ==> #[trigger] m[i] != #[trigger] m[j]
            },
            Err(i) => 0 <= i < wanted.len(),
        },
    decreases wanted.len(),
{
    if wanted.len() > 0 {
        let init = wanted.drop_last();
        lemma_pairing_partners(init, available);
        lemma_last_position(available, wanted.last());
        match pairing(init, available) {
            Ok(m0) => {
                if !init.contains(wanted.last()) {
                    if let Some(p) = last_position(available, wanted.last()) {
                        let m = m0.push(p);
                        assert forall|i: int| 0 <= i < m.len() implies 0 <= #[trigger] m[i] < available.len()
                            && available[m[i]] == wanted[i] by {
                            if i < m0.len() {
                                assert(m[i] == m0[i]);
                                assert(init[i] == wanted[i]);
                            }
                        }
                        assert forall|i: int, j: int| 0 <= i < j < m.len() implies #[trigger] m[i]
                            != #[trigger] m[j] by {
                            if j < m0.len() {
                                assert(m[i] == m0[i] && m[j] == m0[j]);
                            } else {
                                assert(m[i] == m0[i]);
                                assert(init[i] == wanted[i]);
                                assert(available[m0[i]] == init[i]);
                                assert(init[i] != wanted.last());
                            }
                        }
                    }
                }
            },
            Err(_) => {},
        }
    }
}

/// Every numeric field of a row reads: the counts (fields 2, 3, 5, 6) as
/// unsigned integers, the timings (fields 4 and 7 to 12) as `float_ok` says.
pub open spec fn all_fields_read(fields: Seq<Seq<char>>, float_ok: Seq<bool>) -> bool {
    &&& forall|k: int| (k == 2 || k == 3 || k == 5 || k == 6) ==> (parse_unsigned(#[trigger] fields[k], usize::MAX as nat) is Some)
    &&& forall|k: int| (k == 4 || 7 <= k < 13) ==> #[trigger] float_ok[k]
}

proof fn lemma_first_unread_spans(fields: Seq<Seq<char>>, float_ok: Seq<bool>, k: int)
    requires
        2 <= k <= 13,
    ensures
        match first_unread(fields, float_ok, k) {
            None => forall|j: int| k <= j < 13 ==> #[trigger] field_reads(fields, float_ok, j),
            Some(j) => k <= j < 13 && !field_reads(fields, float_ok, j) && forall|i: int|
                k <= i < j ==> #[trigger] field_reads(fields, float_ok, i),
        },
    decreases 13 - k,
{
    if k < 13 {
        lemma_first_unread_spans(fields, float_ok, k + 1);
    }
}

/// A benchmark row is accepted exactly when it has its thirteen fields and
/// every count and every timing in it reads; when a row of thirteen fields
/// is refused, the field reported is the first one that does not read.
pub proof fn lemma_row_accepted(line: Seq<char>, fields: Seq<Seq<char>>, float_ok: Seq<bool>)
    requires
        float_ok.len() == fields.len(),
    ensures
        row_problem(line, fields, float_ok) is None <==> (fields.len() == 13 && all_fields_read(fields, float_ok)),
        fields.len() == 13 && !all_fields_read(fields, float_ok) ==> exists|k: int|
            #![trigger field_name(k)]
            {
                &&& 2 <= k < 13
                &&& row_problem(line, fields, float_ok) == Some("invalid "@ + field_name(k) + " in row: "@ + line)
                &&& (k == 2 || k == 3 || k == 5 || k == 6 ==> parse_unsigned(fields[k], usize::MAX as nat) is None)
                &&& (k == 4 || 7 <= k ==> !float_ok[k])
                &&& forall|i: int| 2 <= i < k && (i == 2 || i == 3 || i == 5 || i == 6) ==> (parse_unsigned(
                    #[trigger] fields[i],
                    usize::MAX as nat,
                ) is Some)
                &&& forall|i: int| 2 <= i < k && (i == 4 || 7 <= i) ==> #[trigger] float_ok[i]
            },
{
    lemma_first_unread_spans(fields, float_ok, 2);
    if fields.len() == 13 {
        match first_unread(fields, float_ok, 2) {
            None => {
                assert forall|k: int| (k == 2 || k == 3 || k == 5 || k == 6) implies (parse_unsigned(
                    #[trigger] fields[k],
                    usize::MAX as nat,
                ) is Some) by {
                    assert(field_reads(fields, float_ok, k));
                }
                assert forall|k: int| (k == 4 || 7 <= k < 13) implies #[trigger] float_ok[k] by {
                    assert(field_reads(fields, float_ok, k));
                }
            },
            Some(j) => {
                assert(!field_reads(fields, float_ok, j));
                assert forall|i: int| 2 <= i < j && (i == 2 || i == 3 || i == 5 || i == 6) implies (parse_unsigned(
                    #[trigger] fields[i],
                    usize::MAX as nat,
                ) is Some) by {
                    assert(field_reads(fields, float_ok, i));
                }
                assert forall|i: int| 2 <= i < j && (i == 4 || 7 <= i) implies #[trigger] float_ok[i] by {
                    assert(field_reads(fields, float_ok, i));
                }
                if is_count_field(j) {
                    assert(!(parse_unsigned(fields[j], usize::MAX as nat) is Some));
                } else {
                    assert(!float_ok[j]);
                }
                assert(row_problem(line, fields, float_ok) == Some("invalid "@ + field_name(j) + " in row: "@ + line));
            },
        }
    }
}

} // verus!
