use lib::compare::{
    check_benchmark_row, pair_rows, read_count, tab_fields, table_data_rows, unique_indicator_names,
    BenchmarkRowCounts, RowKey, BENCHMARK_FIELDS,
};

fn strings(items: &[&str]) -> Vec<String> {
    items.iter().map(|s| s.to_string()).collect()
}

fn key(indicator: &str, mode: &str, input_len: usize) -> RowKey {
    RowKey { indicator: indicator.to_string(), mode: mode.to_string(), input_len }
}

fn floats_ok(fields: &[String]) -> Vec<bool> {
    fields.iter().map(|f| f.parse::<f64>().is_ok()).collect()
}

const GOOD_ROW: &str = "sma\tbatch\t256\t3\t1.5\t100\t1\t0.1\t0.2\t0.3\t0.01\t0.05\t2.50";

#[test]
fn header_and_blank_lines_are_skipped() {
    let raw = "indicator\tmode\na\tb\n\n   \t \nc\td\n";
    assert_eq!(table_data_rows(raw), strings(&["a\tb", "c\td"]));
}

#[test]
fn crlf_endings_are_removed() {
    let raw = "header\r\nrow one\r\nrow two";
    assert_eq!(table_data_rows(raw), strings(&["row one", "row two"]));
}

#[test]
fn unterminated_last_line_keeps_its_carriage_return() {
    assert_eq!(table_data_rows("h\nlast\r"), strings(&["last\r"]));
}

#[test]
fn empty_and_header_only_tables_have_no_rows() {
    assert!(table_data_rows("").is_empty());
    assert!(table_data_rows("only a header").is_empty());
    assert!(table_data_rows("only a header\n").is_empty());
    assert!(table_data_rows("\n\n\n").is_empty());
}

#[test]
fn fields_split_at_every_tab() {
    assert_eq!(tab_fields("a\tb\t\tc"), strings(&["a", "b", "", "c"]));
    assert_eq!(tab_fields(""), strings(&[""]));
    assert_eq!(tab_fields("\t"), strings(&["", ""]));
    assert_eq!(tab_fields("no tabs"), strings(&["no tabs"]));
}

#[test]
fn fields_join_back_to_the_line() {
    for line in ["a\tb\t\tc", "", "\t\t", "x", GOOD_ROW] {
        assert_eq!(tab_fields(line).join("\t"), line);
    }
}

#[test]
fn counts_read_like_usize_parse() {
    assert_eq!(read_count("256"), Some(256));
    assert_eq!(read_count("+7"), Some(7));
    assert_eq!(read_count("0"), Some(0));
    assert_eq!(read_count(""), None);
    assert_eq!(read_count("+"), None);
    assert_eq!(read_count(" 5"), None);
    assert_eq!(read_count("-5"), None);
    assert_eq!(read_count("1.0"), None);
    assert_eq!(read_count("18446744073709551615"), Some(usize::MAX));
    assert_eq!(read_count("18446744073709551616"), None);
}

#[test]
fn a_good_row_gives_its_counts() {
    let fields = tab_fields(GOOD_ROW);
    assert_eq!(fields.len(), BENCHMARK_FIELDS);
    let ok = floats_ok(&fields);
    assert_eq!(
        check_benchmark_row(GOOD_ROW, &fields, &ok),
        Ok(BenchmarkRowCounts { input_len: 256, calibration_runs: 3, iterations: 100, outputs: 1 })
    );
}

#[test]
fn a_short_row_is_refused() {
    let line = "sma\tbatch\t256";
    let fields = tab_fields(line);
    let ok = floats_ok(&fields);
    assert_eq!(
        check_benchmark_row(line, &fields, &ok),
        Err("invalid benchmark TSV row: sma\tbatch\t256".to_string())
    );
}

#[test]
fn the_first_bad_field_is_reported() {
    let line = "sma\tbatch\t256\t3\tx\ty\t1\t0.1\t0.2\t0.3\t0.01\t0.05\t2.50";
    let fields = tab_fields(line);
    let ok = floats_ok(&fields);
    assert_eq!(
        check_benchmark_row(line, &fields, &ok),
        Err(format!("invalid calibration_ms in row: {line}"))
    );

    let line = "sma\tbatch\t-1\t3\t1.5\t100\t1\t0.1\t0.2\t0.3\t0.01\t0.05\t2.50";
    let fields = tab_fields(line);
    let ok = floats_ok(&fields);
    assert_eq!(
        check_benchmark_row(line, &fields, &ok),
        Err(format!("invalid input_len in row: {line}"))
    );

    let line = "sma\tbatch\t1\t3\t1.5\t100\t1\t0.1\tmid\t0.3\t0.01\t0.05\t2.50";
    let fields = tab_fields(line);
    let ok = floats_ok(&fields);
    assert_eq!(
        check_benchmark_row(line, &fields, &ok),
        Err(format!("invalid sample_median_ms in row: {line}"))
    );

    let line = "sma\tbatch\t1\t3\t1.5\t100\t1\t0.1\t0.2\t0.3\t0.01\t0.05\tfast";
    let fields = tab_fields(line);
    let ok = floats_ok(&fields);
    assert_eq!(
        check_benchmark_row(line, &fields, &ok),
        Err(format!("invalid ns_per_input in row: {line}"))
    );
}

#[test]
fn names_are_listed_once_in_first_order() {
    let names = strings(&["rsi", "sma", "rsi", "ema", "sma", "rsi"]);
    assert_eq!(unique_indicator_names(&names), strings(&["rsi", "sma", "ema"]));
    assert!(unique_indicator_names(&Vec::new()).is_empty());
}

#[test]
fn rows_pair_with_the_last_matching_key() {
    let wanted = vec![key("sma", "batch", 256), key("rsi", "stream", 4096)];
    let available = vec![
        key("rsi", "stream", 4096),
        key("sma", "batch", 256),
        key("sma", "batch", 256),
        key("sma", "stream", 256),
    ];
    assert_eq!(pair_rows(&wanted, &available), Ok(vec![2, 0]));
}

#[test]
fn partners_have_the_same_key_and_differ() {
    let wanted = vec![key("a", "batch", 1), key("b", "batch", 1), key("a", "batch", 2)];
    let available = vec![key("a", "batch", 2), key("b", "batch", 1), key("a", "batch", 1)];
    let m = pair_rows(&wanted, &available).unwrap();
    assert_eq!(m, vec![2, 1, 0]);
    for (i, &j) in m.iter().enumerate() {
        assert_eq!(available[j].indicator, wanted[i].indicator);
        assert_eq!(available[j].mode, wanted[i].mode);
        assert_eq!(available[j].input_len, wanted[i].input_len);
    }
}

#[test]
fn a_missing_or_repeated_key_fails_at_that_row() {
    let available = vec![key("sma", "batch", 256)];
    assert_eq!(pair_rows(&vec![key("sma", "batch", 512)], &available), Err(0));
    let wanted = vec![key("sma", "batch", 256), key("sma", "batch", 256)];
    assert_eq!(pair_rows(&wanted, &available), Err(1));
    let wanted = vec![key("sma", "batch", 256), key("x", "batch", 1), key("y", "batch", 1)];
    assert_eq!(pair_rows(&wanted, &available), Err(1));
    assert_eq!(pair_rows(&Vec::new(), &available), Ok(Vec::new()));
}
