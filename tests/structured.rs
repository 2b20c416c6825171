use io_bench::payload::{
    append_decimal, category, generate_item, generate_payload, generate_payload_now, item_name,
    tags,
};
use io_bench::report::{
    basic_report, default_file_name, structured_report, BasicBenchmarkResult, BenchmarkVariant,
    StructuredBenchmarkResult,
};

#[test]
fn item_names() {
    assert_eq!(item_name(0), "Item-0");
    assert_eq!(item_name(9), "Item-9");
    assert_eq!(item_name(10), "Item-10");
    assert_eq!(item_name(4096), "Item-4096");
    assert_eq!(item_name(u64::MAX), format!("Item-{}", u64::MAX));
}

#[test]
fn decimal_appends() {
    let mut s = String::from("n=");
    append_decimal(&mut s, 1200);
    assert_eq!(s, "n=1200");
}

#[test]
fn categories_follow_parity() {
    assert_eq!(category(0), "even");
    assert_eq!(category(1), "odd");
    assert_eq!(category(u64::MAX), "odd");
}

#[test]
fn fixed_tags() {
    assert_eq!(tags(), vec!["perf".to_string(), "bench".to_string(), "json".to_string()]);
}

#[test]
fn three_items_two_values() {
    let p = generate_payload(3, 2, 1_700_000_000);
    assert_eq!(p.version, "1.0");
    assert_eq!(p.timestamp, 1_700_000_000);
    assert_eq!(p.items.len(), 3);
    assert_eq!(p.items[0].flags, vec![true, false]);
    assert_eq!(p.items[0].meta.category, "even");
    assert_eq!(p.items[1].meta.category, "odd");
    assert_eq!(p.items[1].flags, vec![false, false]);
    assert_eq!(p.items[2].flags, vec![false, true]);
    assert_eq!(p.items[2].meta.category, "even");
    for (i, item) in p.items.iter().enumerate() {
        assert_eq!(item.id, i as u64);
        assert_eq!(item.meta.index, i as u64);
        assert_eq!(item.name, format!("Item-{i}"));
        assert_eq!(item.meta.tags, vec!["perf", "bench", "json"]);
    }
}

#[test]
fn empty_payload() {
    let p = generate_payload(0, 5, 7);
    assert!(p.items.is_empty());
    assert_eq!(p.timestamp, 7);
}

#[test]
fn item_without_values() {
    let item = generate_item(4, 0);
    assert!(item.flags.is_empty());
    assert_eq!(item.name, "Item-4");
}

#[test]
fn flags_follow_formula() {
    let item = generate_item(5, 7);
    let expected: Vec<bool> = (0..7).map(|j| (5 + j) % 3 == 0).collect();
    assert_eq!(item.flags, expected);
}

#[test]
fn payload_now_has_requested_shape() {
    let p = generate_payload_now(4, 3);
    assert_eq!(p.items.len(), 4);
    assert!(p.items.iter().all(|it| it.flags.len() == 3));
    assert!(p.timestamp > 0);
}

#[test]
fn structured_report_counts() {
    let p = generate_payload(5, 1, 0);
    let text = b"{\"version\":\"1.0\"}".to_vec();
    let r = structured_report(&p, &text, &text.clone(), 42);
    assert_eq!(
        r,
        StructuredBenchmarkResult {
            elapsed_nanos: 42,
            bytes_written: text.len(),
            bytes_read: text.len(),
            item_count: 5,
        }
    );
}

#[test]
fn basic_report_counts() {
    let content = "hello, world";
    let r = basic_report(content.as_bytes(), b"hello", 3);
    assert_eq!(r, BasicBenchmarkResult { elapsed_nanos: 3, bytes_written: 12, bytes_read: 5 });
}

#[test]
fn default_file_names() {
    assert_eq!(default_file_name(BenchmarkVariant::RawBytes), "yata_benchmark.bin");
    assert_eq!(default_file_name(BenchmarkVariant::Structured), "yata_benchmark.json");
    assert_eq!(default_file_name(BenchmarkVariant::BasicText), "yata_basic_benchmark.txt");
}
