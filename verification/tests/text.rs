use qemu::text::{join, number};

fn strings(items: &[&str]) -> Vec<String> {
    items.iter().map(|s| s.to_string()).collect()
}

#[test]
fn number_writes_zero_as_one_digit() {
    assert_eq!(number(0), "0");
}

#[test]
fn number_writes_single_digits() {
    assert_eq!(number(1), "1");
    assert_eq!(number(7), "7");
    assert_eq!(number(9), "9");
}

#[test]
fn number_writes_most_significant_digit_first() {
    assert_eq!(number(10), "10");
    assert_eq!(number(255), "255");
    assert_eq!(number(4096), "4096");
    assert_eq!(number(536_870_912), "536870912");
    assert_eq!(number(1_000_000_007), "1000000007");
}

#[test]
fn number_writes_the_largest_value() {
    assert_eq!(number(u64::MAX), "18446744073709551615");
}

#[test]
fn number_reads_back_as_itself() {
    for n in [0u64, 1, 9, 10, 99, 100, 101, 65_535, 1 << 32, u64::MAX - 1, u64::MAX] {
        let text = number(n);
        assert_eq!(text.parse::<u64>().unwrap(), n);
        assert_eq!(text, n.to_string());
        assert!(text.chars().all(|c| c.is_ascii_digit()));
        assert_eq!(text.starts_with('0'), n == 0);
    }
}

#[test]
fn join_of_nothing_is_empty() {
    assert_eq!(join(&Vec::new(), ","), "");
}

#[test]
fn join_of_one_part_is_that_part() {
    assert_eq!(join(&strings(&["cpus=1"]), ","), "cpus=1");
}

#[test]
fn join_puts_the_separator_between_parts_only() {
    assert_eq!(join(&strings(&["a", "b", "c"]), ","), "a,b,c");
    assert_eq!(join(&strings(&["a", "b"]), ", "), "a, b");
    assert_eq!(join(&strings(&["a", "b"]), ""), "ab");
}

#[test]
fn join_keeps_empty_parts() {
    assert_eq!(join(&strings(&["", "x", ""]), ","), ",x,");
}
