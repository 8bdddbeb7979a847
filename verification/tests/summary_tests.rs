use relay_compiler::summary::{decimal, summary_line, DocumentCounts};

#[test]
fn decimal_writes_single_digits() {
    assert_eq!(decimal(0), "0");
    assert_eq!(decimal(1), "1");
    assert_eq!(decimal(5), "5");
    assert_eq!(decimal(9), "9");
}

#[test]
fn decimal_writes_several_digits_most_significant_first() {
    assert_eq!(decimal(10), "10");
    assert_eq!(decimal(11), "11");
    assert_eq!(decimal(99), "99");
    assert_eq!(decimal(100), "100");
    assert_eq!(decimal(101), "101");
    assert_eq!(decimal(1234567890), "1234567890");
}

#[test]
fn decimal_writes_the_largest_number() {
    assert_eq!(decimal(usize::MAX), usize::MAX.to_string());
}

#[test]
fn decimal_agrees_with_the_standard_notation() {
    let mut n: usize = 0;
    while n < 2500 {
        assert_eq!(decimal(n), n.to_string());
        n += 1;
    }
    let mut power: usize = 1;
    for _ in 0..18 {
        power *= 10;
        assert_eq!(decimal(power - 1), (power - 1).to_string());
        assert_eq!(decimal(power), power.to_string());
        assert_eq!(decimal(power + 1), (power + 1).to_string());
    }
}

#[test]
fn summary_line_reports_the_three_programs() {
    let counts = DocumentCounts { reader: 3, normalization: 2, operation_text: 1 };
    assert_eq!(
        summary_line("app", counts),
        "[app] documents: 3 reader, 2 normalization, 1 operation"
    );
}

#[test]
fn summary_line_of_an_empty_project() {
    let counts = DocumentCounts { reader: 0, normalization: 0, operation_text: 0 };
    assert_eq!(
        summary_line("", counts),
        "[] documents: 0 reader, 0 normalization, 0 operation"
    );
}

#[test]
fn summary_line_with_large_counts() {
    let counts = DocumentCounts { reader: 1024, normalization: 70, operation_text: 100000 };
    assert_eq!(
        summary_line("web-client", counts),
        "[web-client] documents: 1024 reader, 70 normalization, 100000 operation"
    );
}
