use relay_compiler::source::{Location, SourceContext, SourceUnit, Sources, NEWLINE};

const QUERY: &str = "query UserQuery {\n  user {\n    id\n    email\n  }\n}\n";

fn sources_with_query() -> Sources {
    let mut sources = Sources::new();
    sources.insert(1, "UserQuery.graphql", QUERY);
    sources
}

fn sources_with_notes(text: &str) -> Sources {
    let mut sources = Sources::new();
    sources.insert(7, "notes.txt", text);
    sources
}

fn unit(name: &str, text: &str) -> SourceUnit {
    SourceUnit { name: name.to_string(), text: text.as_bytes().to_vec() }
}

fn in_query(line: usize, column: usize, text: &str) -> Option<SourceContext> {
    Some(SourceContext {
        file: "UserQuery.graphql".to_string(),
        line,
        column,
        text: text.as_bytes().to_vec(),
    })
}

fn in_notes(line: usize, column: usize, text: &str) -> Option<SourceContext> {
    Some(SourceContext {
        file: "notes.txt".to_string(),
        line,
        column,
        text: text.as_bytes().to_vec(),
    })
}

#[test]
fn newline_is_the_line_feed() {
    assert_eq!(NEWLINE, b'\n');
}

#[test]
fn an_empty_set_knows_no_source_unit() {
    let sources = Sources::new();
    assert_eq!(sources.unit(0), None);
    assert_eq!(sources.unit(1), None);
}

#[test]
fn insert_records_the_name_and_the_bytes_of_the_text() {
    let sources = sources_with_query();
    assert_eq!(sources.unit(1), Some(&unit("UserQuery.graphql", QUERY)));
    assert_eq!(sources.unit(1).unwrap().text, QUERY.as_bytes().to_vec());
    assert_eq!(sources.unit(2), None);
}

#[test]
fn insert_replaces_the_text_of_a_known_unit() {
    let mut sources = sources_with_query();
    sources.insert(1, "F.graphql", "fragment F on User { id }");
    assert_eq!(sources.unit(1), Some(&unit("F.graphql", "fragment F on User { id }")));
}

#[test]
fn insert_keeps_the_other_units() {
    let mut sources = sources_with_query();
    sources.insert(2, "second.graphql", "second");
    assert_eq!(sources.unit(1), Some(&unit("UserQuery.graphql", QUERY)));
    assert_eq!(sources.unit(2), Some(&unit("second.graphql", "second")));
}

#[test]
fn resolve_gives_line_column_and_text() {
    let sources = sources_with_query();
    let email = Location { source: 1, start: 38, end: 43 };
    assert_eq!(&QUERY[38..43], "email");
    assert_eq!(email.resolve(&sources), in_query(3, 4, "email"));
}

#[test]
fn resolve_on_the_first_line() {
    let sources = sources_with_query();
    assert_eq!(Location { source: 1, start: 0, end: 5 }.resolve(&sources), in_query(0, 0, "query"));
    assert_eq!(
        Location { source: 1, start: 6, end: 15 }.resolve(&sources),
        in_query(0, 6, "UserQuery")
    );
}

#[test]
fn resolve_counts_lines_and_columns_from_zero() {
    let sources = sources_with_notes("ab\ncd\n\nef");
    assert_eq!(Location { source: 7, start: 0, end: 1 }.resolve(&sources), in_notes(0, 0, "a"));
    assert_eq!(Location { source: 7, start: 1, end: 2 }.resolve(&sources), in_notes(0, 1, "b"));
    assert_eq!(Location { source: 7, start: 3, end: 4 }.resolve(&sources), in_notes(1, 0, "c"));
    assert_eq!(Location { source: 7, start: 4, end: 5 }.resolve(&sources), in_notes(1, 1, "d"));
    assert_eq!(Location { source: 7, start: 7, end: 9 }.resolve(&sources), in_notes(3, 0, "ef"));
}

#[test]
fn a_newline_belongs_to_the_line_it_ends() {
    let sources = sources_with_notes("ab\ncd\n\nef");
    assert_eq!(Location { source: 7, start: 2, end: 3 }.resolve(&sources), in_notes(0, 2, "\n"));
    assert_eq!(Location { source: 7, start: 5, end: 6 }.resolve(&sources), in_notes(1, 2, "\n"));
    assert_eq!(Location { source: 7, start: 6, end: 7 }.resolve(&sources), in_notes(2, 0, "\n"));
}

#[test]
fn a_range_may_span_lines() {
    let sources = sources_with_notes("ab\ncd\n\nef");
    assert_eq!(
        Location { source: 7, start: 1, end: 8 }.resolve(&sources),
        in_notes(0, 1, "b\ncd\n\ne")
    );
    assert_eq!(
        Location { source: 7, start: 0, end: 9 }.resolve(&sources),
        in_notes(0, 0, "ab\ncd\n\nef")
    );
}

#[test]
fn an_empty_range_resolves_to_no_text() {
    let sources = sources_with_notes("ab\ncd");
    assert_eq!(Location { source: 7, start: 0, end: 0 }.resolve(&sources), in_notes(0, 0, ""));
    assert_eq!(Location { source: 7, start: 4, end: 4 }.resolve(&sources), in_notes(1, 1, ""));
    assert_eq!(Location { source: 7, start: 5, end: 5 }.resolve(&sources), in_notes(1, 2, ""));
}

#[test]
fn an_empty_text_has_one_place() {
    let sources = sources_with_notes("");
    assert_eq!(Location { source: 7, start: 0, end: 0 }.resolve(&sources), in_notes(0, 0, ""));
    assert_eq!(Location { source: 7, start: 0, end: 1 }.resolve(&sources), None);
    assert_eq!(Location { source: 7, start: 1, end: 1 }.resolve(&sources), None);
}

#[test]
fn an_unknown_source_unit_does_not_resolve() {
    let sources = sources_with_query();
    assert_eq!(Location { source: 2, start: 0, end: 5 }.resolve(&sources), None);
    assert_eq!(Location { source: 0, start: 0, end: 0 }.resolve(&Sources::new()), None);
}

#[test]
fn a_range_outside_the_text_does_not_resolve() {
    let sources = sources_with_query();
    let length = QUERY.len();
    assert_eq!(length, 50);
    assert_eq!(
        Location { source: 1, start: 48, end: length }.resolve(&sources),
        in_query(5, 0, "}\n")
    );
    assert_eq!(Location { source: 1, start: 48, end: length + 1 }.resolve(&sources), None);
    assert_eq!(Location { source: 1, start: length + 1, end: length + 1 }.resolve(&sources), None);
    assert_eq!(Location { source: 1, start: 0, end: usize::MAX }.resolve(&sources), None);
    assert_eq!(
        Location { source: 1, start: usize::MAX, end: usize::MAX }.resolve(&sources),
        None
    );
}

#[test]
fn a_range_that_ends_before_it_starts_does_not_resolve() {
    let sources = sources_with_query();
    assert_eq!(Location { source: 1, start: 5, end: 4 }.resolve(&sources), None);
    assert_eq!(Location { source: 1, start: 1, end: 0 }.resolve(&sources), None);
}

#[test]
fn columns_count_bytes() {
    let sources = sources_with_notes("é = x");
    assert_eq!(Location { source: 7, start: 5, end: 6 }.resolve(&sources), in_notes(0, 5, "x"));
    assert_eq!(Location { source: 7, start: 0, end: 2 }.resolve(&sources), in_notes(0, 0, "é"));
}

#[test]
fn a_carriage_return_does_not_end_a_line() {
    let sources = sources_with_notes("a\r\nb\rc");
    assert_eq!(Location { source: 7, start: 3, end: 4 }.resolve(&sources), in_notes(1, 0, "b"));
    assert_eq!(Location { source: 7, start: 5, end: 6 }.resolve(&sources), in_notes(1, 2, "c"));
}

#[test]
fn insert_bytes_records_the_bytes_as_they_are() {
    let mut sources = Sources::new();
    sources.insert_bytes(7, "notes.txt", vec![b'a', b'b', b'\n', 0xff, b'd']);
    assert_eq!(
        sources.unit(7),
        Some(&SourceUnit { name: "notes.txt".to_string(), text: vec![97, 98, 10, 255, 100] })
    );
    assert_eq!(
        Location { source: 7, start: 3, end: 5 }.resolve(&sources),
        Some(SourceContext {
            file: "notes.txt".to_string(),
            line: 1,
            column: 0,
            text: vec![255, 100],
        })
    );
}

#[test]
fn insert_and_insert_bytes_agree_on_text() {
    let mut by_text = Sources::new();
    by_text.insert(7, "notes.txt", "ab\ncd");
    let mut by_bytes = Sources::new();
    by_bytes.insert_bytes(7, "notes.txt", b"ab\ncd".to_vec());
    assert_eq!(by_text.unit(7), by_bytes.unit(7));
}
