use mates::error::MatesError;
use mates::query::{email_format, file_format, is_blank, mutt_format, select_single, IndexItem, IndexIterator};

fn item(email: &str, name: &str, filepath: &str) -> IndexItem {
    IndexItem {
        email: email.to_string(),
        name: name.to_string(),
        filepath: filepath.to_string(),
    }
}

#[test]
fn index_item_splits_three_fields() {
    let it = IndexItem::new("a@x.com\tAlice\t/p/1.vcf".to_string());
    assert_eq!(it.email, "a@x.com");
    assert_eq!(it.name, "Alice");
    assert_eq!(it.filepath, "/p/1.vcf");
}

#[test]
fn index_item_missing_fields_default_to_empty() {
    let it = IndexItem::new("a@x.com".to_string());
    assert_eq!(it.email, "a@x.com");
    assert_eq!(it.name, "");
    assert_eq!(it.filepath, "");

    let it = IndexItem::new("a@x.com\tAlice".to_string());
    assert_eq!(it.name, "Alice");
    assert_eq!(it.filepath, "");

    let it = IndexItem::new(String::new());
    assert_eq!(it.email, "");
}

#[test]
fn index_item_takes_only_third_field() {
    let it = IndexItem::new("a\tb\tc\td".to_string());
    assert_eq!(it.filepath, "c");
}

#[test]
fn pass_through_query_yields_one_record() {
    let output = "a@x.com\tAlice\t/p/1.vcf\n".to_string();
    let mut iter = IndexIterator::new(&output);
    let first = iter.next().expect("one record expected");
    assert_eq!(first.email, "a@x.com");
    assert_eq!(first.name, "Alice");
    assert_eq!(first.filepath, "/p/1.vcf");
    assert!(iter.next().is_none());
}

#[test]
fn records_keep_filter_output_order() {
    let output = "a@x.com\tA\t/p/a.vcf\nb@x.com\tB\t/p/b.vcf\n".to_string();
    let mut iter = IndexIterator::new(&output);
    assert_eq!(iter.next().unwrap().email, "a@x.com");
    assert_eq!(iter.next().unwrap().email, "b@x.com");
    assert!(iter.next().is_none());
}

#[test]
fn only_single_trailing_empty_line_is_discarded() {
    let mut iter = IndexIterator::new(&"a\n\n".to_string());
    assert_eq!(iter.next().unwrap().email, "a");
    let blank = iter.next().unwrap();
    assert_eq!(blank.email, "");
    assert!(iter.next().is_none());

    let mut empty = IndexIterator::new(&String::new());
    assert!(empty.next().is_none());
}

#[test]
fn empty_name_excluded_from_mutt_and_email_but_not_file() {
    let items = vec![
        item("a@x.com", "", "/p/a.vcf"),
        item("b@x.com", "Bob", "/p/b.vcf"),
    ];
    let mutt = mutt_format(&items);
    assert_eq!(mutt, vec!["b@x.com\tBob\t/p/b.vcf".to_string()]);
    let email = email_format(&items);
    assert_eq!(email, vec!["Bob <b@x.com>".to_string()]);
    let file = file_format(&items);
    assert_eq!(
        file,
        vec!["/p/a.vcf".to_string(), "/p/b.vcf".to_string()]
    );
}

#[test]
fn empty_email_excluded_from_mutt_and_email_formats() {
    let items = vec![item("", "Alice", "")];
    assert!(mutt_format(&items).is_empty());
    assert!(email_format(&items).is_empty());
    assert!(file_format(&items).is_empty());
}

#[test]
fn select_single_demands_exactly_one_match() {
    assert!(matches!(select_single(&vec![]), Err(MatesError::NoMatch)));
    assert!(matches!(
        select_single(&vec!["a".to_string(), "b".to_string()]),
        Err(MatesError::Ambiguous)
    ));
    assert_eq!(select_single(&vec!["a".to_string()]).unwrap(), "a");
}

#[test]
fn blankness_of_emptied_files() {
    assert!(is_blank(""));
    assert!(is_blank(" \t\r\n"));
    assert!(!is_blank(" x "));
}

#[test]
fn error_messages_are_descriptive() {
    assert_eq!(MatesError::NoMatch.message(), "no such contact.");
    assert_eq!(MatesError::Ambiguous.message(), "ambiguous query.");
    assert_eq!(
        MatesError::Config("MATES_EDITOR or EDITOR must be set.".to_string()).message(),
        "configuration error: MATES_EDITOR or EDITOR must be set."
    );
}

#[test]
fn output_without_final_newline_still_yields_the_record() {
    let mut iter = IndexIterator::new(&"a@x.com\tAlice\t/p/1.vcf".to_string());
    let only = iter.next().unwrap();
    assert_eq!(only.name, "Alice");
    assert!(iter.next().is_none());
}

#[test]
fn non_ascii_fields_survive_parsing() {
    let it = IndexItem::new("émile@x.com\tÉmile Zola\t/p/é.vcf".to_string());
    assert_eq!(it.email, "émile@x.com");
    assert_eq!(it.name, "Émile Zola");
    assert_eq!(it.filepath, "/p/é.vcf");
}
