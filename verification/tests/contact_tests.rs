use mates::contact::{fresh_uid, vcf_path, Contact};
use mates::error::MatesError;
use mates::index::{build_index_content, index_item_from_contact, is_vcf_name};

#[test]
fn fresh_uid_is_32_lowercase_hex_digits() {
    let uid = fresh_uid();
    assert_eq!(uid.chars().count(), 32);
    assert!(uid.chars().all(|c| c.is_ascii_hexdigit() && !c.is_ascii_uppercase()));
}

#[test]
fn fresh_uids_differ() {
    assert_ne!(fresh_uid(), fresh_uid());
}

#[test]
fn vcf_path_joins_directory_identifier_and_extension() {
    assert_eq!(vcf_path("/tmp/contacts", "u1"), "/tmp/contacts/u1.vcf");
}

#[test]
fn vcf_name_filter() {
    assert!(is_vcf_name("u1.vcf"));
    assert!(!is_vcf_name("u1.txt"));
    assert!(!is_vcf_name("vcf"));
    assert!(!is_vcf_name(""));
}

#[test]
fn generated_contact_serializes_to_a_vcard() {
    let c = Contact::generate(Some("Alice"), Some("a@x.com"), "/tmp/d", "u1".to_string());
    assert_eq!(c.path, "/tmp/d/u1.vcf");
    let text = c.render();
    assert_eq!(
        text,
        "BEGIN:VCARD\r\nEMAIL:a@x.com\r\nFN:Alice\r\nUID:u1\r\nEND:VCARD\r\n"
    );
}

#[test]
fn generated_contact_round_trips() {
    let c = Contact::generate(Some("John Doe"), Some("john@x.com"), "/tmp/d", "u2".to_string());
    let back = c.reparse().expect("round trip must parse");
    assert_eq!(back.single_prop("FN").unwrap(), "John Doe");
    assert_eq!(back.all_props("EMAIL"), vec!["john@x.com".to_string()]);
    assert_eq!(back.single_prop("UID").unwrap(), "u2");
    assert_eq!(back.path, "/tmp/d/u2.vcf");
}

#[test]
fn round_trip_keeps_escaped_characters() {
    let c = Contact::generate(Some("Doe; John, Jr."), None, "/d", "u3".to_string());
    let back = c.reparse().unwrap();
    assert_eq!(back.single_prop("FN").unwrap(), "Doe; John, Jr.");
    assert!(back.single_prop("EMAIL").is_none());
}

#[test]
fn from_vcard_text_parses_a_document() {
    let text = "BEGIN:VCARD\r\nFN:Alice\r\nEMAIL:a@x.com\r\nEMAIL:a2@x.com\r\nUID:u4\r\nEND:VCARD\r\n";
    let c = Contact::from_vcard_text("/p/u4.vcf".to_string(), text).unwrap();
    assert_eq!(c.path, "/p/u4.vcf");
    assert_eq!(c.single_prop("FN").unwrap(), "Alice");
    assert_eq!(
        c.all_props("EMAIL"),
        vec!["a@x.com".to_string(), "a2@x.com".to_string()]
    );
}

#[test]
fn from_vcard_text_rejects_garbage() {
    let r = Contact::from_vcard_text("/p/bad.vcf".to_string(), "this is no vcard");
    assert!(matches!(r, Err(MatesError::Parse(_))));
}

#[test]
fn index_item_has_one_row_per_email() {
    let c = Contact::generate(Some("Alice"), Some("a@x.com"), "/d", "u5".to_string());
    let rows = index_item_from_contact(&c).unwrap();
    assert_eq!(rows, "a@x.com\tAlice\t/d/u5.vcf\n");

    let text = "BEGIN:VCARD\r\nFN:Bob\r\nEMAIL:b@x.com\r\nEMAIL:b2@x.com\r\nEND:VCARD\r\n";
    let two = Contact::from_vcard_text("/d/b.vcf".to_string(), text).unwrap();
    let rows = index_item_from_contact(&two).unwrap();
    assert_eq!(rows, "b@x.com\tBob\t/d/b.vcf\nb2@x.com\tBob\t/d/b.vcf\n");
}

#[test]
fn contact_without_name_is_not_indexed() {
    let c = Contact::generate(None, Some("a@x.com"), "/d", "u6".to_string());
    assert!(matches!(
        index_item_from_contact(&c),
        Err(MatesError::NoName)
    ));
}

#[test]
fn one_bad_file_does_not_abort_the_rebuild() {
    let good = Contact::generate(Some("Alice"), Some("a@x.com"), "/d", "u7".to_string());
    let entries = vec![None, Some(good)];
    let (content, errors) = build_index_content(&entries);
    assert_eq!(content, "a@x.com\tAlice\t/d/u7.vcf\n");
    assert!(errors);
}

#[test]
fn clean_rebuild_reports_no_errors() {
    let a = Contact::generate(Some("Alice"), Some("a@x.com"), "/d", "u8".to_string());
    let b = Contact::generate(Some("Bob"), Some("b@x.com"), "/d", "u9".to_string());
    let (content, errors) = build_index_content(&vec![Some(a), Some(b)]);
    assert_eq!(
        content,
        "a@x.com\tAlice\t/d/u8.vcf\nb@x.com\tBob\t/d/u9.vcf\n"
    );
    assert!(!errors);
}

#[test]
fn nameless_contact_is_counted_but_excluded() {
    let named = Contact::generate(Some("Alice"), Some("a@x.com"), "/d", "ua".to_string());
    let nameless = Contact::generate(None, Some("b@x.com"), "/d", "ub".to_string());
    let (content, errors) = build_index_content(&vec![Some(nameless), Some(named)]);
    assert_eq!(content, "a@x.com\tAlice\t/d/ua.vcf\n");
    assert!(errors);
}

#[test]
fn rebuild_order_does_not_change_the_rows() {
    let a = Contact::generate(Some("Alice"), Some("a@x.com"), "/d", "uc".to_string());
    let b = Contact::generate(Some("Bob"), Some("b@x.com"), "/d", "ud".to_string());
    let a2 = Contact::generate(Some("Alice"), Some("a@x.com"), "/d", "uc".to_string());
    let b2 = Contact::generate(Some("Bob"), Some("b@x.com"), "/d", "ud".to_string());
    let (one, _) = build_index_content(&vec![Some(a), Some(b)]);
    let (two, _) = build_index_content(&vec![Some(b2), Some(a2)]);
    let mut rows_one: Vec<&str> = one.lines().collect();
    let mut rows_two: Vec<&str> = two.lines().collect();
    rows_one.sort();
    rows_two.sort();
    assert_eq!(rows_one, rows_two);
}
