use server::config::database_file;
use server::text::{chars_of, starts_with_at};

#[test]
fn a_sqlite_address_names_its_file() {
    assert_eq!(database_file("sqlite:data.db"), Some(String::from("data.db")));
    assert_eq!(database_file("sqlite:/var/lib/rank/data.db"), Some(String::from("/var/lib/rank/data.db")));
    assert_eq!(database_file("sqlite://data.db"), Some(String::from("//data.db")));
}

#[test]
fn a_repeated_scheme_is_taken_off_each_time() {
    assert_eq!(database_file("sqlite:sqlite:data.db"), Some(String::from("data.db")));
    assert_eq!(database_file("sqlite:sqlite:sqlite:"), Some(String::new()));
    assert_eq!(database_file("sqlite:a.sqlite:b"), Some(String::from("a.sqlite:b")));
}

#[test]
fn the_scheme_alone_names_the_empty_path() {
    assert_eq!(database_file("sqlite:"), Some(String::new()));
}

#[test]
fn another_address_names_no_file() {
    assert_eq!(database_file("postgres://localhost/rank"), None);
    assert_eq!(database_file("data.db"), None);
    assert_eq!(database_file("sqlite"), None);
    assert_eq!(database_file("SQLITE:data.db"), None);
    assert_eq!(database_file(""), None);
}

#[test]
fn characters_come_in_order() {
    assert_eq!(chars_of("a\u{00e9}\u{732b}"), vec!['a', '\u{00e9}', '\u{732b}']);
    assert!(chars_of("").is_empty());
}

#[test]
fn a_pattern_is_found_where_it_stands() {
    let text = chars_of("sqlite:data");
    let pattern = chars_of("data");
    assert!(starts_with_at(&text, 7, &pattern));
    assert!(!starts_with_at(&text, 6, &pattern));
    assert!(!starts_with_at(&text, 8, &pattern));
    assert!(starts_with_at(&text, 11, &Vec::new()));
    assert!(!starts_with_at(&text, 11, &pattern));
    assert!(!starts_with_at(&text, 12, &Vec::new()));
    assert!(!starts_with_at(&text, usize::MAX, &pattern));
    assert!(starts_with_at(&text, 0, &chars_of("sqlite:data")));
    assert!(!starts_with_at(&text, 0, &chars_of("sqlite:data ")));
}
