use c8y_mapper_ext::name_list::NameList;
use c8y_mapper_ext::text::{clone_strings, join_strings, sort_strings, str_le, to_decimal};
use c8y_mapper_ext::text_map::TextMap;

fn strings(items: &[&str]) -> Vec<String> {
    items.iter().map(|s| s.to_string()).collect()
}

#[test]
fn order_is_lexicographic() {
    assert!(str_le("", ""));
    assert!(str_le("", "a"));
    assert!(!str_le("a", ""));
    assert!(str_le("abc", "abc"));
    assert!(str_le("abc", "abd"));
    assert!(!str_le("abd", "abc"));
    assert!(str_le("ab", "abc"));
    assert!(!str_le("abc", "ab"));
    assert!(str_le("Z", "a"));
    assert!(str_le("c8y_DownloadConfigFile", "c8y_UploadConfigFile"));
    assert!(!str_le("c8y_UploadConfigFile", "c8y_DownloadConfigFile"));
    assert!(str_le("z", "é"));
    assert!(str_le("é", "日本"));
}

#[test]
fn order_agrees_with_the_order_of_strings() {
    let samples = ["", "a", "A", "ab", "abc", "b", "typeA", "typeB", "é", "日本", "\u{10FFFF}", "~"];
    for a in samples {
        for b in samples {
            assert_eq!(str_le(a, b), a <= b, "{a:?} {b:?}");
        }
    }
}

#[test]
fn sort_orders_and_keeps_duplicates() {
    assert_eq!(sort_strings(strings(&[])), strings(&[]));
    assert_eq!(sort_strings(strings(&["b"])), strings(&["b"]));
    assert_eq!(
        sort_strings(strings(&["typeC", "typeA", "typeB"])),
        strings(&["typeA", "typeB", "typeC"])
    );
    assert_eq!(
        sort_strings(strings(&["b", "a", "b", "", "ab", "a"])),
        strings(&["", "a", "a", "ab", "b", "b"])
    );
    let mut expected = strings(&["x", "B", "é", "a", "10", "9", "abc", "ab"]);
    expected.sort();
    assert_eq!(sort_strings(strings(&["x", "B", "é", "a", "10", "9", "abc", "ab"])), expected);
}

#[test]
fn join_puts_the_separator_between() {
    assert_eq!(join_strings(&strings(&[]), ","), "");
    assert_eq!(join_strings(&strings(&["a"]), ","), "a");
    assert_eq!(join_strings(&strings(&["a", "b", "c"]), ","), "a,b,c");
    assert_eq!(join_strings(&strings(&["", ""]), ","), ",");
    assert_eq!(join_strings(&strings(&["a", "b"]), " - "), "a - b");
}

#[test]
fn decimal_notation() {
    assert_eq!(to_decimal(0), "0");
    assert_eq!(to_decimal(7), "7");
    assert_eq!(to_decimal(10), "10");
    assert_eq!(to_decimal(16385), "16385");
    assert_eq!(to_decimal(1234567890), "1234567890");
    assert_eq!(to_decimal(usize::MAX), usize::MAX.to_string());
}

#[test]
fn sorted_list_takes_each_name_once() {
    let mut names = NameList::new();
    assert!(names.names().is_empty());
    assert!(!names.contains("b"));
    assert!(names.insert("b"));
    assert!(names.insert("d"));
    assert!(names.insert("a"));
    assert!(names.insert("c"));
    assert!(!names.insert("b"));
    assert!(!names.insert("a"));
    assert!(!names.insert("d"));
    assert_eq!(names.names(), &strings(&["a", "b", "c", "d"]));
    assert!(names.contains("a"));
    assert!(names.contains("d"));
    assert!(!names.contains("bb"));
    assert!(!names.contains(""));
    assert!(!names.contains("e"));
}

#[test]
fn copy_of_a_list_holds_the_same_strings() {
    assert_eq!(clone_strings(&strings(&[])), strings(&[]));
    assert_eq!(clone_strings(&strings(&["b", "", "a", "b"])), strings(&["b", "", "a", "b"]));
}

#[test]
fn map_holds_the_last_value_for_a_key() {
    let mut map: TextMap<u32> = TextMap::new();
    assert_eq!(map.get("a"), None);
    assert_eq!(map.replace("a", 1), None);
    assert_eq!(map.replace("b", 2), None);
    assert_eq!(map.get("a"), Some(&1));
    assert_eq!(map.get("b"), Some(&2));
    assert_eq!(map.replace("a", 3), Some(1));
    assert_eq!(map.get("a"), Some(&3));
    assert_eq!(map.get("b"), Some(&2));
    assert_eq!(map.get(""), None);
    assert_eq!(map.replace("", 4), None);
    assert_eq!(map.get(""), Some(&4));
}
