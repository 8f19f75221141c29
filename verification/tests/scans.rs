use wiper::utils::filter::Filter;
use wiper::utils::order::size_order;
use wiper::utils::walker::{
    count_and_size, filter_entry_parent_from_predicate, is_hidden, is_node_modules, sort_by_size, Entry,
    FileInfo,
};

fn entry(path: &str, size: u64) -> Entry {
    Entry { path: path.to_string(), size }
}

#[test]
fn size_order_puts_the_largest_first() {
    assert_eq!(size_order(&vec![50, 300, 100]), vec![1, 2, 0]);
    assert_eq!(size_order(&vec![]), Vec::<usize>::new());
    assert_eq!(size_order(&vec![9]), vec![0]);
    assert_eq!(size_order(&vec![1, 2, 3, 4]), vec![3, 2, 1, 0]);
    assert_eq!(size_order(&vec![u64::MAX, 0, u64::MAX - 1]), vec![0, 2, 1]);
}

#[test]
fn size_order_keeps_equal_sizes_as_found() {
    assert_eq!(size_order(&vec![5, 5, 5]), vec![0, 1, 2]);
    assert_eq!(size_order(&vec![1, 7, 1, 7, 1]), vec![1, 3, 0, 2, 4]);
}

#[test]
fn sort_by_size_descends() {
    let shown = sort_by_size(vec![entry("b/node_modules", 50), entry("a/node_modules", 300)]);
    assert_eq!(shown, vec![entry("a/node_modules", 300), entry("b/node_modules", 50)]);
    let many = sort_by_size(vec![
        entry("a", 3),
        entry("b", 10),
        entry("c", 0),
        entry("d", 10),
        entry("e", 7),
    ]);
    for pair in many.windows(2) {
        assert!(pair[0].size >= pair[1].size);
    }
    assert_eq!(many, vec![entry("b", 10), entry("d", 10), entry("e", 7), entry("a", 3), entry("c", 0)]);
}

#[test]
fn sort_by_size_of_nothing_is_nothing() {
    assert_eq!(sort_by_size(vec![]), vec![]);
}

#[test]
fn sorting_twice_gives_the_same_list() {
    let found = vec![entry("x", 1), entry("y", 2), entry("z", 2), entry("w", 0)];
    let first = sort_by_size(found.clone());
    let second = sort_by_size(found);
    assert_eq!(first, second);
    assert_eq!(sort_by_size(first.clone()), first);
}

#[test]
fn count_and_size_adds_up_regular_files() {
    let infos = vec![
        FileInfo { is_file: false, len: 4096 },
        FileInfo { is_file: true, len: 100 },
        FileInfo { is_file: true, len: 200 },
        FileInfo { is_file: false, len: 17 },
    ];
    assert_eq!(count_and_size(&infos), Some((2, 300)));
    assert_eq!(count_and_size(&vec![]), Some((0, 0)));
    assert_eq!(count_and_size(&vec![FileInfo { is_file: false, len: 9 }]), Some((0, 0)));
    assert_eq!(count_and_size(&vec![FileInfo { is_file: true, len: 50 }]), Some((1, 50)));
}

#[test]
fn count_and_size_stops_where_the_sum_does_not_fit() {
    let fits = vec![FileInfo { is_file: true, len: u64::MAX - 1 }, FileInfo { is_file: true, len: 1 }];
    assert_eq!(count_and_size(&fits), Some((2, u64::MAX)));
    let too_much = vec![FileInfo { is_file: true, len: u64::MAX }, FileInfo { is_file: true, len: 1 }];
    assert_eq!(count_and_size(&too_much), None);
    let directories = vec![FileInfo { is_file: true, len: u64::MAX }, FileInfo { is_file: false, len: 1 }];
    assert_eq!(count_and_size(&directories), Some((1, u64::MAX)));
}

#[test]
fn node_modules_by_name() {
    assert!(is_node_modules("node_modules"));
    assert!(!is_node_modules("node_module"));
    assert!(!is_node_modules("node_modules2"));
    assert!(!is_node_modules("Node_modules"));
    assert!(!is_node_modules(""));
}

#[test]
fn hidden_names_start_with_a_dot() {
    assert!(is_hidden(".git"));
    assert!(is_hidden("."));
    assert!(!is_hidden("git"));
    assert!(!is_hidden("a.b"));
    assert!(!is_hidden(""));
}

#[test]
fn a_walk_stops_below_a_match() {
    let predicate = |name: &str| name == "node_modules";
    assert!(filter_entry_parent_from_predicate(None, &predicate));
    assert!(filter_entry_parent_from_predicate(Some("src"), &predicate));
    assert!(!filter_entry_parent_from_predicate(Some("node_modules"), &predicate));
}

#[test]
fn a_filter_matches_names() {
    let filter = Filter::new("^node_modules$").unwrap();
    assert_eq!(filter.as_str(), "^node_modules$");
    assert!(filter.is_match("node_modules"));
    assert!(!filter.is_match("node_modules2"));
    assert!(!filter.is_match("a/node_modules"));
    assert!(!filter.is_match("^node_modules$"));
    let dist = Filter::new("^dist$").unwrap();
    assert!(dist.is_match("dist"));
    assert!(!dist.is_match("node_modules"));
    let part = Filter::new("mod").unwrap();
    assert!(part.is_match("node_modules"));
    assert!(!part.is_match("dist"));
}

#[test]
fn a_filter_prunes_a_walk() {
    let filter = Filter::new("^node_modules$").unwrap();
    let predicate = |name: &str| filter.is_match(name);
    assert!(filter_entry_parent_from_predicate(Some("a"), &predicate));
    assert!(!filter_entry_parent_from_predicate(Some("node_modules"), &predicate));
}

#[test]
fn a_pattern_that_is_no_expression_is_an_error() {
    let error = Filter::new("(unclosed").err().unwrap();
    assert_eq!(error.pattern, "(unclosed");
    assert!(!error.message.is_empty());
    assert_ne!(error.message, "(unclosed");
    assert!(Filter::new("[a-").is_err());
    assert!(Filter::new("").is_ok());
}
