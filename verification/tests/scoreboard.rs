use dirnav::listing::format_listing;
use dirnav::table::Table;

#[test]
fn new_board_is_empty() {
    let t = Table::new();
    assert_eq!(t.num_rows(), 0);
    assert_eq!(t.get(&String::from("alpha")), None);
}

#[test]
fn append_and_get() {
    let mut t = Table::new();
    t.append(String::from("alpha"), 3);
    t.append(String::from("beta"), -7);
    assert_eq!(t.get(&String::from("alpha")), Some(3));
    assert_eq!(t.get(&String::from("beta")), Some(-7));
    assert_eq!(t.get(&String::from("gamma")), None);
    assert_eq!(t.num_rows(), 2);
}

#[test]
fn append_replaces_existing_score() {
    let mut t = Table::new();
    t.append(String::from("alpha"), 3);
    t.append(String::from("alpha"), 9);
    assert_eq!(t.get(&String::from("alpha")), Some(9));
    assert_eq!(t.num_rows(), 1);
}

#[test]
fn update_found_and_missing() {
    let mut t = Table::new();
    t.append(String::from("alpha"), 3);
    assert!(t.update(String::from("alpha"), 5));
    assert_eq!(t.get(&String::from("alpha")), Some(5));
    assert!(!t.update(String::from("beta"), 1));
    assert_eq!(t.get(&String::from("beta")), None);
    assert_eq!(t.num_rows(), 1);
}

#[test]
fn delete_found_and_missing() {
    let mut t = Table::new();
    t.append(String::from("alpha"), 3);
    t.append(String::from("beta"), 4);
    assert!(t.delete(String::from("alpha")));
    assert_eq!(t.get(&String::from("alpha")), None);
    assert_eq!(t.get(&String::from("beta")), Some(4));
    assert!(!t.delete(String::from("alpha")));
    assert_eq!(t.num_rows(), 1);
}

#[test]
fn delete_all_clears_the_board() {
    let mut t = Table::new();
    t.append(String::from("alpha"), 3);
    t.append(String::from("beta"), 4);
    t.delete_all();
    assert_eq!(t.num_rows(), 0);
    assert_eq!(t.get(&String::from("alpha")), None);
}

#[test]
fn rows_keep_insertion_order() {
    let mut t = Table::new();
    t.append(String::from("alpha"), 1);
    t.append(String::from("beta"), 2);
    t.append(String::from("alpha"), 3);
    assert_eq!(t.num_rows(), 2);
    let first = t.row_at(0);
    let second = t.row_at(1);
    assert_eq!(first.0, String::from("alpha"));
    assert_eq!(first.1, 3);
    assert_eq!(second.0, String::from("beta"));
    assert_eq!(second.1, 2);
}

#[test]
fn empty_enumeration_renders_empty_listing() {
    let names: Vec<String> = Vec::new();
    assert_eq!(format_listing(&names), String::new());
}

#[test]
fn listing_has_one_name_per_line() {
    let names = vec![String::from("src"), String::from("notes.txt")];
    assert_eq!(format_listing(&names), String::from("src\nnotes.txt\n"));
}
