use dbc_pallets::item_list::ItemList;
use dbc_pallets::sort_key::{compare_bytes, KeyOrder, SortKey};

#[test]
fn add_item_keeps_order_and_skips_duplicates() {
    let mut v: Vec<u64> = Vec::new();
    ItemList::add_item(&mut v, 5);
    ItemList::add_item(&mut v, 1);
    ItemList::add_item(&mut v, 9);
    ItemList::add_item(&mut v, 5);
    ItemList::add_item(&mut v, 3);
    assert_eq!(v, vec![1, 3, 5, 9]);
}

#[test]
fn rm_item_removes_present_and_ignores_absent() {
    let mut v: Vec<u64> = vec![1, 3, 5, 9];
    ItemList::rm_item(&mut v, &3);
    assert_eq!(v, vec![1, 5, 9]);
    ItemList::rm_item(&mut v, &4);
    assert_eq!(v, vec![1, 5, 9]);
    ItemList::rm_item(&mut v, &9);
    ItemList::rm_item(&mut v, &1);
    ItemList::rm_item(&mut v, &5);
    assert!(v.is_empty());
}

#[test]
fn search_gives_index_or_insertion_point() {
    let v: Vec<u64> = vec![2, 4, 6];
    assert_eq!(ItemList::search(&v, &4), Ok(1));
    assert_eq!(ItemList::search(&v, &1), Err(0));
    assert_eq!(ItemList::search(&v, &5), Err(2));
    assert_eq!(ItemList::search(&v, &7), Err(3));
    assert!(ItemList::contains_item(&v, &6));
    assert!(!ItemList::contains_item(&v, &3));
}

#[test]
fn byte_keys_sort_lexicographically() {
    let mut v: Vec<Vec<u8>> = Vec::new();
    ItemList::add_item(&mut v, b"b".to_vec());
    ItemList::add_item(&mut v, b"ab".to_vec());
    ItemList::add_item(&mut v, b"a".to_vec());
    ItemList::add_item(&mut v, b"".to_vec());
    ItemList::add_item(&mut v, b"ab".to_vec());
    assert_eq!(v, vec![b"".to_vec(), b"a".to_vec(), b"ab".to_vec(), b"b".to_vec()]);
    let mut sorted = v.clone();
    sorted.sort();
    assert_eq!(v, sorted);
}

#[test]
fn compare_bytes_matches_std_order() {
    let samples: Vec<&[u8]> = vec![b"", b"a", b"ab", b"b", b"\x00", b"\xff", b"abc", b"abd"];
    for a in &samples {
        for b in &samples {
            let expected = if a < b {
                KeyOrder::Less
            } else if a == b {
                KeyOrder::Equal
            } else {
                KeyOrder::Greater
            };
            assert_eq!(compare_bytes(a, b), expected);
        }
    }
}

#[test]
fn account_keys_compare_bytewise() {
    let mut a = [0u8; 32];
    let mut b = [0u8; 32];
    a[31] = 1;
    b[0] = 1;
    assert_eq!(a.compare_key(&b), KeyOrder::Less);
    assert_eq!(b.compare_key(&a), KeyOrder::Greater);
    assert_eq!(a.compare_key(&a.clone_key()), KeyOrder::Equal);
    assert_eq!(7u64.compare_key(&3), KeyOrder::Greater);
}

#[test]
fn remove_after_add_restores_list() {
    let before: Vec<u64> = vec![10, 20, 30];
    let mut v = before.clone();
    ItemList::add_item(&mut v, 25);
    assert_eq!(v, vec![10, 20, 25, 30]);
    ItemList::rm_item(&mut v, &25);
    assert_eq!(v, before);
}

#[test]
fn add_order_does_not_matter() {
    let mut a: Vec<u64> = vec![4];
    ItemList::add_item(&mut a, 7);
    ItemList::add_item(&mut a, 1);
    let mut b: Vec<u64> = vec![4];
    ItemList::add_item(&mut b, 1);
    ItemList::add_item(&mut b, 7);
    assert_eq!(a, b);
}

#[test]
fn search_finds_items_in_list_with_repeats() {
    let v: Vec<u64> = vec![1, 4, 4, 4, 9];
    assert!(ItemList::contains_item(&v, &4));
    assert!(ItemList::contains_item(&v, &9));
    assert!(!ItemList::contains_item(&v, &5));
    assert_eq!(ItemList::search(&v, &5), Err(4));
    assert_eq!(v[ItemList::search(&v, &4).unwrap()], 4);
}
