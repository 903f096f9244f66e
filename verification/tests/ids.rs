use clubhouse::ids::{sorted_unique, text_standing, Standing};

fn strings(items: &[&str]) -> Vec<String> {
    items.iter().map(|s| s.to_string()).collect()
}

#[test]
fn standing_follows_the_order_of_strings() {
    let samples = ["", "a", "A", "ab", "abc", "abd", "b", "B", "z", "é", "日本", "a\u{10000}", "~"];
    for a in samples {
        for b in samples {
            let expected = match a.cmp(b) {
                std::cmp::Ordering::Less => Standing::Before,
                std::cmp::Ordering::Equal => Standing::Same,
                std::cmp::Ordering::Greater => Standing::After,
            };
            assert_eq!(text_standing(a, b), expected, "{a:?} against {b:?}");
        }
    }
}

#[test]
fn a_prefix_comes_first() {
    assert_eq!(text_standing("abc", "abcd"), Standing::Before);
    assert_eq!(text_standing("abcd", "abc"), Standing::After);
    assert_eq!(text_standing("", ""), Standing::Same);
}

#[test]
fn sorted_unique_sorts_and_drops_repeats() {
    let ids = strings(&["u3", "u1", "u2", "u1", "u3", "u3"]);
    assert_eq!(sorted_unique(&ids), strings(&["u1", "u2", "u3"]));
}

#[test]
fn sorted_unique_agrees_with_sort_and_dedup() {
    let ids = strings(&["b", "", "a", "B", "ab", "a", "", "zz", "b", "é", "ab"]);
    let mut expected = ids.clone();
    expected.sort_unstable();
    expected.dedup();
    assert_eq!(sorted_unique(&ids), expected);
}

#[test]
fn sorted_unique_of_nothing_is_nothing() {
    assert_eq!(sorted_unique(&Vec::new()), Vec::<String>::new());
}

#[test]
fn sorted_unique_keeps_a_sorted_list() {
    let ids = strings(&["a", "b", "c"]);
    assert_eq!(sorted_unique(&ids), ids);
}

#[test]
fn sorted_unique_of_one_id_many_times() {
    let ids = strings(&["x", "x", "x", "x"]);
    assert_eq!(sorted_unique(&ids), strings(&["x"]));
}
