use volo_example::store::Store;

fn s(x: &str) -> String {
    x.to_string()
}

#[test]
fn store_get_missing_is_none() {
    let st = Store::new();
    assert!(st.get(&s("nonexistent")).is_none());
}

#[test]
fn store_set_then_get() {
    let mut st = Store::new();
    st.set(s("a"), s("1"));
    assert_eq!(st.get(&s("a")), Some(s("1")));
    assert!(st.get(&s("b")).is_none());
}

#[test]
fn store_overwrite_keeps_last() {
    let mut st = Store::new();
    st.set(s("k"), s("v1"));
    st.set(s("k"), s("v2"));
    assert_eq!(st.get(&s("k")), Some(s("v2")));
}

#[test]
fn store_delete_counts_present_keys_once() {
    let mut st = Store::new();
    st.set(s("a"), s("1"));
    st.set(s("b"), s("2"));
    st.set(s("c"), s("3"));
    let n = st.delete(&vec![s("a"), s("x"), s("a"), s("c")]);
    assert_eq!(n, 2);
    assert!(st.get(&s("a")).is_none());
    assert!(st.get(&s("c")).is_none());
    assert_eq!(st.get(&s("b")), Some(s("2")));
}

#[test]
fn store_delete_empty_list() {
    let mut st = Store::new();
    st.set(s("a"), s("1"));
    assert_eq!(st.delete(&vec![]), 0);
    assert_eq!(st.get(&s("a")), Some(s("1")));
}

#[test]
fn store_empty_value_is_kept() {
    let mut st = Store::new();
    st.set(s("e"), s(""));
    assert_eq!(st.get(&s("e")), Some(s("")));
}

#[test]
fn store_sets_on_distinct_keys_all_observable() {
    let mut st = Store::new();
    for i in 0..50u32 {
        st.set(format!("key{}", i), format!("val{}", i));
    }
    for i in 0..50u32 {
        assert_eq!(st.get(&format!("key{}", i)), Some(format!("val{}", i)));
    }
}

#[test]
fn store_sets_on_one_key_leave_one_written_value() {
    let mut st = Store::new();
    for i in 0..20u32 {
        st.set(s("same"), format!("v{}", i));
    }
    assert_eq!(st.get(&s("same")), Some(s("v19")));
    assert_eq!(st.delete(&vec![s("same")]), 1);
}
