use audiotags::packed::{join_packed, split_packed};

#[test]
fn packed_split_then_join_reproduces_the_text() {
    let (number, total) = split_packed("3/12");
    assert_eq!(number, Some(3));
    assert_eq!(total, Some(12));
    assert_eq!(join_packed(number.unwrap(), total), "3/12");
}

#[test]
fn packed_malformed_text_yields_nothing() {
    assert_eq!(split_packed("abc"), (None, None));
    assert_eq!(split_packed(""), (None, None));
    assert_eq!(split_packed("/"), (None, None));
    assert_eq!(split_packed("/12"), (None, None));
    assert_eq!(split_packed("abc/12"), (None, None));
}

#[test]
fn packed_malformed_total_leaves_the_number() {
    assert_eq!(split_packed("3/xyz"), (Some(3), None));
    assert_eq!(split_packed("3/"), (Some(3), None));
    assert_eq!(split_packed("3/12/5"), (Some(3), None));
    assert_eq!(split_packed("3/70000"), (Some(3), None));
}

#[test]
fn packed_number_alone() {
    assert_eq!(split_packed("3"), (Some(3), None));
    assert_eq!(split_packed("65535"), (Some(65535), None));
    assert_eq!(split_packed("65536"), (None, None));
    assert_eq!(join_packed(3, None), "3");
}

#[test]
fn packed_join_then_split_gives_both_back() {
    for number in [0u16, 1, 3, 10, 99, 65535] {
        for total in [None, Some(0u16), Some(1), Some(12), Some(65535)] {
            let text = join_packed(number, total);
            assert_eq!(split_packed(&text), (Some(number), total), "{:?}", text);
        }
    }
    assert_eq!(join_packed(1, Some(1)), "1/1");
    assert_eq!(join_packed(65535, Some(0)), "65535/0");
}
