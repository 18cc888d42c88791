use xtb_client::TagMaker;

#[test]
fn make_series() {
    let mut maker = TagMaker::default();

    let tag = maker.next();
    assert_eq!(tag, "message_1");
    let tag = maker.next();
    assert_eq!(tag, "message_2");
    let tag = maker.next();
    assert_eq!(tag, "message_3");
}

#[test]
fn tags_are_pairwise_distinct_and_numbered() {
    let mut maker = TagMaker::new();
    let mut seen: Vec<String> = Vec::new();
    let mut i: u64 = 1;
    while i <= 100 {
        let tag = maker.next();
        assert_eq!(tag, format!("message_{}", i));
        assert!(!seen.contains(&tag));
        seen.push(tag);
        i += 1;
    }
}
