use sequoia::email::Tags;

fn strings(v: &[&str]) -> Vec<String> {
    v.iter().map(|s| s.to_string()).collect()
}

#[test]
fn tags_reject_the_separator() {
    assert!(Tags::new(strings(&["a", "b"])).is_ok());
    assert!(Tags::new(strings(&["a", "b$c"])).is_err());
    assert!(Tags::new(strings(&["$"])).is_err());
    assert!(Tags::new(strings(&[])).is_ok());
    assert!(Tags::new(strings(&[""])).is_ok());
}

#[test]
fn push_returns_a_bad_tag_unchanged() {
    let mut tags = Tags::new(strings(&["a"])).unwrap();
    assert!(tags.push("b".to_string()).is_ok());
    assert_eq!(tags.push("c$d".to_string()), Err("c$d".to_string()));
    assert_eq!(tags.into_vec(), strings(&["a", "b"]));
}

#[test]
fn remove_takes_out_the_first_occurrence_only() {
    let mut tags = Tags::new(strings(&["a", "b", "a", "c"])).unwrap();
    assert!(tags.remove("a"));
    assert_eq!(tags.into_vec(), strings(&["b", "a", "c"]));

    let mut tags = Tags::new(strings(&["a", "b"])).unwrap();
    assert!(!tags.remove("z"));
    assert_eq!(tags.into_vec(), strings(&["a", "b"]));
}

#[test]
fn encode_joins_with_the_separator() {
    let tags = Tags::new(strings(&["JE", "MRI", "ff"])).unwrap();
    assert_eq!(tags.encode(), "JE$MRI$ff");
    let tags = Tags::new(strings(&["solo"])).unwrap();
    assert_eq!(tags.encode(), "solo");
    let tags = Tags::new(strings(&[])).unwrap();
    assert_eq!(tags.encode(), "");
}

#[test]
fn decode_splits_at_every_separator() {
    assert_eq!(Tags::decode("JE$MRI$ff").into_vec(), strings(&["JE", "MRI", "ff"]));
    assert_eq!(Tags::decode("solo").into_vec(), strings(&["solo"]));
    assert_eq!(Tags::decode("").into_vec(), strings(&[""]));
    assert_eq!(Tags::decode("a$").into_vec(), strings(&["a", ""]));
    assert_eq!(Tags::decode("$a").into_vec(), strings(&["", "a"]));
    assert_eq!(Tags::decode("$$").into_vec(), strings(&["", "", ""]));
}

#[test]
fn decode_inverts_encode_on_non_empty_lists() {
    let cases: Vec<Vec<String>> = vec![
        strings(&["a"]),
        strings(&["a", "b", "c"]),
        strings(&["", "x", ""]),
        strings(&["JE", "MRI", "ff"]),
        strings(&["with space", "punct!,;", "unicode é✓"]),
    ];
    for tags in cases {
        let encoded = Tags::new(tags.clone()).unwrap().encode();
        assert_eq!(Tags::decode(&encoded).into_vec(), tags);
    }
}
