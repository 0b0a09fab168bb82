use pada::agent::stream::StreamText;

fn push_all(chunks: &[&str]) -> (String, bool) {
    let mut s = StreamText::new();
    let mut out = String::new();
    for c in chunks {
        out.push_str(&s.push(c));
    }
    (out, s.is_thinking())
}

#[test]
fn plain_text_passes_through() {
    let mut s = StreamText::new();
    assert_eq!(s.push("hello world"), "hello world");
    assert!(!s.is_thinking());
}

#[test]
fn reasoning_block_is_hidden() {
    let (out, thinking) = push_all(&["a<think>secret</think>b"]);
    assert_eq!(out, "ab");
    assert!(!thinking);
}

#[test]
fn tag_split_across_chunks_is_hidden() {
    let (out, thinking) = push_all(&["before<th", "ink>hidden</thi", "nk>after"]);
    assert_eq!(out, "beforeafter");
    assert!(!thinking);
}

#[test]
fn partial_tag_is_held_back_until_resolved() {
    let mut s = StreamText::new();
    assert_eq!(s.push("x<thi"), "x");
    assert_eq!(s.push("s is not a tag"), "<this is not a tag");
}

#[test]
fn open_reasoning_stays_hidden() {
    let (out, thinking) = push_all(&["start<think>still thinking"]);
    assert_eq!(out, "start");
    assert!(thinking);
}

#[test]
fn splitting_a_chunk_changes_nothing() {
    let text = "a<think>b</think>c<think>d</think>e";
    let (whole, t1) = push_all(&[text]);
    for cut in 0..=text.len() {
        if !text.is_char_boundary(cut) {
            continue;
        }
        let (split, t2) = push_all(&[&text[..cut], &text[cut..]]);
        assert_eq!(split, whole, "cut at {cut}");
        assert_eq!(t1, t2);
    }
    assert_eq!(whole, "ace");
}
