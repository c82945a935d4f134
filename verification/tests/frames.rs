use proxy_core::frames::split_frames;

#[test]
fn splits_at_newlines_and_drops_empty_frames() {
    let fs = split_frames(b"{\"id\":1}\n\n{\"id\":2}\n");
    assert_eq!(fs, vec![b"{\"id\":1}".to_vec(), b"{\"id\":2}".to_vec()]);
}

#[test]
fn the_last_frame_needs_no_newline() {
    assert_eq!(split_frames(b"abc"), vec![b"abc".to_vec()]);
    assert_eq!(split_frames(b"a\nbc"), vec![b"a".to_vec(), b"bc".to_vec()]);
}

#[test]
fn only_newlines_make_no_frame() {
    assert!(split_frames(b"").is_empty());
    assert!(split_frames(b"\n\n\n").is_empty());
}

#[test]
fn frames_joined_are_the_input_without_newlines() {
    let input = b"\nab\n\ncd\ne\n\n";
    let fs = split_frames(input);
    assert!(fs.iter().all(|f| !f.is_empty() && !f.contains(&b'\n')));
    let joined: Vec<u8> = fs.concat();
    let stripped: Vec<u8> = input.iter().copied().filter(|b| *b != b'\n').collect();
    assert_eq!(joined, stripped);
}
