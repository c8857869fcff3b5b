use gb_mmo::wire::{frame_line, split_line};

#[test]
fn framed_line_reads_back() {
    let payload = br#"{"Chat":[0,""]}"#.to_vec();
    let mut buf = frame_line(&payload);
    assert_eq!(buf.last(), Some(&b'\n'));
    buf.extend_from_slice(b"\"UpdateRequest\"");
    let (line, rest) = split_line(&buf).unwrap();
    assert_eq!(line, payload);
    assert_eq!(rest, b"\"UpdateRequest\"".to_vec());
    assert_eq!(split_line(&rest), None);
}

#[test]
fn empty_line_is_a_message() {
    let buf = frame_line(&vec![]);
    assert_eq!(buf, vec![b'\n']);
    assert_eq!(split_line(&buf), Some((vec![], vec![])));
}

#[test]
fn incomplete_line_waits() {
    assert_eq!(split_line(&b"{\"PlayerJoin\":3".to_vec()), None);
    assert_eq!(split_line(&vec![]), None);
}
