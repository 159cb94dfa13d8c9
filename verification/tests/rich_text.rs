use manuscript::services::rich_text_serde::{BufferPosition, OpenedTag, RichTextSerde};

fn tag(name: &str) -> OpenedTag {
    OpenedTag { name: Some(String::from(name)), in_table: true }
}

fn plain(ch: char) -> BufferPosition {
    BufferPosition { opened: Vec::new(), closed: 0, ch }
}

#[test]
fn plain_text_serializes_to_itself() {
    let positions: Vec<BufferPosition> = "héllo".chars().map(plain).collect();
    let bytes = RichTextSerde::serialize_buffer_with_tags(&positions, 0);
    assert_eq!(&bytes[..], "héllo".as_bytes());
    let none = RichTextSerde::serialize_buffer_with_tags(&Vec::new(), 3);
    assert!(none.is_empty());
}

#[test]
fn tags_are_written_around_their_text() {
    let positions = vec![
        BufferPosition { opened: vec![tag("bold")], closed: 0, ch: 'a' },
        BufferPosition { opened: Vec::new(), closed: 1, ch: 'b' },
    ];
    let bytes = RichTextSerde::serialize_buffer_with_tags(&positions, 0);
    assert_eq!(&bytes[..], b"<bold>a</bold>b");
}

#[test]
fn tags_open_at_the_end_are_closed_last() {
    let positions = vec![
        BufferPosition { opened: vec![tag("bold"), tag("italic")], closed: 0, ch: 'x' },
        plain('y'),
    ];
    let bytes = RichTextSerde::serialize_buffer_with_tags(&positions, 2);
    assert_eq!(&bytes[..], b"<bold><italic>xy</italic></bold>");
}

#[test]
fn unknown_and_anonymous_tags_are_skipped() {
    let positions = vec![
        BufferPosition {
            opened: vec![
                tag("known"),
                OpenedTag { name: None, in_table: true },
                OpenedTag { name: Some(String::from("stray")), in_table: false },
            ],
            closed: 0,
            ch: 'a',
        },
        BufferPosition { opened: Vec::new(), closed: 3, ch: 'b' },
    ];
    let bytes = RichTextSerde::serialize_buffer_with_tags(&positions, 0);
    assert_eq!(&bytes[..], b"<known>a</known>b");
}

#[test]
fn tags_opened_and_closed_at_one_position() {
    let positions = vec![
        BufferPosition { opened: vec![tag("a")], closed: 0, ch: '1' },
        BufferPosition { opened: vec![tag("b")], closed: 1, ch: '2' },
    ];
    let bytes = RichTextSerde::serialize_buffer_with_tags(&positions, 1);
    assert_eq!(&bytes[..], b"<a>1<b></b>2</a>");
}
