use joblog::lines::read_lines;
use std::io::BufRead;

fn std_lines(log: &[u8]) -> Vec<String> {
    let mut lines = Vec::new();
    for line in std::io::BufReader::new(log).lines() {
        match line {
            Ok(line) => lines.push(line),
            Err(_) => break,
        }
    }
    lines
}

#[test]
fn empty_log_has_no_line() {
    assert_eq!(read_lines(b""), Vec::<String>::new());
}

#[test]
fn lines_end_at_line_feeds() {
    assert_eq!(read_lines(b"a\nb\n"), vec!["a".to_string(), "b".to_string()]);
    assert_eq!(read_lines(b"\n\n"), vec!["".to_string(), "".to_string()]);
}

#[test]
fn last_line_needs_no_line_feed() {
    assert_eq!(read_lines(b"a\nb"), vec!["a".to_string(), "b".to_string()]);
    assert_eq!(read_lines(b"a"), vec!["a".to_string()]);
}

#[test]
fn carriage_return_before_line_feed_is_dropped() {
    assert_eq!(read_lines(b"a\r\nb\r\n"), vec!["a".to_string(), "b".to_string()]);
    assert_eq!(read_lines(b"\r\n"), vec!["".to_string()]);
}

#[test]
fn other_carriage_returns_stay() {
    assert_eq!(read_lines(b"a\r\r\nb\rc\n"), vec!["a\r".to_string(), "b\rc".to_string()]);
    assert_eq!(read_lines(b"a\r"), vec!["a\r".to_string()]);
    assert_eq!(read_lines(b"\r"), vec!["\r".to_string()]);
}

#[test]
fn bytes_are_decoded_as_utf8() {
    assert_eq!(
        read_lines("é日\n𝄞\n".as_bytes()),
        vec!["é日".to_string(), "𝄞".to_string()]
    );
}

#[test]
fn reading_stops_at_a_line_that_is_not_utf8() {
    assert_eq!(read_lines(b"a\n\xff\nb\n"), vec!["a".to_string()]);
    assert_eq!(read_lines(b"\xc3\n"), Vec::<String>::new());
    assert_eq!(read_lines(b"a\nb\xed\xa0\x80"), vec!["a".to_string()]);
    assert_eq!(read_lines(b"ok\n\xc0\xaf\n"), vec!["ok".to_string()]);
}

#[test]
fn lines_agree_with_the_standard_library() {
    let logs: [&[u8]; 12] = [
        b"",
        b"a",
        b"a\n",
        b"a\r\n",
        b"a\r",
        b"\r\n\r\n",
        b"a\n\nb",
        b"a\r\r\n",
        b"x\n\xfe\ny",
        b"x\n\xe2\x82\n",
        b"section_start:0:a[collapsed=true]\r\nhidden line\r\nsection_end:0:a\r\nvisible line\r\n",
        "é\r\n日本\n".as_bytes(),
    ];
    for log in logs {
        assert_eq!(read_lines(log), std_lines(log));
    }
}
