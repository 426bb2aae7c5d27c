use esp8266::classify::classify_line;
use esp8266::commands::AT_response;
use esp8266::framer::{Framer, FramerStep, LINE_CAPACITY};

/// Feeds a byte string and collects everything the framer hands back.
fn feed(framer: &mut Framer, bytes: &[u8]) -> Vec<FramerStep> {
    let mut out = Vec::new();
    for &b in bytes {
        match framer.push_byte(b) {
            FramerStep::Pending => {}
            step => out.push(step),
        }
    }
    out
}

#[test]
fn frames_a_simple_line() {
    let mut framer = Framer::new();
    let steps = feed(&mut framer, b"OK\r\n");
    assert_eq!(steps.len(), 1);
    match &steps[0] {
        FramerStep::Line(line) => assert_eq!(line, &b"OK".to_vec()),
        _ => panic!("expected a line"),
    }
}

#[test]
fn extracts_an_unsolicited_data_frame() {
    // the declared five payload bytes come out exactly, and the header
    // classifies as the incoming-data marker
    let mut framer = Framer::new();
    let steps = feed(&mut framer, b"+IPD,5:HELLO\r\n");
    assert_eq!(steps.len(), 1);
    match &steps[0] {
        FramerStep::Frame { len, data } => {
            assert_eq!(*len, 5);
            assert_eq!(data, &b"HELLO".to_vec());
        }
        _ => panic!("expected a data frame"),
    }
    assert_eq!(classify_line(b"+IPD,5:HELLO"), AT_response::IPD);
}

#[test]
fn payload_bytes_are_exempt_from_line_scanning() {
    // a terminator pair inside the declared payload is payload, not a
    // boundary
    let mut framer = Framer::new();
    let steps = feed(&mut framer, b"+IPD,6:AB\r\nCD");
    assert_eq!(steps.len(), 1);
    match &steps[0] {
        FramerStep::Frame { len, data } => {
            assert_eq!(*len, 6);
            assert_eq!(data, &b"AB\r\nCD".to_vec());
        }
        _ => panic!("expected a data frame"),
    }
}

#[test]
fn a_lone_carriage_return_is_not_a_boundary() {
    // the byte after a lone carriage return is preserved into the line
    let mut framer = Framer::new();
    let steps = feed(&mut framer, b"A\rB\r\n");
    assert_eq!(steps.len(), 1);
    match &steps[0] {
        FramerStep::Line(line) => assert_eq!(line, &b"AB".to_vec()),
        _ => panic!("expected a line"),
    }
}

#[test]
fn empty_lines_and_leading_zero_bytes_are_skipped() {
    let mut framer = Framer::new();
    let steps = feed(&mut framer, b"\0\0\r\nready\r\n");
    assert_eq!(steps.len(), 1);
    match &steps[0] {
        FramerStep::Line(line) => assert_eq!(line, &b"ready".to_vec()),
        _ => panic!("expected a line"),
    }
}

#[test]
fn a_full_buffer_ends_the_line_early() {
    let mut framer = Framer::new();
    let long = vec![b'x'; LINE_CAPACITY + 6];
    let mut steps = feed(&mut framer, &long);
    // the bytes that fill the buffer come out as one line; the rest keeps
    // accumulating
    assert_eq!(steps.len(), 1);
    match steps.remove(0) {
        FramerStep::Line(line) => assert_eq!(line, vec![b'x'; LINE_CAPACITY]),
        _ => panic!("expected a line"),
    }
    let steps = feed(&mut framer, b"\r\n");
    assert_eq!(steps.len(), 1);
    match &steps[0] {
        FramerStep::Line(line) => assert_eq!(line, &vec![b'x'; 6]),
        _ => panic!("expected a line"),
    }
}

#[test]
fn a_malformed_header_falls_back_to_text() {
    // no digits before the colon: not a frame, just a line
    let mut framer = Framer::new();
    let steps = feed(&mut framer, b"+IPD,x:4\r\n");
    assert_eq!(steps.len(), 1);
    match &steps[0] {
        FramerStep::Line(line) => assert_eq!(line, &b"+IPD,x:4".to_vec()),
        _ => panic!("expected a line"),
    }
}

#[test]
fn an_oversized_length_falls_back_to_text() {
    // 100 exceeds the payload capacity: the header is not a deliverable
    // frame and stays text
    let mut framer = Framer::new();
    let steps = feed(&mut framer, b"+IPD,100:\r\n");
    assert_eq!(steps.len(), 1);
    match &steps[0] {
        FramerStep::Line(line) => assert_eq!(line, &b"+IPD,100:".to_vec()),
        _ => panic!("expected a line"),
    }
}

#[test]
fn a_header_without_a_colon_is_a_plain_line() {
    let mut framer = Framer::new();
    let steps = feed(&mut framer, b"+IPD,12\r\n");
    assert_eq!(steps.len(), 1);
    match &steps[0] {
        FramerStep::Line(line) => assert_eq!(line, &b"+IPD,12".to_vec()),
        _ => panic!("expected a line"),
    }
}

#[test]
fn lines_after_a_frame_are_framed_normally() {
    let mut framer = Framer::new();
    let steps = feed(&mut framer, b"+IPD,2:ab\r\nOK\r\n");
    assert_eq!(steps.len(), 2);
    match &steps[0] {
        FramerStep::Frame { len, data } => {
            assert_eq!(*len, 2);
            assert_eq!(data, &b"ab".to_vec());
        }
        _ => panic!("expected a data frame"),
    }
    match &steps[1] {
        FramerStep::Line(line) => assert_eq!(line, &b"OK".to_vec()),
        _ => panic!("expected a line"),
    }
}
