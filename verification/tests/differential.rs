use at_commands::parser::CommandParser;
use sim7020::at_command::{parse_int_pair_reply, parse_int_reply, parse_text_reply};

const ALPHABET: &[u8] = b"0123456789+-, A:\r\nOK";

struct Source(u64);

impl Source {
    fn next(&mut self) -> usize {
        self.0 = self.0.wrapping_mul(6364136223846793005).wrapping_add(1442695040888963407);
        (self.0 >> 33) as usize
    }

    /// A reply that begins with `A:` and goes on with bytes of the alphabet;
    /// no more than nine digits stand in a row, so that every number fits.
    fn reply(&mut self) -> Vec<u8> {
        let mut reply = b"A:".to_vec();
        let length = self.next() % 16;
        let mut digits = 0;
        for _ in 0..length {
            let mut byte = ALPHABET[self.next() % ALPHABET.len()];
            if byte.is_ascii_digit() {
                digits += 1;
                if digits > 9 {
                    byte = b',';
                    digits = 0;
                }
            } else {
                digits = 0;
            }
            reply.push(byte);
        }
        if self.next() % 2 == 0 {
            reply.extend_from_slice(b"\r\nOK");
        }
        reply
    }
}

fn has_sign(reply: &[u8]) -> bool {
    reply.iter().any(|byte| *byte == b'+' || *byte == b'-')
}

#[test]
fn one_integer_is_read_as_the_combinators_read_it() {
    let mut source = Source(1);
    let mut agreed = 0;
    for _ in 0..20000 {
        let reply = source.reply();
        let theirs = CommandParser::parse(&reply)
            .expect_identifier(b"A:")
            .expect_int_parameter()
            .expect_identifier(b"\r\nOK")
            .finish()
            .ok()
            .map(|fields| fields.0);
        let ours = parse_int_reply(&reply, "A:", "\r\nOK").ok();
        if ours.is_some() || !has_sign(&reply) {
            assert_eq!(ours, theirs, "reply {:?}", reply);
        }
        if ours.is_some() {
            agreed += 1;
        }
    }
    assert!(agreed > 100);
}

#[test]
fn two_integers_are_read_as_the_combinators_read_them() {
    let mut source = Source(2);
    let mut agreed = 0;
    for _ in 0..20000 {
        let reply = source.reply();
        let theirs = CommandParser::parse(&reply)
            .expect_identifier(b"A:")
            .expect_int_parameter()
            .expect_int_parameter()
            .expect_identifier(b"\r\nOK")
            .finish()
            .ok();
        let ours = parse_int_pair_reply(&reply, "A:", "\r\nOK").ok();
        if ours.is_some() || !has_sign(&reply) {
            assert_eq!(ours, theirs, "reply {:?}", reply);
        }
        if ours.is_some() {
            agreed += 1;
        }
    }
    assert!(agreed > 20);
}

#[test]
fn a_line_of_text_is_read_as_the_combinators_read_it() {
    let mut source = Source(3);
    let mut agreed = 0;
    for _ in 0..20000 {
        let reply = source.reply();
        let theirs = CommandParser::parse(&reply)
            .expect_identifier(b"A:")
            .expect_raw_string()
            .expect_identifier(b"\r\nOK")
            .finish()
            .ok()
            .map(|fields| fields.0);
        let ours = parse_text_reply(&reply, "A:", "\r\nOK").ok();
        assert_eq!(ours, theirs, "reply {:?}", reply);
        if ours.is_some() {
            agreed += 1;
        }
    }
    assert!(agreed > 1000);
}

/// The verdict of a scanner that looks at every window of six bytes in turn.
fn scan(stream: &[u8]) -> sim7020::frame::FrameStatus {
    for last in 5..stream.len().min(512) {
        let window = &stream[last - 5..=last];
        if window == b"\r\nOK\r\n" {
            return sim7020::frame::FrameStatus::Success(last - 5);
        }
        if window == b"RROR\r\n" {
            return sim7020::frame::FrameStatus::Failure(last + 1);
        }
    }
    if stream.len() > 512 {
        sim7020::frame::FrameStatus::Overflow
    } else {
        sim7020::frame::FrameStatus::Reading
    }
}

/// A stream of bytes in which terminators, whole and in part, turn up.
fn stream(source: &mut Source, pieces: usize) -> Vec<u8> {
    let parts: [&[u8]; 8] = [b"\r\nOK\r\n", b"RROR\r\n", b"\r\n", b"OK", b"+X: 1", b"E", b"\r", b"x"];
    let mut stream = Vec::new();
    for _ in 0..pieces {
        stream.extend_from_slice(parts[source.next() % parts.len()]);
    }
    stream
}

#[test]
fn framing_agrees_with_a_window_scan() {
    let mut source = Source(4);
    let mut complete = 0;
    for _ in 0..20000 {
        let pieces = source.next() % 12;
        let stream = stream(&mut source, pieces);
        let verdict = sim7020::frame::frame_of(&stream);
        assert_eq!(verdict, scan(&stream), "stream {:?}", stream);
        if verdict != sim7020::frame::FrameStatus::Reading {
            complete += 1;
        }
    }
    assert!(complete > 50);
}

#[test]
fn framing_in_pieces_agrees_with_framing_at_once() {
    let mut source = Source(5);
    for _ in 0..5000 {
        let pieces = source.next() % 12;
        let mut stream = stream(&mut source, pieces);
        if source.next() % 8 == 0 {
            let mut filler = vec![b'x'; 500 + source.next() % 20];
            filler.append(&mut stream);
            stream = filler;
        }
        let mut reader = sim7020::frame::FrameReader::new();
        let mut rest = &stream[..];
        let mut last = sim7020::frame::FrameStatus::Reading;
        while !rest.is_empty() {
            let piece = (source.next() % 9).min(rest.len());
            last = reader.feed(&rest[..piece]);
            rest = &rest[piece..];
        }
        assert_eq!(last, sim7020::frame::frame_of(&stream));
        assert_eq!(last, scan(&stream));
    }
}
