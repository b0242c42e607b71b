use ferrite::channel::{FrameProbe, FrameStep, MsgReadError, MsgReader, MsgWriter};

// A small schema for the tests: tag byte 0 is an empty message, 1 carries an
// i32, 2 carries a u16 count followed by that many i32 values (little endian).
fn probe(bytes: &[u8]) -> FrameProbe {
    if bytes.is_empty() {
        return FrameProbe::Incomplete;
    }
    let need = match bytes[0] {
        0 => 1,
        1 => 5,
        2 => {
            if bytes.len() < 3 {
                return FrameProbe::Incomplete;
            }
            3 + 4 * u16::from_le_bytes([bytes[1], bytes[2]]) as usize
        }
        _ => return FrameProbe::Invalid,
    };
    if bytes.len() >= need {
        FrameProbe::Complete(need)
    } else {
        FrameProbe::Incomplete
    }
}

fn lay_out(writer: &mut MsgWriter, msg: &[u8]) -> Vec<u8> {
    let buf = writer.buffer_mut();
    buf[..msg.len()].copy_from_slice(msg);
    writer.frame(msg.len()).unwrap()
}

fn read_msg(reader: &mut MsgReader, stream: &mut Vec<u8>, ring: usize) -> Result<Vec<u8>, MsgReadError> {
    loop {
        match reader.next_frame(probe(reader.buffer())) {
            FrameStep::Frame(m) => return Ok(m),
            FrameStep::Failed(e) => return Err(e),
            FrameStep::NeedMore => {
                if stream.is_empty() {
                    reader.set_eof();
                } else {
                    let n = ring.min(stream.len());
                    let chunk: Vec<u8> = stream.drain(..n).collect();
                    reader.push_bytes(&chunk);
                }
            }
        }
    }
}

#[test]
fn test() {
    const MAX_SIZE: usize = 32;
    let mut writer = MsgWriter::new(MAX_SIZE);
    let mut stream = Vec::new();
    stream.extend(lay_out(&mut writer, &[0]));
    let mut b = vec![1u8];
    b.extend_from_slice(&123456i32.to_le_bytes());
    stream.extend(lay_out(&mut writer, &b));
    let mut c = vec![2u8];
    c.extend_from_slice(&7u16.to_le_bytes());
    for x in 0..7i32 {
        c.extend_from_slice(&x.to_le_bytes());
    }
    stream.extend(lay_out(&mut writer, &c));

    let mut reader = MsgReader::new(MAX_SIZE);
    let first = read_msg(&mut reader, &mut stream, 17).unwrap();
    assert_eq!(first, vec![0]);
    let second = read_msg(&mut reader, &mut stream, 17).unwrap();
    assert_eq!(second[0], 1);
    assert_eq!(i32::from_le_bytes([second[1], second[2], second[3], second[4]]), 123456);
    let third = read_msg(&mut reader, &mut stream, 17).unwrap();
    assert_eq!(third[0], 2);
    let vn: Vec<i32> = third[3..]
        .chunks(4)
        .map(|q| i32::from_le_bytes([q[0], q[1], q[2], q[3]]))
        .collect();
    assert_eq!(&vn, &[0, 1, 2, 3, 4, 5, 6]);
    assert_eq!(read_msg(&mut reader, &mut stream, 17), Err(MsgReadError::Eof));
}

#[test]
fn truncated_and_invalid_frames() {
    let mut reader = MsgReader::new(8);
    reader.push_bytes(&[1, 2, 3]);
    reader.set_eof();
    assert!(matches!(reader.next_frame(FrameProbe::Incomplete), FrameStep::Failed(MsgReadError::Truncated)));
    assert!(matches!(reader.next_frame(FrameProbe::Invalid), FrameStep::Failed(MsgReadError::Invalid)));
    assert!(matches!(reader.next_frame(FrameProbe::Complete(4)), FrameStep::Failed(MsgReadError::Invalid)));
    assert!(matches!(reader.next_frame(FrameProbe::Complete(0)), FrameStep::Failed(MsgReadError::Invalid)));
    assert_eq!(reader.buffer(), &vec![1, 2, 3]);

    let mut big = MsgReader::new(2);
    big.push_bytes(&[2, 9]);
    assert!(matches!(big.next_frame(FrameProbe::Incomplete), FrameStep::Failed(MsgReadError::Invalid)));

    let mut open = MsgReader::new(8);
    assert!(matches!(open.next_frame(FrameProbe::Incomplete), FrameStep::NeedMore));
    open.push_bytes(&[0, 0, 5]);
    match open.next_frame(FrameProbe::Complete(1)) {
        FrameStep::Frame(m) => assert_eq!(m, vec![0]),
        _ => panic!("expected a frame"),
    }
    assert_eq!(open.buffer(), &vec![0, 5]);
}

#[test]
fn writer_frames_and_clones() {
    let mut w = MsgWriter::new(4);
    assert_eq!(w.max_msg_size(), 4);
    assert!(w.frame(0).is_none());
    assert!(w.frame(5).is_none());
    w.buffer_mut()[0] = 7;
    assert_eq!(w.frame(2).unwrap(), vec![7, 0]);
    let c = w.clone_writer();
    assert_eq!(c.max_msg_size(), 4);
    assert_eq!(c.frame(1).unwrap(), vec![0]);
}
