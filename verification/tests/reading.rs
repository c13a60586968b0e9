use serial_packet::{Packet, PacketError};

#[test]
fn read_bytes_takes_each_field_from_its_place() {
    let packet = Packet::read_bytes(&[0xAA, 0x55, 0x10, 4, 9, 8, 7, 6, 0x3C, 0x35])
        .expect("a whole frame");
    assert_eq!(packet.sync, 0x55AA);
    assert_eq!(packet.command, 0x10);
    assert_eq!(packet.length, 4);
    assert_eq!(packet.checksum, 0x353C);
    let buffer = packet.payload.expect("a read packet has its buffer");
    assert_eq!(&buffer[..4], &[9, 8, 7, 6]);
    assert!(buffer[4..].iter().all(|byte| *byte == 0));
    assert!(packet.validate().is_ok());
}

#[test]
fn read_bytes_does_not_judge_the_checksum() {
    let packet = Packet::read_bytes(&[0xAA, 0x55, 7, 2, 9, 8, 0x34, 0x12]).expect("a whole frame");
    assert_eq!(packet.command, 7);
    assert_eq!(packet.length, 2);
    assert_eq!(packet.checksum, 0x1234);
    assert!(packet.validate().is_err());
}

#[test]
fn read_bytes_ignores_what_follows_the_frame() {
    let packet = Packet::read_bytes(&[0xAA, 0x55, 7, 3, 1, 0, 3, 0xB9, 0x4A, 0xAA, 0x55, 0xFF])
        .expect("a whole frame and more");
    assert_eq!(packet.length, 3);
    assert_eq!(packet.checksum, 0x4AB9);
    let buffer = packet.payload.expect("a read packet has its buffer");
    assert_eq!(&buffer[..3], &[1, 0, 3]);
    assert!(buffer[3..].iter().all(|byte| *byte == 0));
    assert!(packet.validate().is_ok());
}

#[test]
fn read_bytes_reads_an_empty_frame() {
    let packet = Packet::read_bytes(&[0xAA, 0x55, 0x08, 0x00, 0x36, 0x2C]).expect("a whole frame");
    assert_eq!(packet.command, 8);
    assert_eq!(packet.length, 0);
    assert_eq!(packet.payload, Some([0u8; 255]));
    assert_eq!(packet.checksum, 0x2C36);
    assert!(packet.validate().is_ok());
}

#[test]
fn read_bytes_refuses_a_wrong_sync_marker() {
    let wrong_low = [0xAB, 0x55, 0x08, 0x00, 0x36, 0x2C];
    let wrong_high = [0xAA, 0x54, 0x08, 0x00, 0x36, 0x2C];
    let swapped = [0x55, 0xAA, 0x08, 0x00, 0x36, 0x2C];
    assert_eq!(Packet::read_bytes(&wrong_low).err(), Some(PacketError::Framing));
    assert_eq!(Packet::read_bytes(&wrong_high).err(), Some(PacketError::Framing));
    assert_eq!(Packet::read_bytes(&swapped).err(), Some(PacketError::Framing));
}

#[test]
fn read_bytes_refuses_a_frame_cut_short() {
    let frame = [0xAA, 0x55, 0x10, 4, 9, 8, 7, 6, 0x3C, 0x35];
    for size in 0..frame.len() {
        assert_eq!(Packet::read_bytes(&frame[..size]).err(), Some(PacketError::Framing));
    }
    assert!(Packet::read_bytes(&frame).is_ok());
}

#[test]
fn read_bytes_reads_the_largest_frame() {
    let sent = Packet::from(5, Some(&[0xFF; 255]));
    let mut wire = [0u8; 261];
    assert_eq!(sent.write_bytes(&mut wire), 261);
    assert_eq!(Packet::read_bytes(&wire[..260]).err(), Some(PacketError::Framing));
    let read = Packet::read_bytes(&wire).expect("a whole frame");
    assert_eq!(read.length, 255);
    assert_eq!(read.payload, Some([0xFF; 255]));
    assert_eq!(read.checksum, 0xE7A3);
}

#[test]
fn reading_gives_back_what_writing_put_down() {
    let source: Vec<u8> = (0..255u32).map(|i| (i * 13 + 5) as u8).collect();
    for count in 0..=255usize {
        let sent = Packet::from(count as u8, Some(&source[..count]));
        let mut wire = [0x99u8; 300];
        let written = sent.write_bytes(&mut wire) as usize;
        let read = Packet::read_bytes(&wire).expect("a written frame reads back");
        assert_eq!(read.sync, sent.sync);
        assert_eq!(read.command, sent.command);
        assert_eq!(read.length, sent.length);
        assert_eq!(read.payload, sent.payload);
        assert_eq!(read.checksum, sent.checksum);
        assert!(read.validate().is_ok());
        let mut again = [0x99u8; 300];
        assert_eq!(read.write_bytes(&mut again) as usize, written);
        assert_eq!(again, wire);
    }
}

#[test]
fn a_flipped_bit_on_the_wire_is_found_after_reading() {
    let sent = Packet::from(0x10, Some(&[9, 8, 7, 6]));
    let mut wire = [0u8; 10];
    assert_eq!(sent.write_bytes(&mut wire), 10);
    for place in 2..10usize {
        if place == 3 {
            continue;
        }
        for bit in 0..8 {
            let mut damaged = wire;
            damaged[place] ^= 1 << bit;
            let read = Packet::read_bytes(&damaged).expect("the frame is still whole");
            assert!(read.validate().is_err());
        }
    }
}
