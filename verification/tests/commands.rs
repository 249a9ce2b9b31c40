use slcan::bitrate::Bitrate;
use slcan::codec::{Slcan, Transfer};
use slcan::error::SlcanError;

#[test]
fn bitrate_500k_is_set_by_s6() {
    let mut slcan = Slcan::new();
    assert_eq!(slcan.setup_bitrate(Bitrate::Br500Kbps), b"S6\r".to_vec());
}

#[test]
fn every_bitrate_has_its_digit() {
    let rates = [
        (Bitrate::Br10Kbps, b'0'),
        (Bitrate::Br20Kbps, b'1'),
        (Bitrate::Br50Kbps, b'2'),
        (Bitrate::Br100Kbps, b'3'),
        (Bitrate::Br125Kbps, b'4'),
        (Bitrate::Br250Kbps, b'5'),
        (Bitrate::Br500Kbps, b'6'),
        (Bitrate::Br800Kbps, b'7'),
        (Bitrate::Br1000Kbps, b'8'),
    ];
    let mut slcan = Slcan::new();
    for (rate, digit) in rates {
        assert_eq!(rate.code(), digit);
        assert_eq!(slcan.setup_bitrate(rate), vec![b'S', digit, b'\r']);
    }
}

#[test]
fn open_and_close_are_single_letters() {
    let mut slcan = Slcan::new();
    assert_eq!(slcan.open(), b"O\r".to_vec());
    assert_eq!(slcan.close(), b"C\r".to_vec());
}

#[test]
fn timestamp_switch_is_z1_or_z0() {
    let mut slcan = Slcan::new();
    assert_eq!(slcan.set_timestamp(true), b"Z1\r".to_vec());
    assert_eq!(slcan.set_timestamp(false), b"Z0\r".to_vec());
}

#[test]
fn acceptance_mask_is_eight_hex_digits() {
    let mut slcan = Slcan::new();
    assert_eq!(slcan.set_acceptance_mask(0x0000_07FF), b"M000007FF\r".to_vec());
    assert_eq!(slcan.set_acceptance_mask(0), b"M00000000\r".to_vec());
    assert_eq!(slcan.set_acceptance_mask(u32::MAX), b"MFFFFFFFF\r".to_vec());
    assert_eq!(slcan.set_acceptance_mask(0x1234_5678), b"M12345678\r".to_vec());
}

#[test]
fn acceptance_id_is_eight_hex_digits() {
    let mut slcan = Slcan::new();
    assert_eq!(slcan.set_acceptance_id(0x001A_BCDE), b"m001ABCDE\r".to_vec());
    assert_eq!(slcan.set_acceptance_id(0), b"m00000000\r".to_vec());
    assert_eq!(slcan.set_acceptance_id(0x9ABC_DEF0), b"m9ABCDEF0\r".to_vec());
}

#[test]
fn every_command_ends_in_one_carriage_return() {
    let mut slcan = Slcan::new();
    let lines = vec![
        slcan.setup_bitrate(Bitrate::Br125Kbps),
        slcan.open(),
        slcan.close(),
        slcan.set_timestamp(true),
        slcan.set_acceptance_mask(0xDEAD_BEEF),
        slcan.set_acceptance_id(0x0D0D_0D0D),
    ];
    for line in lines {
        assert_eq!(line.last(), Some(&b'\r'));
        assert_eq!(line.iter().filter(|b| **b == b'\r').count(), 1);
    }
}

#[test]
fn acknowledgement_is_a_trailing_carriage_return() {
    let mut slcan = Slcan::new();
    assert_eq!(slcan.exec_command(&Transfer::Received(b"\r".to_vec())), Ok(()));
    assert_eq!(slcan.exec_command(&Transfer::Received(b"z\r".to_vec())), Ok(()));
    assert_eq!(slcan.exec_command(&Transfer::Received(b"anything at all\r".to_vec())), Ok(()));
}

#[test]
fn no_answer_times_out() {
    let mut slcan = Slcan::new();
    assert_eq!(slcan.exec_command(&Transfer::Received(vec![])), Err(SlcanError::TimedOut));
}

#[test]
fn answer_without_terminator_times_out() {
    let mut slcan = Slcan::new();
    assert_eq!(slcan.exec_command(&Transfer::Received(vec![0x07])), Err(SlcanError::TimedOut));
    assert_eq!(slcan.exec_command(&Transfer::Received(b"\rz".to_vec())), Err(SlcanError::TimedOut));
    assert_eq!(slcan.exec_command(&Transfer::Received(b"\r\n".to_vec())), Err(SlcanError::TimedOut));
}

#[test]
fn full_buffer_without_terminator_times_out() {
    let mut slcan = Slcan::new();
    assert_eq!(slcan.exec_command(&Transfer::Received(vec![b'x'; 32])), Err(SlcanError::TimedOut));
    assert_eq!(slcan.last_received(), vec![b'x'; 32]);
    let mut interior = vec![b'x'; 32];
    interior[10] = b'\r';
    assert_eq!(slcan.exec_command(&Transfer::Received(interior)), Err(SlcanError::TimedOut));
}

#[test]
fn full_buffer_with_terminator_is_acknowledged() {
    let mut slcan = Slcan::new();
    let mut answer = vec![b'x'; 32];
    answer[31] = b'\r';
    assert_eq!(slcan.exec_command(&Transfer::Received(answer)), Ok(()));
}

#[test]
fn only_the_first_32_bytes_are_received() {
    let mut slcan = Slcan::new();
    let mut long = vec![b'x'; 40];
    long[39] = b'\r';
    assert_eq!(slcan.exec_command(&Transfer::Received(long.clone())), Err(SlcanError::TimedOut));
    assert_eq!(slcan.last_received(), long[..32].to_vec());
    let mut cut = vec![b'x'; 40];
    cut[31] = b'\r';
    assert_eq!(slcan.exec_command(&Transfer::Received(cut.clone())), Ok(()));
    assert_eq!(slcan.last_received(), cut[..32].to_vec());
}

#[test]
fn failed_transfer_is_an_io_error() {
    let mut slcan = Slcan::new();
    assert_eq!(slcan.exec_command(&Transfer::Failed), Err(SlcanError::Io));
    assert_eq!(slcan.last_received(), Vec::<u8>::new());
}

#[test]
fn receive_buffer_keeps_only_the_last_exchange() {
    let mut slcan = Slcan::new();
    assert_eq!(slcan.last_received(), Vec::<u8>::new());
    assert_eq!(slcan.exec_command(&Transfer::Received(b"first answer\r".to_vec())), Ok(()));
    assert_eq!(slcan.last_received(), b"first answer\r".to_vec());
    assert_eq!(slcan.exec_command(&Transfer::Received(b"2nd\r".to_vec())), Ok(()));
    assert_eq!(slcan.last_received(), b"2nd\r".to_vec());
    // A shorter answer must not be judged by what a longer one left behind.
    assert_eq!(slcan.exec_command(&Transfer::Received(b"2n".to_vec())), Err(SlcanError::TimedOut));
    assert_eq!(slcan.last_received(), b"2n".to_vec());
}

#[test]
fn starting_a_command_empties_the_receive_buffer() {
    let mut slcan = Slcan::new();
    assert_eq!(slcan.exec_command(&Transfer::Received(b"\r".to_vec())), Ok(()));
    assert_eq!(slcan.last_received(), b"\r".to_vec());
    slcan.open();
    assert_eq!(slcan.last_received(), Vec::<u8>::new());
    assert_eq!(slcan.exec_command(&Transfer::Received(b"\r".to_vec())), Ok(()));
    slcan.setup_bitrate(Bitrate::Br10Kbps);
    assert_eq!(slcan.last_received(), Vec::<u8>::new());
    assert_eq!(slcan.exec_command(&Transfer::Failed), Err(SlcanError::Io));
    assert_eq!(slcan.last_received(), Vec::<u8>::new());
}
