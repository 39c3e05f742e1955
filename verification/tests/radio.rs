use dk::packet::{CAPACITY, CRC_LEN, FRAME_LEN};
use dk::radio::{get_id, Listening, Pause, RadioError, Replied, Resumed};
use dk::send_recv;
use nrf52840_hal::ieee802154::Packet;

const WORD0: u32 = 0x0102_0304;
const WORD1: u32 = 0x0506_0708;
const ID: [u8; 6] = [1, 2, 3, 4, 5, 6];

fn request() -> Pause<'static> {
    send_recv(WORD0, WORD1, b"ping", 2_000)
}

fn resumed<'d>(pause: Pause<'d>, packet: &mut Packet) -> Listening<'d> {
    match pause.resume(packet) {
        Resumed::Try(listening) => listening,
        Resumed::GiveUp(error) => panic!("{:?}", error),
    }
}

fn received(payload: &[u8]) -> Packet {
    let mut packet = Packet::new();
    packet.copy_from_slice(payload);
    packet
}

fn answer(payload: &[u8]) -> Option<Vec<u8>> {
    let mut packet = Packet::new();
    let listening = resumed(request(), &mut packet);
    let packet = received(payload);
    match listening.reply(&packet, Ok(0xbeef)) {
        Replied::Payload(rest) => Some(rest.to_vec()),
        Replied::Retry(_) => None,
    }
}

#[test]
fn sizes_are_those_of_the_driver() {
    assert_eq!(CAPACITY, Packet::CAPACITY);
    assert_eq!(FRAME_LEN, 1 + CAPACITY + CRC_LEN);
    assert_eq!(std::mem::size_of::<Packet>(), usize::from(FRAME_LEN));
}

#[test]
fn id_is_big_endian() {
    assert_eq!(get_id(WORD0, WORD1), ID);
    assert_eq!(get_id(0xffff_ffff, 0), [0xff, 0xff, 0xff, 0xff, 0, 0]);
    assert_eq!(get_id(0, 0xabcd_0000), [0, 0, 0, 0, 0xab, 0xcd]);
}

#[test]
fn id_tells_devices_apart() {
    assert_ne!(get_id(1, 0), get_id(2, 0));
    assert_ne!(get_id(0, 0x1_0000), get_id(0, 0x2_0000));
}

#[test]
fn exchange_begins_with_a_short_pause() {
    assert_eq!(request().micros(), 5_000);
}

#[test]
fn request_is_the_address_and_the_data() {
    let mut packet = Packet::new();
    let listening = resumed(request(), &mut packet);
    assert_eq!(&packet[..], &[1, 2, 3, 4, 5, 6, b'p', b'i', b'n', b'g'][..]);
    assert_eq!(packet.len(), 10);
    assert_eq!(listening.microseconds(), 2_000);
}

#[test]
fn request_replaces_what_the_packet_held() {
    let mut packet = received(&[0xee; 125]);
    resumed(request(), &mut packet);
    assert_eq!(&packet[..], &[1, 2, 3, 4, 5, 6, b'p', b'i', b'n', b'g'][..]);
    // the rest of the buffer is left alone
    packet.set_len(125);
    assert_eq!(&packet[10..], &[0xee; 115][..]);
}

#[test]
fn request_without_data_and_with_the_most_data() {
    let mut packet = Packet::new();
    resumed(send_recv(WORD0, WORD1, &[], 1), &mut packet);
    assert_eq!(&packet[..], &ID[..]);
    let data = [9u8; 118];
    resumed(send_recv(WORD0, WORD1, &data, 1), &mut packet);
    assert_eq!(packet.len(), 124);
    assert_eq!(&packet[..6], &ID[..]);
    assert_eq!(&packet[6..], &data[..]);
}

#[test]
fn addressed_answer_is_taken() {
    assert_eq!(answer(&[1, 2, 3, 4, 5, 6, 42, 43]), Some(vec![42, 43]));
    assert_eq!(answer(&ID), Some(vec![]));
    assert_eq!(answer(&[1, 2, 3, 4, 5, 6, b'p', b'i', b'n', b'g']), Some(b"ping".to_vec()));
}

#[test]
fn answer_to_another_device_is_refused() {
    assert_eq!(answer(&[1, 2, 3, 4, 5, 7, 42, 43]), None);
    assert_eq!(answer(&[0, 2, 3, 4, 5, 6, 42, 43]), None);
}

#[test]
fn answer_too_short_for_an_address_is_refused() {
    assert_eq!(answer(&[1, 2, 3, 4, 5]), None);
    assert_eq!(answer(&[]), None);
}

#[test]
fn payload_alone_is_judged_alike() {
    let mut packet = Packet::new();
    match resumed(request(), &mut packet).accept(&[1, 2, 3, 4, 5, 6, 7]) {
        Replied::Payload(rest) => assert_eq!(rest, &[7][..]),
        Replied::Retry(_) => panic!(),
    }
    match resumed(request(), &mut packet).accept(&[6, 5, 4, 3, 2, 1, 7]) {
        Replied::Payload(_) => panic!(),
        Replied::Retry(pause) => assert_eq!(pause.micros(), 10_000),
    }
}

#[test]
fn failed_receptions_lead_to_a_retry_whatever_the_packet_holds() {
    for error in [RadioError::Timeout, RadioError::Crc(0x1234)] {
        let mut packet = Packet::new();
        // the packet still holds the request, address and all
        let listening = resumed(request(), &mut packet);
        match listening.reply(&packet, Err(error)) {
            Replied::Payload(_) => panic!(),
            Replied::Retry(pause) => assert_eq!(pause.micros(), 10_000),
        }
    }
}

#[test]
fn unanswered_exchange_is_given_up_after_ten_tries() {
    let mut packet = Packet::new();
    let mut pause = request();
    let mut pauses = vec![];
    let mut sent = vec![];
    let error = loop {
        pauses.push(pause.micros());
        match pause.resume(&mut packet) {
            Resumed::Try(listening) => {
                sent.push(packet.to_vec());
                let result = match sent.len() % 3 {
                    0 => Err(RadioError::Timeout),
                    1 => Err(RadioError::Crc(7)),
                    _ => Ok(7),
                };
                packet.copy_from_slice(&[9; 20]);
                pause = match listening.reply(&packet, result) {
                    Replied::Payload(_) => panic!(),
                    Replied::Retry(pause) => pause,
                };
            }
            Resumed::GiveUp(error) => break error,
        }
    };
    assert_eq!(error, RadioError::Timeout);
    assert_eq!(sent, vec![[1, 2, 3, 4, 5, 6, b'p', b'i', b'n', b'g'].to_vec(); 10]);
    let mut expected = vec![10_000; 11];
    expected[0] = 5_000;
    assert_eq!(pauses, expected);
    // giving up leaves the packet alone
    assert_eq!(&packet[..], &[9; 20][..]);
}

#[test]
fn answer_on_the_last_try_is_taken() {
    let mut packet = Packet::new();
    let mut pause = request();
    for _ in 0..9 {
        pause = resumed(pause, &mut packet).retry();
    }
    let listening = resumed(pause, &mut packet);
    match listening.reply(&received(&[1, 2, 3, 4, 5, 6, 1]), Ok(0)) {
        Replied::Payload(rest) => assert_eq!(rest, &[1][..]),
        Replied::Retry(_) => panic!(),
    }
}

#[test]
fn longest_payload_is_taken() {
    // a payload as long as software can make one
    let mut payload = [3u8; 125];
    payload[..6].copy_from_slice(&ID);
    assert_eq!(answer(&payload), Some(vec![3; 119]));
}
