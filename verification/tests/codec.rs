use soltick_solana::instruction::decode_instruction;
use soltick_solana::instruction::encode_instruction;
use soltick_solana::state::decode_event;
use soltick_solana::state::encode_event;
use soltick_solana::state::EVENT_SPAN;
use soltick_solana::EventAccount;
use soltick_solana::EventError;
use soltick_solana::EventInstruction;

fn key(b: u8) -> [u8; 32] {
    [b; 32]
}

fn label(s: &[u8]) -> [u8; 48] {
    let mut out = [0u8; 48];
    out[..s.len()].copy_from_slice(s);
    out
}

fn sample_event() -> EventAccount {
    EventAccount {
        organizer: key(2),
        price: 500,
        tickets_total: 100,
        tickets_sold: 7,
        event_name: label(b"Conf"),
        event_address: label(b"HallA"),
    }
}

#[test]
fn event_round_trip() {
    let e = sample_event();
    let bytes = encode_event(&e);
    assert_eq!(bytes.len(), EVENT_SPAN);
    let d = decode_event(&bytes).unwrap();
    assert_eq!(d, e);
}

#[test]
fn event_round_trip_zero_value() {
    let e = EventAccount {
        organizer: key(0),
        price: 0,
        tickets_total: 0,
        tickets_sold: 0,
        event_name: label(b""),
        event_address: label(b""),
    };
    let bytes = encode_event(&e);
    assert_eq!(bytes.len(), EVENT_SPAN);
    assert_eq!(decode_event(&bytes).unwrap(), e);
}

#[test]
fn event_round_trip_extreme_values() {
    let e = EventAccount {
        organizer: key(255),
        price: u16::MAX,
        tickets_total: u16::MAX,
        tickets_sold: u16::MAX,
        event_name: [255u8; 48],
        event_address: [1u8; 48],
    };
    let bytes = encode_event(&e);
    assert_eq!(bytes.len(), EVENT_SPAN);
    assert_eq!(decode_event(&bytes).unwrap(), e);
}

#[test]
fn encoded_length_does_not_depend_on_fields() {
    let a = encode_event(&sample_event());
    let b = encode_event(&EventAccount {
        organizer: key(9),
        price: 1,
        tickets_total: 60000,
        tickets_sold: 59999,
        event_name: [7u8; 48],
        event_address: [0u8; 48],
    });
    assert_eq!(a.len(), b.len());
    assert_eq!(a.len(), 134);
}

#[test]
fn event_layout_is_fixed_and_little_endian() {
    let bytes = encode_event(&sample_event());
    // identity
    assert_eq!(&bytes[0..32], &[2u8; 32][..]);
    // price 500 = 0x01f4, little-endian
    assert_eq!(bytes[32], 0xf4);
    assert_eq!(bytes[33], 0x01);
    // tickets_total 100
    assert_eq!(bytes[34], 100);
    assert_eq!(bytes[35], 0);
    // tickets_sold 7
    assert_eq!(bytes[36], 7);
    assert_eq!(bytes[37], 0);
    // labels
    assert_eq!(&bytes[38..42], b"Conf");
    assert_eq!(bytes[42], 0);
    assert_eq!(&bytes[86..91], b"HallA");
    assert_eq!(bytes[91], 0);
}

#[test]
fn event_decode_rejects_wrong_length() {
    let bytes = encode_event(&sample_event());
    assert_eq!(decode_event(&bytes[..133]), Err(EventError::DecodeError));
    assert_eq!(decode_event(&[]), Err(EventError::DecodeError));
    let mut long = bytes.clone();
    long.push(0);
    assert_eq!(decode_event(&long), Err(EventError::DecodeError));
}

#[test]
fn instruction_round_trip_create() {
    let i = EventInstruction::CreateEvent {
        price: 500,
        tickets_total: 100,
        event_name: label(b"Conf"),
        event_address: label(b"HallA"),
    };
    let bytes = encode_instruction(&i);
    assert_eq!(bytes.len(), 101);
    assert_eq!(bytes[0], 0);
    assert_eq!(bytes[1], 0xf4);
    assert_eq!(bytes[2], 0x01);
    assert_eq!(bytes[3], 100);
    assert_eq!(bytes[4], 0);
    assert_eq!(&bytes[5..9], b"Conf");
    assert_eq!(&bytes[53..58], b"HallA");
    assert_eq!(decode_instruction(&bytes), Ok(i));
}

#[test]
fn instruction_round_trip_buy() {
    let bytes = encode_instruction(&EventInstruction::BuyTicket);
    assert_eq!(bytes, vec![1u8]);
    assert_eq!(decode_instruction(&bytes), Ok(EventInstruction::BuyTicket));
}

#[test]
fn instruction_decode_rejects_malformed() {
    // empty
    assert_eq!(decode_instruction(&[]), Err(EventError::DecodeError));
    // unknown tag
    assert_eq!(decode_instruction(&[2]), Err(EventError::DecodeError));
    // truncated create payload
    assert_eq!(decode_instruction(&[0, 1, 2, 3]), Err(EventError::DecodeError));
    // create payload one byte short and one byte long
    assert_eq!(decode_instruction(&[0; 100]), Err(EventError::DecodeError));
    assert_eq!(decode_instruction(&[0; 102]), Err(EventError::DecodeError));
    // trailing byte after the buy tag
    assert_eq!(decode_instruction(&[1, 0]), Err(EventError::DecodeError));
}
