use vstd::prelude::*;

use crate::error::EventError;
use crate::state::u16_le;
use crate::state::u16_of_le;

verus! {

/// Wire tag of the event-creation command.
pub const CREATE_EVENT_TAG: u8 = 0;

/// Wire tag of the ticket-purchase command.
pub const BUY_TICKET_TAG: u8 = 1;

/// Byte length of an encoded `CreateEvent` command: the tag, two 2-byte
/// little-endian fields, and two 48-byte labels.
pub const CREATE_EVENT_SPAN: usize = 101;

/// A decoded instruction: the tag-prefixed union submitted to the dispatcher.
#[derive(Clone, Copy, Debug, PartialEq, Eq)]
pub enum EventInstruction {
    CreateEvent { price: u16, tickets_total: u16, event_name: [u8; 48], event_address: [u8; 48] },
    BuyTicket,
}

/// The wire encoding of an instruction.
pub open spec fn spec_encode_instruction(i: EventInstruction) -> Seq<u8> {
    match i {
        EventInstruction::CreateEvent { price, tickets_total, event_name, event_address } => seq![
            CREATE_EVENT_TAG,
        ] + u16_le(price) + u16_le(tickets_total) + event_name@ + event_address@,
        EventInstruction::BuyTicket => seq![BUY_TICKET_TAG],
    }
}

/// Whether `d` is the encoding of some instruction.
pub open spec fn spec_instruction_wire_ok(d: Seq<u8>) -> bool {
    ||| (d.len() == CREATE_EVENT_SPAN as int && d[0] == CREATE_EVENT_TAG)
    ||| (d.len() == 1 && d[0] == BUY_TICKET_TAG)
}

/// The price field of an encoded `CreateEvent` payload.
pub open spec fn create_price(d: Seq<u8>) -> u16 {
    u16_of_le(d[1], d[2])
}

/// The capacity field of an encoded `CreateEvent` payload.
pub open spec fn create_tickets_total(d: Seq<u8>) -> u16 {
    u16_of_le(d[3], d[4])
}

/// The display-label field of an encoded `CreateEvent` payload.
pub open spec fn create_event_name(d: Seq<u8>) -> Seq<u8> {
    d.subrange(5, 53)
}

/// The venue-label field of an encoded `CreateEvent` payload.
pub open spec fn create_event_address(d: Seq<u8>) -> Seq<u8> {
    d.subrange(53, 101)
}

/// Encodes an instruction into its tag-prefixed wire form.
pub fn encode_instruction(i: &EventInstruction) -> (r: Vec<u8>)
    ensures
        r@ == spec_encode_instruction(*i),
{
    match i {
        EventInstruction::CreateEvent { price, tickets_total, event_name, event_address } => {
            let mut out: Vec<u8> = Vec::new();
            out.push(CREATE_EVENT_TAG);
            crate::state::push_u16_le(&mut out, *price);
            crate::state::push_u16_le(&mut out, *tickets_total);
            crate::state::push_bytes(&mut out, event_name.as_slice());
            crate::state::push_bytes(&mut out, event_address.as_slice());
            proof {
                assert(out@ =~= spec_encode_instruction(*i));
            }
            out
        },
        EventInstruction::BuyTicket => {
            let mut out: Vec<u8> = Vec::new();
            out.push(BUY_TICKET_TAG);
            proof {
                assert(out@ =~= spec_encode_instruction(*i));
            }
            out
        },
    }
}

/// Decodes raw instruction bytes into a command.
///
/// Succeeds exactly on well-formed wire bytes — a `CreateEvent` payload of the
/// fixed length under tag 0, or a lone tag 1 — and then returns the one
/// command whose encoding is `data`. An unknown tag, a truncated payload, or
/// trailing bytes are rejected as `DecodeError`.
pub fn decode_instruction(data: &[u8]) -> (r: Result<EventInstruction, EventError>)
    ensures
        spec_instruction_wire_ok(data@) ==> (r matches Ok(i) && spec_encode_instruction(i)
            == data@),
        (data@.len() == CREATE_EVENT_SPAN as int && data@[0] == CREATE_EVENT_TAG) ==> (r matches
            Ok(i) && i matches EventInstruction::CreateEvent {
                price,
                tickets_total,
                event_name,
                event_address,
            } && price == create_price(data@) && tickets_total == create_tickets_total(data@)
            && event_name@ == create_event_name(data@) && event_address@ == create_event_address(
            data@,
        )),
        (data@.len() == 1 && data@[0] == BUY_TICKET_TAG) ==> r == Ok::<
            EventInstruction,
            EventError,
        >(EventInstruction::BuyTicket),
        !spec_instruction_wire_ok(data@) ==> r == Err::<EventInstruction, EventError>(
            EventError::DecodeError,
        ),
{
    if data.len() == 0 {
        return Err(EventError::DecodeError);
    }
    let tag = data[0];
    if tag == CREATE_EVENT_TAG {
        if data.len() != CREATE_EVENT_SPAN {
            return Err(EventError::DecodeError);
        }
        let price = crate::state::u16_from_le(data[1], data[2]);
        let tickets_total = crate::state::u16_from_le(data[3], data[4]);
        let event_name: [u8; 48] = crate::state::read_array::<48>(data, 5);
        let event_address: [u8; 48] = crate::state::read_array::<48>(data, 53);
        let i = EventInstruction::CreateEvent { price, tickets_total, event_name, event_address };
        proof {
            crate::state::lemma_u16_le_of(data@[1], data@[2]);
            crate::state::lemma_u16_le_of(data@[3], data@[4]);
            assert(spec_encode_instruction(i) =~= data@);
        }
        Ok(i)
    } else if tag == BUY_TICKET_TAG {
        if data.len() != 1 {
            return Err(EventError::DecodeError);
        }
        proof {
            assert(spec_encode_instruction(EventInstruction::BuyTicket) =~= data@);
        }
        Ok(EventInstruction::BuyTicket)
    } else {
        Err(EventError::DecodeError)
    }
}

} // verus!
