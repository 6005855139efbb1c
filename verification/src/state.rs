use vstd::prelude::*;

use crate::error::EventError;

verus! {

/// Fixed byte length of a persisted event record: 32-byte organizer identity,
/// three 2-byte little-endian counters, and two 48-byte labels.
pub const EVENT_SPAN: usize = 134;

/// One event sale, as persisted in its storage account.
///
/// `organizer` is the identity authorized to manage the event; the all-zero
/// identity is the designated "uninitialized" sentinel, so a created record
/// always carries the creator's (non-default) identity.
#[derive(Clone, Copy, Debug, PartialEq, Eq)]
pub struct EventAccount {
    pub organizer: [u8; 32],
    pub price: u16,
    pub tickets_total: u16,
    pub tickets_sold: u16,
    pub event_name: [u8; 48],
    pub event_address: [u8; 48],
}

/// The two bytes of `x` in little-endian order.
pub open spec fn u16_le(x: u16) -> Seq<u8> {
    seq![(x % 256) as u8, (x / 256) as u8]
}

/// The value whose little-endian bytes are `lo` then `hi`.
pub open spec fn u16_of_le(lo: u8, hi: u8) -> u16 {
    (lo + 256 * hi) as u16
}

/// The fixed record layout: identity, price, tickets_total, tickets_sold,
/// name, address, in that order, with the counters little-endian.
pub open spec fn spec_event_bytes(
    organizer: Seq<u8>,
    price: u16,
    tickets_total: u16,
    tickets_sold: u16,
    event_name: Seq<u8>,
    event_address: Seq<u8>,
) -> Seq<u8> {
    organizer + u16_le(price) + u16_le(tickets_total) + u16_le(tickets_sold) + event_name
        + event_address
}

/// The encoding of a whole event value.
pub open spec fn spec_encode_event(e: EventAccount) -> Seq<u8> {
    spec_event_bytes(
        e.organizer@,
        e.price,
        e.tickets_total,
        e.tickets_sold,
        e.event_name@,
        e.event_address@,
    )
}

/// The organizer identity stored in encoded record bytes.
pub open spec fn stored_organizer(d: Seq<u8>) -> Seq<u8> {
    d.subrange(0, 32)
}

/// The ticket price stored in encoded record bytes.
pub open spec fn stored_price(d: Seq<u8>) -> u16 {
    u16_of_le(d[32], d[33])
}

/// The ticket capacity stored in encoded record bytes.
pub open spec fn stored_tickets_total(d: Seq<u8>) -> u16 {
    u16_of_le(d[34], d[35])
}

/// The sold count stored in encoded record bytes.
pub open spec fn stored_tickets_sold(d: Seq<u8>) -> u16 {
    u16_of_le(d[36], d[37])
}

/// The display label stored in encoded record bytes.
pub open spec fn stored_event_name(d: Seq<u8>) -> Seq<u8> {
    d.subrange(38, 86)
}

/// The venue label stored in encoded record bytes.
pub open spec fn stored_event_address(d: Seq<u8>) -> Seq<u8> {
    d.subrange(86, 134)
}

/// The all-zero identity that marks a storage account as not yet initialized.
pub open spec fn default_key() -> Seq<u8> {
    Seq::new(32, |i: int| 0u8)
}

/// Appends every byte of `src` to `out`, in order.
pub(crate) fn push_bytes(out: &mut Vec<u8>, src: &[u8])
    ensures
        final(out)@ == old(out)@ + src@,
{
    proof {
        assert(old(out)@ + src@.subrange(0, 0) =~= old(out)@);
    }
    let mut i: usize = 0;
    while i < src.len()
        invariant
            i <= src@.len(),
            out@ == old(out)@ + src@.subrange(0, i as int),
        decreases src@.len() - i,
    {
        out.push(src[i]);
        proof {
            assert(old(out)@ + src@.subrange(0, i as int) + seq![src@[i as int]] =~= old(out)@
                + src@.subrange(0, i + 1));
        }
        i = i + 1;
    }
    proof {
        assert(old(out)@ + src@.subrange(0, src@.len() as int) =~= old(out)@ + src@);
    }
}

/// Appends the two little-endian bytes of `x` to `out`.
pub(crate) fn push_u16_le(out: &mut Vec<u8>, x: u16)
    ensures
        final(out)@ == old(out)@ + u16_le(x),
{
    out.push((x % 256) as u8);
    out.push((x / 256) as u8);
    proof {
        assert(out@ =~= old(out)@ + u16_le(x));
    }
}

/// Reads the value whose little-endian bytes are `lo` then `hi`.
pub(crate) fn u16_from_le(lo: u8, hi: u8) -> (r: u16)
    ensures
        r == u16_of_le(lo, hi),
{
    (lo as u16) + 256 * (hi as u16)
}

/// Copies `N` bytes of `data`, starting at `start`, into a fresh array.
pub(crate) fn read_array<const N: usize>(data: &[u8], start: usize) -> (r: [u8; N])
    requires
        start + N <= data@.len(),
    ensures
        r@ == data@.subrange(start as int, start + N),
{
    let data_len: usize = data.len();
    let mut r: [u8; N] = [0u8; N];
    let mut i: usize = 0;
    while i < N
        invariant
            i <= N,
            start + N <= data@.len(),
            start + N <= usize::MAX,
            forall|j: int| 0 <= j < i ==> r@[j] == data@[start + j],
        decreases N - i,
    {
        r[i] = data[start + i];
        i = i + 1;
    }
    proof {
        assert(r@ =~= data@.subrange(start as int, start + N));
    }
    r
}

/// Encodes an event into its fixed 134-byte layout.
///
/// Encoding never fails, and the length of the result does not depend on the
/// field values.
pub fn encode_event(e: &EventAccount) -> (r: Vec<u8>)
    ensures
        r@ == spec_encode_event(*e),
        r@.len() == EVENT_SPAN,
{
    let mut out: Vec<u8> = Vec::new();
    push_bytes(&mut out, e.organizer.as_slice());
    push_u16_le(&mut out, e.price);
    push_u16_le(&mut out, e.tickets_total);
    push_u16_le(&mut out, e.tickets_sold);
    push_bytes(&mut out, e.event_name.as_slice());
    push_bytes(&mut out, e.event_address.as_slice());
    proof {
        assert(out@ =~= spec_encode_event(*e));
    }
    out
}

/// Decodes a persisted event record.
///
/// Succeeds exactly on inputs of the fixed record length, and then returns
/// the one event value whose encoding is `data`; anything shorter or longer
/// is rejected as `DecodeError`.
pub fn decode_event(data: &[u8]) -> (r: Result<EventAccount, EventError>)
    ensures
        data@.len() == EVENT_SPAN ==> (r matches Ok(e) && spec_encode_event(e) == data@
            && e.organizer@ == stored_organizer(data@) && e.price == stored_price(data@)
            && e.tickets_total == stored_tickets_total(data@) && e.tickets_sold
            == stored_tickets_sold(data@) && e.event_name@ == stored_event_name(data@)
            && e.event_address@ == stored_event_address(data@)),
        data@.len() != EVENT_SPAN ==> r == Err::<EventAccount, EventError>(EventError::DecodeError),
{
    if data.len() != EVENT_SPAN {
        return Err(EventError::DecodeError);
    }
    let organizer: [u8; 32] = read_array::<32>(data, 0);
    let price = u16_from_le(data[32], data[33]);
    let tickets_total = u16_from_le(data[34], data[35]);
    let tickets_sold = u16_from_le(data[36], data[37]);
    let event_name: [u8; 48] = read_array::<48>(data, 38);
    let event_address: [u8; 48] = read_array::<48>(data, 86);
    let e = EventAccount { organizer, price, tickets_total, tickets_sold, event_name, event_address };
    proof {
        lemma_u16_le_of(data@[32], data@[33]);
        lemma_u16_le_of(data@[34], data@[35]);
        lemma_u16_le_of(data@[36], data@[37]);
        assert(spec_encode_event(e) =~= data@);
    }
    Ok(e)
}

/// The little-endian bytes of the value read from `lo` and `hi` are `lo` and
/// `hi` again.
pub(crate) proof fn lemma_u16_le_of(lo: u8, hi: u8)
    ensures
        u16_le(u16_of_le(lo, hi)) == seq![lo, hi],
{
    let x = u16_of_le(lo, hi);
    assert(x == lo + 256 * hi);
    assert((lo + 256 * hi) % 256 == lo as int && (lo + 256 * hi) / 256 == hi as int) by {
        vstd::arithmetic::div_mod::lemma_fundamental_div_mod_converse(
            lo + 256 * hi,
            256,
            hi as int,
            lo as int,
        );
    }
    assert(u16_le(x) =~= seq![lo, hi]);
}

/// Law: the fixed layout stores each field at its own offsets, so the record
/// written for given field values decodes to exactly those values — in
/// particular, freshly created storage decodes to the creator's identity, the
/// requested price and capacity, a zero sold count, and the given labels.
pub proof fn lemma_event_bytes_fields(
    organizer: Seq<u8>,
    price: u16,
    tickets_total: u16,
    tickets_sold: u16,
    event_name: Seq<u8>,
    event_address: Seq<u8>,
)
    requires
        organizer.len() == 32,
        event_name.len() == 48,
        event_address.len() == 48,
    ensures
        ({
            let d = spec_event_bytes(
                organizer,
                price,
                tickets_total,
                tickets_sold,
                event_name,
                event_address,
            );
            &&& d.len() == EVENT_SPAN
            &&& stored_organizer(d) == organizer
            &&& stored_price(d) == price
            &&& stored_tickets_total(d) == tickets_total
            &&& stored_tickets_sold(d) == tickets_sold
            &&& stored_event_name(d) == event_name
            &&& stored_event_address(d) == event_address
        }),
{
    let d = spec_event_bytes(organizer, price, tickets_total, tickets_sold, event_name, event_address);
    assert(stored_organizer(d) =~= organizer);
    assert(stored_event_name(d) =~= event_name);
    assert(stored_event_address(d) =~= event_address);
    lemma_u16_of_le_roundtrip(price);
    lemma_u16_of_le_roundtrip(tickets_total);
    lemma_u16_of_le_roundtrip(tickets_sold);
}

/// Reading back the two little-endian bytes of `x` gives `x`.
proof fn lemma_u16_of_le_roundtrip(x: u16)
    ensures
        u16_of_le((x % 256) as u8, (x / 256) as u8) == x,
{
    assert(x % 256 + 256 * (x / 256) == x) by {
        vstd::arithmetic::div_mod::lemma_fundamental_div_mod(x as int, 256);
    }
}

/// Law: encoding is lossless — two events with the same encoding are the same
/// event, so decoding what `encode_event` produced yields the original value,
/// and the encoded length is the same fixed 134 bytes for every event.
pub proof fn lemma_event_codec_round_trip(a: EventAccount, b: EventAccount)
    requires
        spec_encode_event(a) == spec_encode_event(b),
    ensures
        a == b,
        spec_encode_event(a).len() == EVENT_SPAN,
{
    lemma_event_bytes_fields(
        a.organizer@,
        a.price,
        a.tickets_total,
        a.tickets_sold,
        a.event_name@,
        a.event_address@,
    );
    lemma_event_bytes_fields(
        b.organizer@,
        b.price,
        b.tickets_total,
        b.tickets_sold,
        b.event_name@,
        b.event_address@,
    );
    assert(a.organizer =~= b.organizer);
    assert(a.event_name =~= b.event_name);
    assert(a.event_address =~= b.event_address);
}

} // verus!
