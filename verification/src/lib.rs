pub mod error;
pub mod instruction;
pub mod ledger;
pub mod state;

pub use error::EventError;
pub use instruction::EventInstruction;
pub use ledger::Account;
pub use ledger::LedgerEffect;
pub use state::EventAccount;

use vstd::prelude::*;

use crate::instruction::create_event_address;
use crate::instruction::create_event_name;
use crate::instruction::create_price;
use crate::instruction::create_tickets_total;
use crate::instruction::decode_instruction;
use crate::instruction::spec_instruction_wire_ok;
use crate::instruction::BUY_TICKET_TAG;
use crate::instruction::CREATE_EVENT_SPAN;
use crate::instruction::CREATE_EVENT_TAG;
use crate::ledger::key_is_default;
use crate::ledger::keys_equal;
use crate::state::decode_event;
use crate::state::default_key;
use crate::state::encode_event;
use crate::state::spec_event_bytes;
use crate::state::stored_event_address;
use crate::state::stored_event_name;
use crate::state::stored_organizer;
use crate::state::stored_price;
use crate::state::stored_tickets_sold;
use crate::state::stored_tickets_total;
use crate::state::EVENT_SPAN;

verus! {

/// The precondition checks of event creation, in the order they are made;
/// `None` means every check passed. The first failure wins: a short account
/// list, a non-signing organizer, storage not owned by this program, storage
/// bytes that are no event record, and storage already holding a created
/// event, in that order.
pub open spec fn spec_create_check(
    program_id: Seq<u8>,
    n_accounts: int,
    organizer_signed: bool,
    storage_owner: Seq<u8>,
    storage_data: Seq<u8>,
) -> Option<EventError> {
    if n_accounts < 4 {
        Some(EventError::NotEnoughAccounts)
    } else if !organizer_signed {
        Some(EventError::Unauthorized)
    } else if storage_owner != program_id {
        Some(EventError::WrongOwner)
    } else if storage_data.len() != EVENT_SPAN as int {
        Some(EventError::DecodeError)
    } else if stored_organizer(storage_data) != default_key() {
        Some(EventError::AlreadyInitialized)
    } else {
        None
    }
}

/// The precondition checks of a ticket purchase, in the order they are made;
/// `None` means every check passed. The first failure wins: a short account
/// list, a non-signing buyer, storage not owned by this program, storage
/// bytes that are no event record, and an organizer reference that differs
/// from the stored organizer, in that order.
pub open spec fn spec_buy_check(
    program_id: Seq<u8>,
    n_accounts: int,
    buyer_signed: bool,
    storage_owner: Seq<u8>,
    storage_data: Seq<u8>,
    organizer_ref: Seq<u8>,
) -> Option<EventError> {
    if n_accounts < 4 {
        Some(EventError::NotEnoughAccounts)
    } else if !buyer_signed {
        Some(EventError::Unauthorized)
    } else if storage_owner != program_id {
        Some(EventError::WrongOwner)
    } else if storage_data.len() != EVENT_SPAN as int {
        Some(EventError::DecodeError)
    } else if stored_organizer(storage_data) != organizer_ref {
        Some(EventError::InvalidArgument)
    } else {
        None
    }
}

/// What event creation does: on any failed check it returns that failure and
/// leaves every account as it was; otherwise it requests storage allocation
/// at the organizer's charge and overwrites the storage bytes with the fully
/// populated record — organizer = creator, the given price, capacity and
/// labels, and a zero sold count — touching no other account and no other
/// field of the storage account.
pub open spec fn spec_create_post(
    program_id: [u8; 32],
    pre: Seq<Account>,
    post: Seq<Account>,
    price: u16,
    tickets_total: u16,
    event_name: Seq<u8>,
    event_address: Seq<u8>,
    r: Result<LedgerEffect, EventError>,
) -> bool {
    match spec_create_check(
        program_id@,
        pre.len() as int,
        pre[0].is_signer,
        pre[1].owner@,
        pre[1].data@,
    ) {
        Some(e) => r == Err::<LedgerEffect, EventError>(e) && post == pre,
        None => {
            &&& r == Ok::<LedgerEffect, EventError>(
                (LedgerEffect::CreateStorage {
                    funder: pre[0].key,
                    target: pre[1].key,
                    owner: program_id,
                    space: EVENT_SPAN as u64,
                }),
            )
            &&& post.len() == pre.len()
            &&& (forall|i: int| 0 <= i < pre.len() && i != 1 ==> post[i] == pre[i])
            &&& post[1].key == pre[1].key
            &&& post[1].is_signer == pre[1].is_signer
            &&& post[1].owner == pre[1].owner
            &&& post[1].data@ == spec_event_bytes(
                pre[0].key@,
                price,
                tickets_total,
                0,
                event_name,
                event_address,
            )
        },
    }
}

/// What a ticket purchase does: on any failed check it returns that failure
/// and leaves every account as it was; otherwise it requests a transfer of
/// exactly the stored price from the buyer to the organizer and overwrites
/// the storage bytes with the same record with the sold count one higher —
/// every other stored field, every other account, and every other field of
/// the storage account unchanged.
pub open spec fn spec_buy_post(
    program_id: [u8; 32],
    pre: Seq<Account>,
    post: Seq<Account>,
    r: Result<LedgerEffect, EventError>,
) -> bool {
    match spec_buy_check(
        program_id@,
        pre.len() as int,
        pre[0].is_signer,
        pre[1].owner@,
        pre[1].data@,
        pre[2].key@,
    ) {
        Some(e) => r == Err::<LedgerEffect, EventError>(e) && post == pre,
        None => {
            let d = pre[1].data@;
            &&& r == Ok::<LedgerEffect, EventError>(
                (LedgerEffect::Transfer {
                    from: pre[0].key,
                    to: pre[2].key,
                    amount: stored_price(d) as u64,
                }),
            )
            &&& post.len() == pre.len()
            &&& (forall|i: int| 0 <= i < pre.len() && i != 1 ==> post[i] == pre[i])
            &&& post[1].key == pre[1].key
            &&& post[1].is_signer == pre[1].is_signer
            &&& post[1].owner == pre[1].owner
            &&& post[1].data@ == spec_event_bytes(
                stored_organizer(d),
                stored_price(d),
                stored_tickets_total(d),
                (stored_tickets_sold(d) + 1) as u16,
                stored_event_name(d),
                stored_event_address(d),
            )
        },
    }
}

/// Creates the event record.
///
/// Expects, in order: organizer (signer), event storage (owned by this
/// program), the rent oracle, and the allocator. The organizer must sign, the
/// storage must be program-owned and hold a not-yet-initialized record; then
/// the storage is overwritten with the populated record and the allocation of
/// its fixed span, funded by the organizer, is requested from the host.
pub fn create_event(
    program_id: &[u8; 32],
    accounts: &mut Vec<Account>,
    price: u16,
    tickets_total: u16,
    event_name: &[u8; 48],
    event_address: &[u8; 48],
) -> (r: Result<LedgerEffect, EventError>)
    ensures
        spec_create_post(
            *program_id,
            old(accounts)@,
            final(accounts)@,
            price,
            tickets_total,
            event_name@,
            event_address@,
            r,
        ),
{
    if accounts.len() < 4 {
        return Err(EventError::NotEnoughAccounts);
    }
    if !accounts[0].is_signer {
        return Err(EventError::Unauthorized);
    }
    if !keys_equal(&accounts[1].owner, program_id) {
        return Err(EventError::WrongOwner);
    }
    let current = match decode_event(accounts[1].data.as_slice()) {
        Ok(e) => e,
        Err(e) => {
            return Err(e);
        },
    };
    if !key_is_default(&current.organizer) {
        return Err(EventError::AlreadyInitialized);
    }
    let funder = accounts[0].key;
    let target = accounts[1].key;
    let created = EventAccount {
        organizer: funder,
        price,
        tickets_total,
        tickets_sold: 0,
        event_name: *event_name,
        event_address: *event_address,
    };
    let new_data = encode_event(&created);
    let updated = Account {
        key: target,
        is_signer: accounts[1].is_signer,
        owner: accounts[1].owner,
        data: new_data,
    };
    accounts.set(1, updated);
    Ok(
        LedgerEffect::CreateStorage {
            funder,
            target,
            owner: *program_id,
            space: EVENT_SPAN as u64,
        },
    )
}

/// Sells one ticket.
///
/// Expects, in order: buyer (signer), event storage (owned by this program),
/// the organizer, and the transfer primitive. The buyer must sign, the
/// storage must be program-owned and decode to a record whose organizer is
/// the supplied organizer reference; then the sold count is incremented in
/// storage and a transfer of the stored price from buyer to organizer is
/// requested from the host.
pub fn buy_ticket(program_id: &[u8; 32], accounts: &mut Vec<Account>) -> (r: Result<
    LedgerEffect,
    EventError,
>)
    requires
        spec_buy_check(
            program_id@,
            old(accounts)@.len() as int,
            old(accounts)@[0].is_signer,
            old(accounts)@[1].owner@,
            old(accounts)@[1].data@,
            old(accounts)@[2].key@,
        ) is None ==> stored_tickets_sold(old(accounts)@[1].data@) < 0xffff,
    ensures
        spec_buy_post(*program_id, old(accounts)@, final(accounts)@, r),
{
    if accounts.len() < 4 {
        return Err(EventError::NotEnoughAccounts);
    }
    if !accounts[0].is_signer {
        return Err(EventError::Unauthorized);
    }
    if !keys_equal(&accounts[1].owner, program_id) {
        return Err(EventError::WrongOwner);
    }
    let mut event = match decode_event(accounts[1].data.as_slice()) {
        Ok(e) => e,
        Err(e) => {
            return Err(e);
        },
    };
    if !keys_equal(&event.organizer, &accounts[2].key) {
        return Err(EventError::InvalidArgument);
    }
    let buyer = accounts[0].key;
    let organizer = accounts[2].key;
    let amount = event.price as u64;
    event.tickets_sold = event.tickets_sold + 1;
    let new_data = encode_event(&event);
    let updated = Account {
        key: accounts[1].key,
        is_signer: accounts[1].is_signer,
        owner: accounts[1].owner,
        data: new_data,
    };
    accounts.set(1, updated);
    Ok((LedgerEffect::Transfer { from: buyer, to: organizer, amount }))
}

/// The dispatch entry point: decodes the raw instruction bytes and routes to
/// the matching handler.
///
/// Malformed payloads fail with `DecodeError` before any account is touched;
/// otherwise the account list is passed through unexamined to the handler,
/// whose checks and effects are stated by `spec_create_post` and
/// `spec_buy_post`.
pub fn process_instruction(
    program_id: &[u8; 32],
    accounts: &mut Vec<Account>,
    instruction_data: &[u8],
) -> (r: Result<LedgerEffect, EventError>)
    requires
        (instruction_data@.len() == 1 && instruction_data@[0] == BUY_TICKET_TAG && spec_buy_check(
            program_id@,
            old(accounts)@.len() as int,
            old(accounts)@[0].is_signer,
            old(accounts)@[1].owner@,
            old(accounts)@[1].data@,
            old(accounts)@[2].key@,
        ) is None) ==> stored_tickets_sold(old(accounts)@[1].data@) < 0xffff,
    ensures
        !spec_instruction_wire_ok(instruction_data@) ==> r == Err::<LedgerEffect, EventError>(
            EventError::DecodeError,
        ) && final(accounts)@ == old(accounts)@,
        (instruction_data@.len() == CREATE_EVENT_SPAN as int && instruction_data@[0]
            == CREATE_EVENT_TAG) ==> spec_create_post(
            *program_id,
            old(accounts)@,
            final(accounts)@,
            create_price(instruction_data@),
            create_tickets_total(instruction_data@),
            create_event_name(instruction_data@),
            create_event_address(instruction_data@),
            r,
        ),
        (instruction_data@.len() == 1 && instruction_data@[0] == BUY_TICKET_TAG)
            ==> spec_buy_post(*program_id, old(accounts)@, final(accounts)@, r),
{
    match decode_instruction(instruction_data) {
        Err(e) => Err(e),
        Ok(EventInstruction::CreateEvent { price, tickets_total, event_name, event_address }) => {
            create_event(program_id, accounts, price, tickets_total, &event_name, &event_address)
        },
        Ok(EventInstruction::BuyTicket) => buy_ticket(program_id, accounts),
    }
}

/// Law: creating an event and then decoding the storage account yields the
/// creator as organizer, a zero sold count, and the other fields equal to the
/// creation inputs. The bytes below are the ones `spec_create_post` says a
/// successful creation writes, and the stored readings below are the ones
/// `decode_event` guarantees for its result.
pub proof fn lemma_create_then_decode(
    creator: Seq<u8>,
    price: u16,
    tickets_total: u16,
    event_name: Seq<u8>,
    event_address: Seq<u8>,
)
    requires
        creator.len() == 32,
        event_name.len() == 48,
        event_address.len() == 48,
    ensures
        ({
            let d = spec_event_bytes(creator, price, tickets_total, 0, event_name, event_address);
            &&& stored_organizer(d) == creator
            &&& stored_price(d) == price
            &&& stored_tickets_total(d) == tickets_total
            &&& stored_tickets_sold(d) == 0
            &&& stored_event_name(d) == event_name
            &&& stored_event_address(d) == event_address
        }),
{
    crate::state::lemma_event_bytes_fields(
        creator,
        price,
        tickets_total,
        0,
        event_name,
        event_address,
    );
}

/// Law: a successful purchase changes the stored record in exactly one place —
/// the sold count rises by one — while the organizer, price, capacity, labels
/// and the record length stay as they were. The new bytes below are the ones
/// `spec_buy_post` says a successful purchase writes over old storage `d`.
pub proof fn lemma_purchase_updates_only_sold(d: Seq<u8>)
    requires
        d.len() == EVENT_SPAN as int,
        stored_tickets_sold(d) < 0xffff,
    ensures
        ({
            let nd = spec_event_bytes(
                stored_organizer(d),
                stored_price(d),
                stored_tickets_total(d),
                (stored_tickets_sold(d) + 1) as u16,
                stored_event_name(d),
                stored_event_address(d),
            );
            &&& nd.len() == d.len()
            &&& stored_organizer(nd) == stored_organizer(d)
            &&& stored_price(nd) == stored_price(d)
            &&& stored_tickets_total(nd) == stored_tickets_total(d)
            &&& stored_tickets_sold(nd) == stored_tickets_sold(d) + 1
            &&& stored_event_name(nd) == stored_event_name(d)
            &&& stored_event_address(nd) == stored_event_address(d)
        }),
{
    crate::state::lemma_event_bytes_fields(
        stored_organizer(d),
        stored_price(d),
        stored_tickets_total(d),
        (stored_tickets_sold(d) + 1) as u16,
        stored_event_name(d),
        stored_event_address(d),
    );
}

/// Law: a second creation on storage that already holds a created record is
/// refused as `AlreadyInitialized`. After a creation by any non-default
/// organizer — and after any number of sales, whatever the stored counters —
/// the stored organizer is that non-default identity, so the creation checks,
/// made on an otherwise acceptable account list, stop there; by
/// `spec_create_post`, the refused call leaves the stored bytes unchanged.
pub proof fn lemma_recreate_already_initialized(
    program_id: Seq<u8>,
    n_accounts: int,
    organizer: Seq<u8>,
    price: u16,
    tickets_total: u16,
    tickets_sold: u16,
    event_name: Seq<u8>,
    event_address: Seq<u8>,
)
    requires
        n_accounts >= 4,
        organizer.len() == 32,
        organizer != default_key(),
        event_name.len() == 48,
        event_address.len() == 48,
    ensures
        spec_create_check(
            program_id,
            n_accounts,
            true,
            program_id,
            spec_event_bytes(
                organizer,
                price,
                tickets_total,
                tickets_sold,
                event_name,
                event_address,
            ),
        ) == Some(EventError::AlreadyInitialized),
{
    crate::state::lemma_event_bytes_fields(
        organizer,
        price,
        tickets_total,
        tickets_sold,
        event_name,
        event_address,
    );
}

} // verus!
