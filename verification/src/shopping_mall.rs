//! The premium store: opening, closing, and what can be bought.

use crate::constants::{HAVE_MAX, SLOT_MAX, WIZ_SHOPPING_MALL};
use crate::packet::{u16_bytes, u32_bytes, Packet, PacketReader};
use std::collections::HashMap;
use vstd::prelude::*;

verus! {

broadcast use vstd::std_specs::hash::group_hash_axioms;

/// Kinds of store requests.
pub const STORE_OPEN: u8 = 1;
pub const STORE_CLOSE: u8 = 2;
pub const STORE_LETTER: u8 = 6;

/// The player is dead, trading, selling or led by a genie, or the zone has no store.
pub const ERR_INVALID_STATE: u16 = 0xFFF7;
/// The player has no free inventory slot.
pub const ERR_NO_FREE_SLOTS: u16 = 0xFFF8;

/// Prices in Knight Cash, and in money.
pub const PRICE_TYPE_KC: i16 = 0;
pub const PRICE_TYPE_TL: i16 = 1;

/// Bytes of an inventory slot on the wire.
pub const SLOT_BYTES: usize = 15;

/// What a store request asks for.
#[derive(Clone, Copy, Debug, PartialEq, Eq, Structural)]
pub enum StoreRequest {
    Open,
    Close,
    Letter,
    Nothing,
}

/// What a store request asks for.
pub open spec fn store_request(dead: bool, payload: Seq<u8>) -> StoreRequest {
    if dead || payload.len() == 0 {
        StoreRequest::Nothing
    } else if payload[0] == STORE_OPEN {
        StoreRequest::Open
    } else if payload[0] == STORE_CLOSE {
        StoreRequest::Close
    } else if payload[0] == STORE_LETTER {
        StoreRequest::Letter
    } else {
        StoreRequest::Nothing
    }
}

/// Find out what a store request asks for. The dead ask for nothing.
pub fn parse_store_request(dead: bool, payload: &[u8]) -> (r: StoreRequest)
    ensures
        r == store_request(dead, payload@),
{
    if dead {
        return StoreRequest::Nothing;
    }
    let mut reader = PacketReader::new(payload);
    match reader.read_u8().unwrap_or(0) {
        STORE_OPEN => StoreRequest::Open,
        STORE_CLOSE => StoreRequest::Close,
        STORE_LETTER => StoreRequest::Letter,
        _ => StoreRequest::Nothing,
    }
}

/// An inventory slot. The item number is 0 where it is empty.
#[derive(Clone, Copy, Debug, PartialEq, Eq, Structural)]
pub struct Slot {
    pub item_id: u32,
    pub durability: i16,
    pub count: u16,
    pub flag: u8,
    pub rental_minutes: u16,
    pub expire_time: u32,
}

/// An empty slot.
pub open spec fn empty_slot() -> Slot {
    Slot {
        item_id: 0,
        durability: 0,
        count: 0,
        flag: 0,
        rental_minutes: 0,
        expire_time: 0,
    }
}

/// How many of the slots from `from` up to `to` are there and empty.
pub open spec fn free_slots_in(inv: Seq<Slot>, from: int, to: int) -> int
    decreases to - from,
{
    if from >= to {
        0
    } else {
        free_slots_in(inv, from, to - 1) + if to - 1 < inv.len() && inv[to - 1].item_id == 0 {
            1int
        } else {
            0
        }
    }
}

/// Count the free slots of the bag, which follows the worn items.
pub fn count_free_slots(inv: &Vec<Slot>) -> (r: i16)
    ensures
        r == free_slots_in(inv@, SLOT_MAX as int, SLOT_MAX + HAVE_MAX),
        0 <= r <= HAVE_MAX,
{
    let mut free: i16 = 0;
    let mut i: usize = SLOT_MAX;
    while i < SLOT_MAX + HAVE_MAX
        invariant
            SLOT_MAX <= i <= SLOT_MAX + HAVE_MAX,
            0 <= free <= i - SLOT_MAX,
            free == free_slots_in(inv@, SLOT_MAX as int, i as int),
        decreases SLOT_MAX + HAVE_MAX - i,
    {
        if i < inv.len() && inv[i].item_id == 0 {
            free = free + 1;
        }
        i += 1;
    }
    free
}

/// A player who opens the store.
#[derive(Clone, Copy, Debug)]
pub struct Customer {
    pub dead: bool,
    pub trading: bool,
    pub merchanting: bool,
    pub genie_active: bool,
    /// The player's zone, where it is known.
    pub zone_id: Option<u16>,
}

/// Whether a player may shop at all: not in the private arenas, and with free hands.
pub open spec fn may_shop(c: Customer) -> bool {
    &&& !c.dead && !c.trading && !c.merchanting && !c.genie_active
    &&& match c.zone_id {
        Some(z) => !(40 <= z <= 45),
        None => true,
    }
}

/// Whether a result is that of opening the store.
pub open spec fn is_opening(r: Result<i16, u16>, c: Customer, inv: Seq<Slot>) -> bool {
    let free = free_slots_in(inv, SLOT_MAX as int, SLOT_MAX + HAVE_MAX);
    match r {
        Ok(n) => may_shop(c) && n == free && n > 0,
        Err(e) => (e == ERR_INVALID_STATE && !may_shop(c)) || (e == ERR_NO_FREE_SLOTS
            && may_shop(c) && free <= 0),
    }
}

/// Open the store: `Ok` is the number of free slots, `Err` what stands against it. The store
/// counts as open from then on.
pub fn handle_store_open(c: &Customer, inv: &Vec<Slot>, store_open: &mut bool) -> (r: Result<
    i16,
    u16,
>)
    ensures
        is_opening(r, *c, inv@),
        *final(store_open) == (*old(store_open) || r is Ok),
{
    if c.dead || c.trading || c.merchanting || c.genie_active {
        return Err(ERR_INVALID_STATE);
    }
    match c.zone_id {
        Some(z) => {
            if z >= 40 && z <= 45 {
                return Err(ERR_INVALID_STATE);
            }
        },
        None => {},
    }
    let free: i16 = count_free_slots(inv);
    if free <= 0 {
        return Err(ERR_NO_FREE_SLOTS);
    }
    *store_open = true;
    Ok(free)
}

/// Payload of the answer to a player who has opened the store.
pub open spec fn opened_payload(free_slots: i16) -> Seq<u8> {
    seq![STORE_OPEN] + u16_bytes(1) + u16_bytes(free_slots as u16)
}

/// Tell a player that the store is open.
pub fn build_store_open_success(free_slots: i16) -> (p: Packet)
    ensures
        p.opcode == WIZ_SHOPPING_MALL,
        p.data@ == opened_payload(free_slots),
        p.opcode == 0x6A,
{
    let mut pkt = Packet::new(WIZ_SHOPPING_MALL);
    pkt.write_u8(STORE_OPEN);
    pkt.write_u16(1);
    pkt.write_i16(free_slots);
    assert(pkt.data@ =~= seq![STORE_OPEN] + u16_bytes(1) + u16_bytes(free_slots as u16));
    pkt
}

/// Payload of the answer to a player for whom the store stays closed.
pub open spec fn refused_payload(error_code: u16) -> Seq<u8> {
    seq![STORE_OPEN] + u16_bytes(error_code)
}

/// Tell a player why the store stays closed.
pub fn build_store_open_error(error_code: u16) -> (p: Packet)
    ensures
        p.opcode == WIZ_SHOPPING_MALL,
        p.data@ == refused_payload(error_code),
        p.opcode == 0x6A,
{
    let mut pkt = Packet::new(WIZ_SHOPPING_MALL);
    pkt.write_u8(STORE_OPEN);
    pkt.write_u16(error_code);
    assert(pkt.data@ =~= seq![STORE_OPEN] + u16_bytes(error_code));
    pkt
}

/// A slot on the wire.
pub open spec fn slot_bytes(s: Slot) -> Seq<u8> {
    (u32_bytes(s.item_id) + u16_bytes(s.durability as u16) + u16_bytes(s.count)).push(s.flag)
        + u16_bytes(s.rental_minutes) + u32_bytes(s.expire_time)
}

/// The slot at an index, or an empty one beyond the end.
pub open spec fn slot_at(inv: Seq<Slot>, i: int) -> Slot {
    if 0 <= i < inv.len() {
        inv[i]
    } else {
        empty_slot()
    }
}

/// The first `n` slots of the bag on the wire.
pub open spec fn bag_bytes(inv: Seq<Slot>, n: nat) -> Seq<u8>
    decreases n,
{
    if n == 0 {
        Seq::empty()
    } else {
        bag_bytes(inv, (n - 1) as nat) + slot_bytes(slot_at(inv, SLOT_MAX + n - 1))
    }
}

/// Payload of the answer to a player who has closed the store.
pub open spec fn closed_payload(inv: Seq<Slot>) -> Seq<u8> {
    seq![STORE_CLOSE] + bag_bytes(inv, HAVE_MAX as nat)
}

/// Close the store and send the whole bag, empty slots included.
pub fn handle_store_close(inv: &Vec<Slot>, store_open: &mut bool) -> (p: Packet)
    ensures
        p.opcode == WIZ_SHOPPING_MALL,
        p.data@ == closed_payload(inv@),
        p.opcode == 0x6A,
        *final(store_open) == false,
{
    *store_open = false;
    let mut pkt = Packet::new(WIZ_SHOPPING_MALL);
    pkt.write_u8(STORE_CLOSE);
    assert(pkt.data@ =~= seq![STORE_CLOSE] + bag_bytes(inv@, 0));
    let mut n: usize = 0;
    while n < HAVE_MAX
        invariant
            n <= HAVE_MAX,
            pkt.opcode == WIZ_SHOPPING_MALL,
            pkt.data@ == seq![STORE_CLOSE] + bag_bytes(inv@, n as nat),
        decreases HAVE_MAX - n,
    {
        let ghost before = pkt.data@;
        let i: usize = SLOT_MAX + n;
        let s: Slot = if i < inv.len() {
            inv[i]
        } else {
            Slot {
                item_id: 0,
                durability: 0,
                count: 0,
                flag: 0,
                rental_minutes: 0,
                expire_time: 0,
            }
        };
        pkt.write_u32(s.item_id);
        pkt.write_u16(s.durability as u16);
        pkt.write_u16(s.count);
        pkt.write_u8(s.flag);
        pkt.write_u16(s.rental_minutes);
        pkt.write_u32(s.expire_time);
        assert(s == slot_at(inv@, SLOT_MAX + n));
        assert(pkt.data@ =~= before + slot_bytes(s));
        assert(before + slot_bytes(s) =~= seq![STORE_CLOSE] + bag_bytes(inv@, (n + 1) as nat));
        n += 1;
    }
    pkt
}

/// A listing of the store.
#[derive(Clone, Copy, Debug, PartialEq, Eq, Structural)]
pub struct PusItem {
    pub id: i32,
    pub item_id: i32,
    pub price: Option<i32>,
    pub buy_count: i32,
    pub category: i32,
    pub price_type: i16,
}

/// The store's catalog: listings by their number, and the categories that are active.
pub struct PusCatalog {
    items: HashMap<i32, PusItem>,
    categories: Vec<i32>,
}

impl PusCatalog {
    /// The listings by their number.
    pub closed spec fn items(self) -> Map<i32, PusItem> {
        self.items@
    }

    /// The numbers of the active categories.
    pub closed spec fn categories(self) -> Seq<i32> {
        self.categories@
    }

    /// A catalog without listings.
    pub fn new() -> (c: PusCatalog)
        ensures
            c.items() == Map::<i32, PusItem>::empty(),
            c.categories() == Seq::<i32>::empty(),
    {
        PusCatalog { items: HashMap::new(), categories: Vec::new() }
    }

    /// Make a category active.
    pub fn add_category(&mut self, category_id: i32)
        ensures
            final(self).categories() == old(self).categories().push(category_id),
            final(self).items() == old(self).items(),
    {
        self.categories.push(category_id);
    }

    /// List an item, in place of any other with its number.
    pub fn add_item(&mut self, item: PusItem)
        ensures
            final(self).items() == old(self).items().insert(item.id, item),
            final(self).categories() == old(self).categories(),
    {
        self.items.insert(item.id, item);
    }

    /// The listing of a number.
    pub fn get_item(&self, listing_id: i32) -> (r: Option<PusItem>)
        ensures
            r == (if self.items().contains_key(listing_id) {
                Some(self.items()[listing_id])
            } else {
                None
            }),
    {
        match self.items.get(&listing_id) {
            Some(item) => Some(*item),
            None => None,
        }
    }

    /// Whether a category is active.
    pub fn is_active(&self, category: i32) -> (r: bool)
        ensures
            r == self.categories().contains(category),
    {
        let mut i: usize = 0;
        while i < self.categories.len()
            invariant
                i <= self.categories@.len(),
                forall|k: int| 0 <= k < i ==> self.categories@[k] != category,
            decreases self.categories@.len() - i,
        {
            if self.categories[i] == category {
                assert(self.categories@[i as int] == category);
                return true;
            }
            i += 1;
        }
        false
    }
}

/// The price of a listing; one without a price is free.
pub open spec fn listing_price(item: PusItem) -> i32 {
    match item.price {
        Some(p) => p,
        None => 0i32,
    }
}

/// Whether a result is that of a purchase.
pub open spec fn is_purchase(
    r: Result<(i32, i32, i32, i16), &'static str>,
    items: Map<i32, PusItem>,
    categories: Seq<i32>,
    listing_id: i32,
) -> bool {
    let listed = items.contains_key(listing_id);
    let item = items[listing_id];
    let priced = listing_price(item) >= 0;
    let active = categories.contains(item.category);
    match r {
        Ok(bought) => listed && priced && active && bought == (
            item.item_id,
            item.buy_count,
            listing_price(item),
            item.price_type,
        ),
        Err(reason) => {
            ||| !listed && reason@ == "PUS item listing not found"@
            ||| listed && !priced && reason@ == "Invalid item price"@
            ||| listed && priced && !active && reason@ == "Item category is inactive"@
        },
    }
}

/// Validate a purchase: `Ok` is the item's number, how many are bought at once, the price and
/// its kind; `Err` is the reason against it.
pub fn validate_purchase(catalog: &PusCatalog, listing_id: i32) -> (r: Result<
    (i32, i32, i32, i16),
    &'static str,
>)
    ensures
        is_purchase(r, catalog.items(), catalog.categories(), listing_id),
{
    let item: PusItem = match catalog.get_item(listing_id) {
        Some(item) => item,
        None => {
            return Err("PUS item listing not found");
        },
    };
    let price: i32 = item.price.unwrap_or(0);
    if price < 0 {
        return Err("Invalid item price");
    }
    if !catalog.is_active(item.category) {
        return Err("Item category is inactive");
    }
    Ok((item.item_id, item.buy_count, price, item.price_type))
}

/// The bag always takes the same space on the wire, whatever is in it.
pub proof fn law_bag_size_is_fixed(inv: Seq<Slot>, n: nat)
    ensures
        bag_bytes(inv, n).len() == n * SLOT_BYTES,
    decreases n,
{
    if n > 0 {
        law_bag_size_is_fixed(inv, (n - 1) as nat);
    }
}

/// Filling a free slot makes the bag one slot fuller.
pub proof fn law_filled_slots_are_not_free(inv: Seq<Slot>, from: int, to: int, i: int, s: Slot)
    requires
        0 <= from <= i < to,
        i < inv.len(),
        inv[i].item_id == 0,
        s.item_id != 0,
    ensures
        free_slots_in(inv.update(i, s), from, to) == free_slots_in(inv, from, to) - 1,
    decreases to - from,
{
    if i == to - 1 {
        lemma_other_slots(inv, from, to - 1, i, s);
    } else {
        law_filled_slots_are_not_free(inv, from, to - 1, i, s);
    }
}

/// A slot outside of a range does not change how many are free in it.
proof fn lemma_other_slots(inv: Seq<Slot>, from: int, to: int, i: int, s: Slot)
    requires
        0 <= from,
        to <= i < inv.len(),
    ensures
        free_slots_in(inv.update(i, s), from, to) == free_slots_in(inv, from, to),
    decreases to - from,
{
    if from < to {
        lemma_other_slots(inv, from, to - 1, i, s);
    }
}

/// What store requests ask for: 1 opens, 2 closes, 6 asks for letters, and every other first
/// byte, no byte at all and the dead ask for nothing. What follows the first byte is not read.
pub proof fn law_what_store_requests_ask(dead: bool, payload: Seq<u8>, rest: Seq<u8>)
    requires
        payload.len() > 0,
    ensures
        store_request(dead, Seq::empty()) is Nothing,
        store_request(true, payload) is Nothing,
        store_request(false, payload) is Open <==> payload[0] == 1,
        store_request(false, payload) is Close <==> payload[0] == 2,
        store_request(false, payload) is Letter <==> payload[0] == 6,
        store_request(dead, payload + rest) == store_request(dead, payload),
{
}

/// Who may open the store: the living who neither trade nor sell nor have a genie fight for
/// them, outside of zones 40 to 45, with a free slot among the 28 that follow the 14 worn items.
/// What stands against it is told apart: 0xFFF7 for the player and 0xFFF8 for the bag.
pub proof fn law_who_opens_the_store(r: Result<i16, u16>, c: Customer, inv: Seq<Slot>)
    requires
        is_opening(r, c, inv),
    ensures
        ({
            let busy = c.dead || c.trading || c.merchanting || c.genie_active;
            let arena = match c.zone_id {
                Some(z) => z == 40 || z == 41 || z == 42 || z == 43 || z == 44 || z == 45,
                None => false,
            };
            let free = free_slots_in(inv, 14, 42);
            match r {
                Ok(n) => !busy && !arena && n >= 1 && n == free,
                Err(e) => (e == 0xFFF7 && (busy || arena)) || (e == 0xFFF8 && !busy && !arena
                    && free <= 0),
            }
        }),
{
}

/// Free slots add up: one more slot of a range counts where it is there and its item is 0.
pub proof fn law_free_slots_add_up(inv: Seq<Slot>, from: int, to: int)
    requires
        0 <= from <= to,
    ensures
        free_slots_in(inv, from, from) == 0,
        to < inv.len() && inv[to].item_id == 0 ==> free_slots_in(inv, from, to + 1)
            - free_slots_in(inv, from, to) == 1,
        to < inv.len() && inv[to].item_id != 0 ==> free_slots_in(inv, from, to + 1)
            == free_slots_in(inv, from, to),
        to >= inv.len() ==> free_slots_in(inv, from, to + 1) == free_slots_in(inv, from, to),
{
}

/// A slot on the wire: the item in four bytes, its durability and count in two each, its flag in
/// one, the minutes of its rental in two and its expiry in four.
pub proof fn law_slots_are_laid_out(s: Slot)
    ensures
        slot_bytes(s).len() == 15,
        slot_bytes(s).subrange(0, 4) == u32_bytes(s.item_id),
        slot_bytes(s).subrange(4, 6) == u16_bytes(s.durability as u16),
        slot_bytes(s).subrange(6, 8) == u16_bytes(s.count),
        slot_bytes(s)[8] == s.flag,
        slot_bytes(s).subrange(9, 11) == u16_bytes(s.rental_minutes),
        slot_bytes(s).subrange(11, 15) == u32_bytes(s.expire_time),
{
    assert(slot_bytes(s).subrange(0, 4) =~= u32_bytes(s.item_id));
    assert(slot_bytes(s).subrange(4, 6) =~= u16_bytes(s.durability as u16));
    assert(slot_bytes(s).subrange(6, 8) =~= u16_bytes(s.count));
    assert(slot_bytes(s).subrange(9, 11) =~= u16_bytes(s.rental_minutes));
    assert(slot_bytes(s).subrange(11, 15) =~= u32_bytes(s.expire_time));
}

/// Where a slot of the bag lies in it: each takes 15 bytes, in their order, the first of them
/// the one after the 14 worn items; one that is not there is all zeros.
pub proof fn law_the_bag_is_laid_out(inv: Seq<Slot>, n: nat, k: int)
    requires
        0 <= k < n,
    ensures
        bag_bytes(inv, n).len() == 15 * n,
        k + 14 < inv.len() ==> bag_bytes(inv, n).subrange(15 * k, 15 * k + 15) == slot_bytes(
            inv[k + 14],
        ),
        k + 14 >= inv.len() ==> bag_bytes(inv, n).subrange(15 * k, 15 * k + 15) == slot_bytes(
            Slot {
                item_id: 0,
                durability: 0,
                count: 0,
                flag: 0,
                rental_minutes: 0,
                expire_time: 0,
            },
        ),
    decreases n,
{
    law_bag_size_is_fixed(inv, n);
    law_bag_size_is_fixed(inv, (n - 1) as nat);
    let before = bag_bytes(inv, (n - 1) as nat);
    let own = slot_bytes(slot_at(inv, SLOT_MAX + n - 1));
    law_slots_are_laid_out(slot_at(inv, SLOT_MAX + n - 1));
    assert(bag_bytes(inv, n) == before + own);
    if k == n - 1 {
        assert((before + own).subrange(15 * k, 15 * k + 15) =~= own);
    } else {
        law_the_bag_is_laid_out(inv, (n - 1) as nat, k);
        assert((before + own).subrange(15 * k, 15 * k + 15) =~= before.subrange(
            15 * k,
            15 * k + 15,
        ));
    }
}

/// What the store answers: to an opening 1, then 1 and the free slots or else the error, each in
/// two bytes; to a closing 2 and then the 28 slots of the bag.
pub proof fn law_store_answers_are_laid_out(free: i16, error: u16, inv: Seq<Slot>)
    ensures
        opened_payload(free).len() == 5,
        opened_payload(free)[0] == 1,
        opened_payload(free).subrange(1, 3) == u16_bytes(1),
        opened_payload(free).subrange(3, 5) == u16_bytes(free as u16),
        refused_payload(error).len() == 3,
        refused_payload(error)[0] == 1,
        refused_payload(error).subrange(1, 3) == u16_bytes(error),
        closed_payload(inv).len() == 421,
        closed_payload(inv)[0] == 2,
        closed_payload(inv).subrange(1, 421) == bag_bytes(inv, 28),
{
    law_bag_size_is_fixed(inv, 28);
    assert(opened_payload(free).subrange(1, 3) =~= u16_bytes(1));
    assert(opened_payload(free).subrange(3, 5) =~= u16_bytes(free as u16));
    assert(refused_payload(error).subrange(1, 3) =~= u16_bytes(error));
    assert(closed_payload(inv).subrange(1, 421) =~= bag_bytes(inv, 28));
}

/// Which purchases are taken: those of a listing whose price is not negative and whose category
/// is active. What is bought is the listing's item, as many as it says, for its price and kind
/// of price; one without a price is free. No other listing matters.
pub proof fn law_which_purchases_are_taken(
    r: Result<(i32, i32, i32, i16), &'static str>,
    items: Map<i32, PusItem>,
    categories: Seq<i32>,
    listing_id: i32,
)
    requires
        is_purchase(r, items, categories, listing_id),
    ensures
        r is Ok <==> items.contains_key(listing_id) && !(items[listing_id].price is Some
            && items[listing_id].price->0 < 0) && categories.contains(items[listing_id].category),
        match r {
            Ok((item_id, count, price, kind)) => {
                let listing = items[listing_id];
                &&& item_id == listing.item_id
                &&& count == listing.buy_count
                &&& listing.price is Some ==> price == listing.price->0
                &&& listing.price is None ==> price == 0
                &&& kind == listing.price_type
            },
            Err(reason) => {
                &&& reason@ == "PUS item listing not found"@ || items.contains_key(listing_id)
                &&& items.contains_key(listing_id) && items[listing_id].price is Some
                    && items[listing_id].price->0 < 0 ==> reason@ == "Invalid item price"@
                &&& items.contains_key(listing_id) && !(items[listing_id].price is Some
                    && items[listing_id].price->0 < 0) ==> reason@
                    == "Item category is inactive"@
            },
        },
{
}

} // verus!
