//! Inventory and equipment broadcasting: the fixed equipment-slot mapping
//! and the translation of inventory update events into equipment and
//! set-slot packets. Recipients are resolved separately; these functions
//! produce the abstract packet payloads.

use vstd::prelude::*;
use crate::broadcast::{entity_broadcast_recipients, spec_entity_recipients, ClientView};

verus! {

/// The first hotbar slot of the player inventory window.
pub const SLOT_HOTBAR_OFFSET: usize = 36;

/// A stack of items in one inventory slot.
#[derive(Debug, Clone, Copy, PartialEq, Eq, Structural)]
pub struct ItemStack {
    pub item: u32,
    pub amount: u8,
}

/// An entity's inventory: one optional stack per window slot, plus the
/// hotbar index currently held in the main hand.
#[derive(Debug, Clone)]
pub struct EntityInventory {
    pub items: Vec<Option<ItemStack>>,
    pub held_item: usize,
}

/// The item stored at a slot; slots outside the window are empty, not an
/// error.
pub open spec fn spec_item_at(items: Seq<Option<ItemStack>>, slot: int) -> Option<ItemStack> {
    if 0 <= slot < items.len() {
        items[slot]
    } else {
        None
    }
}

impl EntityInventory {
    /// The hotbar index is one of the nine hotbar slots.
    pub open spec fn wf(&self) -> bool {
        self.held_item < 9
    }

    /// The item at the given window slot, if any; an out-of-window slot
    /// holds nothing.
    pub fn item_at(&self, slot: usize) -> (r: Option<ItemStack>)
        ensures
            r == spec_item_at(self.items@, slot as int),
    {
        if slot < self.items.len() {
            self.items[slot]
        } else {
            None
        }
    }
}

/// The closed enumeration of equipment positions an entity exposes.
#[derive(Debug, Clone, Copy, PartialEq, Eq, Structural)]
pub enum Equipment {
    MainHand,
    OffHand,
    Boots,
    Leggings,
    Chestplate,
    Helmet,
}

/// The inventory window slot that an equipment position reads from, given
/// the currently held hotbar index.
pub open spec fn spec_slot_index(e: Equipment, held: int) -> int {
    match e {
        Equipment::MainHand => 36 + held,
        Equipment::OffHand => 45,
        Equipment::Boots => 8,
        Equipment::Leggings => 7,
        Equipment::Chestplate => 6,
        Equipment::Helmet => 5,
    }
}

/// The wire identifier of an equipment position in an equipment packet.
pub open spec fn spec_equipment_id(e: Equipment) -> i32 {
    match e {
        Equipment::MainHand => 0,
        Equipment::OffHand => 1,
        Equipment::Boots => 2,
        Equipment::Leggings => 3,
        Equipment::Chestplate => 4,
        Equipment::Helmet => 5,
    }
}

/// The equipment position a fixed window slot maps back to, if any; hotbar
/// slots are not fixed equipment (the held one is resolved separately).
pub open spec fn spec_equipment_from_slot(slot: int) -> Option<Equipment> {
    if slot == 45 {
        Some(Equipment::OffHand)
    } else if slot == 8 {
        Some(Equipment::Boots)
    } else if slot == 7 {
        Some(Equipment::Leggings)
    } else if slot == 6 {
        Some(Equipment::Chestplate)
    } else if slot == 5 {
        Some(Equipment::Helmet)
    } else {
        None
    }
}

impl Equipment {
    /// The concrete inventory slot this equipment position reads from.
    pub fn slot_index(&self, held_item: usize) -> (s: usize)
        requires
            held_item < 9,
        ensures
            s as int == spec_slot_index(*self, held_item as int),
    {
        match self {
            Equipment::MainHand => SLOT_HOTBAR_OFFSET + held_item,
            Equipment::OffHand => 45,
            Equipment::Boots => 8,
            Equipment::Leggings => 7,
            Equipment::Chestplate => 6,
            Equipment::Helmet => 5,
        }
    }

    /// The wire identifier carried in equipment packets.
    pub fn to_id(&self) -> (r: i32)
        ensures
            r == spec_equipment_id(*self),
    {
        match self {
            Equipment::MainHand => 0,
            Equipment::OffHand => 1,
            Equipment::Boots => 2,
            Equipment::Leggings => 3,
            Equipment::Chestplate => 4,
            Equipment::Helmet => 5,
        }
    }

    /// The equipment position of a fixed window slot, if it is one.
    pub fn from_slot_index(slot: usize) -> (r: Option<Equipment>)
        ensures
            r == spec_equipment_from_slot(slot as int),
    {
        if slot == 45 {
            Some(Equipment::OffHand)
        } else if slot == 8 {
            Some(Equipment::Boots)
        } else if slot == 7 {
            Some(Equipment::Leggings)
        } else if slot == 6 {
            Some(Equipment::Chestplate)
        } else if slot == 5 {
            Some(Equipment::Helmet)
        } else {
            None
        }
    }
}

/// Whether a slot update is an equipment update, and of which position:
/// the currently held hotbar slot is the main hand, the fixed armor and
/// off-hand slots map back directly, and every other slot is no equipment.
pub open spec fn spec_is_equipment_update(held: int, slot: int) -> Result<Equipment, ()> {
    if slot >= 36 && slot - 36 == held {
        Ok(Equipment::MainHand)
    } else {
        match spec_equipment_from_slot(slot) {
            Some(e) => Ok(e),
            None => Err(()),
        }
    }
}

/// Returns whether the given update to an inventory slot is an equipment
/// update.
pub fn is_equipment_update(inv: &EntityInventory, slot: usize) -> (r: Result<Equipment, ()>)
    ensures
        r == spec_is_equipment_update(inv.held_item as int, slot as int),
{
    if slot >= SLOT_HOTBAR_OFFSET && slot - SLOT_HOTBAR_OFFSET == inv.held_item {
        Ok(Equipment::MainHand)
    } else {
        match Equipment::from_slot_index(slot) {
            Some(e) => Ok(e),
            None => Err(()),
        }
    }
}

/// An update to a set of inventory slots of one player entity.
#[derive(Debug, Clone)]
pub struct InventoryUpdateEvent {
    pub player: u64,
    pub slots: Vec<usize>,
}

/// The abstract payload of an entity equipment packet.
#[derive(Debug, Clone, Copy, PartialEq, Eq, Structural)]
pub struct EntityEquipmentPacket {
    pub entity_id: i32,
    pub slot: i32,
    pub item: Option<ItemStack>,
}

/// The abstract payload of a set-slot packet for the player's own window.
#[derive(Debug, Clone, Copy, PartialEq, Eq, Structural)]
pub struct SetSlotPacket {
    pub window_id: u8,
    pub slot: usize,
    pub item: Option<ItemStack>,
}

/// The equipment packet announcing what one equipment position holds.
pub open spec fn spec_equipment_packet(
    held: int,
    items: Seq<Option<ItemStack>>,
    e: Equipment,
    entity_id: i32,
) -> EntityEquipmentPacket {
    EntityEquipmentPacket {
        entity_id,
        slot: spec_equipment_id(e),
        item: spec_item_at(items, spec_slot_index(e, held)),
    }
}

/// The equipment packets of an inventory update: one per updated slot that
/// is an equipment slot, in update order; slots with no equipment mapping
/// produce nothing.
pub open spec fn spec_equipment_packets(
    held: int,
    items: Seq<Option<ItemStack>>,
    slots: Seq<usize>,
    entity_id: i32,
) -> Seq<EntityEquipmentPacket>
    decreases slots.len(),
{
    if slots.len() == 0 {
        Seq::<EntityEquipmentPacket>::empty()
    } else {
        let head = match spec_is_equipment_update(held, slots[0] as int) {
            Ok(e) => seq![spec_equipment_packet(held, items, e, entity_id)],
            Err(_) => Seq::<EntityEquipmentPacket>::empty(),
        };
        head + spec_equipment_packets(held, items, slots.drop_first(), entity_id)
    }
}

/// Translates an inventory update into the equipment packets to broadcast
/// for the affected entity: a slot that is no tracked equipment is
/// silently skipped, producing no packet.
#[verifier::loop_isolation(false)]
pub fn on_inventory_update_broadcast_equipment_update(
    inv: &EntityInventory,
    event: &InventoryUpdateEvent,
    entity_id: i32,
) -> (r: Vec<EntityEquipmentPacket>)
    requires
        inv.wf(),
    ensures
        r@ == spec_equipment_packets(inv.held_item as int, inv.items@, event.slots@, entity_id),
{
    let ghost full = spec_equipment_packets(
        inv.held_item as int,
        inv.items@,
        event.slots@,
        entity_id,
    );
    let mut out: Vec<EntityEquipmentPacket> = Vec::new();
    proof {
        assert(out@ + full =~= full);
        assert(event.slots@.subrange(0, event.slots@.len() as int) =~= event.slots@);
    }
    let mut i: usize = 0;
    while i < event.slots.len()
        invariant
            i <= event.slots.len(),
            full == out@ + spec_equipment_packets(
                inv.held_item as int,
                inv.items@,
                event.slots@.subrange(i as int, event.slots@.len() as int),
                entity_id,
            ),
        decreases event.slots.len() - i,
    {
        let ghost suffix = event.slots@.subrange(i as int, event.slots@.len() as int);
        proof {
            assert(suffix[0] == event.slots@[i as int]);
            assert(suffix.drop_first() =~= event.slots@.subrange(
                i as int + 1,
                event.slots@.len() as int,
            ));
        }
        let slot = event.slots[i];
        if let Ok(equipment) = is_equipment_update(inv, slot) {
            let packet_slot = equipment.to_id();
            let item = inv.item_at(equipment.slot_index(inv.held_item));
            let p = EntityEquipmentPacket { entity_id, slot: packet_slot, item };
            out.push(p);
            proof {
                assert(out@.drop_last() + seq![p] =~= out@);
                assert((out@.drop_last() + seq![p]) + spec_equipment_packets(
                    inv.held_item as int,
                    inv.items@,
                    suffix.drop_first(),
                    entity_id,
                ) =~= out@.drop_last() + (seq![p] + spec_equipment_packets(
                    inv.held_item as int,
                    inv.items@,
                    suffix.drop_first(),
                    entity_id,
                )));
            }
        } else {
            proof {
                assert(Seq::<EntityEquipmentPacket>::empty() + spec_equipment_packets(
                    inv.held_item as int,
                    inv.items@,
                    suffix.drop_first(),
                    entity_id,
                ) =~= spec_equipment_packets(
                    inv.held_item as int,
                    inv.items@,
                    suffix.drop_first(),
                    entity_id,
                ));
            }
        }
        i = i + 1;
    }
    out
}

/// The fixed order equipment is sent in when an entity is first shown to a
/// client.
pub open spec fn spec_all_equipment_packets(
    held: int,
    items: Seq<Option<ItemStack>>,
    entity_id: i32,
) -> Seq<EntityEquipmentPacket> {
    seq![
        spec_equipment_packet(held, items, Equipment::MainHand, entity_id),
        spec_equipment_packet(held, items, Equipment::Boots, entity_id),
        spec_equipment_packet(held, items, Equipment::Leggings, entity_id),
        spec_equipment_packet(held, items, Equipment::Chestplate, entity_id),
        spec_equipment_packet(held, items, Equipment::Helmet, entity_id),
        spec_equipment_packet(held, items, Equipment::OffHand, entity_id),
    ]
}

/// The packets that send an entity's whole equipment to one client, in the
/// fixed order main hand, boots, leggings, chestplate, helmet, off hand.
/// The caller checks that both entities are still alive and that the
/// entity has an inventory before sending.
pub fn on_entity_send_send_equipment(inv: &EntityInventory, entity_id: i32) -> (r: Vec<
    EntityEquipmentPacket,
>)
    requires
        inv.wf(),
    ensures
        r@ == spec_all_equipment_packets(inv.held_item as int, inv.items@, entity_id),
{
    let equipments = [
        Equipment::MainHand,
        Equipment::Boots,
        Equipment::Leggings,
        Equipment::Chestplate,
        Equipment::Helmet,
        Equipment::OffHand,
    ];
    let mut out: Vec<EntityEquipmentPacket> = Vec::new();
    let mut i: usize = 0;
    while i < 6
        invariant
            i <= 6,
            inv.wf(),
            equipments@ == seq![
                Equipment::MainHand,
                Equipment::Boots,
                Equipment::Leggings,
                Equipment::Chestplate,
                Equipment::Helmet,
                Equipment::OffHand,
            ],
            out@ == spec_all_equipment_packets(
                inv.held_item as int,
                inv.items@,
                entity_id,
            ).subrange(0, i as int),
        decreases 6 - i,
    {
        let equipment = equipments[i];
        let item = inv.item_at(equipment.slot_index(inv.held_item));
        let equipment_slot = equipment.to_id();
        let p = EntityEquipmentPacket { entity_id, slot: equipment_slot, item };
        out.push(p);
        proof {
            let all = spec_all_equipment_packets(inv.held_item as int, inv.items@, entity_id);
            assert(all.subrange(0, i as int).push(all[i as int]) =~= all.subrange(
                0,
                i as int + 1,
            ));
        }
        i = i + 1;
    }
    proof {
        let all = spec_all_equipment_packets(inv.held_item as int, inv.items@, entity_id);
        assert(all.subrange(0, 6) =~= all);
    }
    out
}

/// The set-slot packets that mirror an inventory update back to the owning
/// client's own window: one per updated slot, in update order.
#[verifier::loop_isolation(false)]
pub fn on_inventory_update_send_set_slot(inv: &EntityInventory, event: &InventoryUpdateEvent) -> (r:
    Vec<SetSlotPacket>)
    ensures
        r@.len() == event.slots@.len(),
        forall|j: int|
            0 <= j < r@.len() ==> #[trigger] r@[j] == (SetSlotPacket {
                window_id: 0,
                slot: event.slots@[j],
                item: spec_item_at(inv.items@, event.slots@[j] as int),
            }),
{
    let mut out: Vec<SetSlotPacket> = Vec::new();
    let mut i: usize = 0;
    while i < event.slots.len()
        invariant
            i <= event.slots.len(),
            out@.len() == i,
            forall|j: int|
                0 <= j < i ==> #[trigger] out@[j] == (SetSlotPacket {
                    window_id: 0,
                    slot: event.slots@[j],
                    item: spec_item_at(inv.items@, event.slots@[j] as int),
                }),
        decreases event.slots.len() - i,
    {
        let slot = event.slots[i];
        out.push(SetSlotPacket { window_id: 0, slot, item: inv.item_at(slot) });
        i = i + 1;
    }
    out
}

/// Law: an updated slot equal to the held hotbar slot yields exactly one
/// equipment packet, the main-hand one; an updated slot with no equipment
/// mapping yields no equipment packet at all.
pub proof fn lemma_equipment_update_per_slot(
    held: int,
    items: Seq<Option<ItemStack>>,
    slot: usize,
    entity_id: i32,
)
    requires
        0 <= held < 9,
    ensures
        slot as int == held + 36 ==> spec_equipment_packets(held, items, seq![slot], entity_id)
            == seq![spec_equipment_packet(held, items, Equipment::MainHand, entity_id)],
        spec_is_equipment_update(held, slot as int) is Err ==> spec_equipment_packets(
            held,
            items,
            seq![slot],
            entity_id,
        ) == Seq::<EntityEquipmentPacket>::empty(),
{
    let s = seq![slot];
    assert(s.len() == 1);
    assert(s[0] == slot);
    assert(s.drop_first() =~= Seq::<usize>::empty());
    assert(spec_equipment_packets(held, items, Seq::<usize>::empty(), entity_id) =~= Seq::<
        EntityEquipmentPacket,
    >::empty());
    if slot as int == held + 36 {
        assert(spec_is_equipment_update(held, slot as int) == Ok::<Equipment, ()>(
            Equipment::MainHand,
        ));
        assert(spec_equipment_packets(held, items, s, entity_id) =~= seq![
            spec_equipment_packet(held, items, Equipment::MainHand, entity_id),
        ]);
    }
    if spec_is_equipment_update(held, slot as int) is Err {
        assert(spec_equipment_packets(held, items, s, entity_id) =~= Seq::<
            EntityEquipmentPacket,
        >::empty());
    }
}


/// The slots of an update that map to equipment, in update order.
pub open spec fn spec_ok_slots(held: int, slots: Seq<usize>) -> Seq<usize> {
    slots.filter(|s: usize| spec_is_equipment_update(held, s as int) is Ok)
}

/// Law: an inventory update produces exactly one equipment packet per
/// updated slot that maps to equipment — in update order, each announcing
/// that slot's equipment position — and none for any slot without a
/// mapping.
pub proof fn lemma_one_packet_per_equipment_slot(
    held: int,
    items: Seq<Option<ItemStack>>,
    slots: Seq<usize>,
    entity_id: i32,
)
    ensures
        ({
            let packets = spec_equipment_packets(held, items, slots, entity_id);
            let ok = spec_ok_slots(held, slots);
            &&& packets.len() == ok.len()
            &&& forall|i: int|
                0 <= i < packets.len() ==> #[trigger] packets[i] == spec_equipment_packet(
                    held,
                    items,
                    spec_is_equipment_update(held, ok[i] as int)->Ok_0,
                    entity_id,
                )
        }),
    decreases slots.len(),
{
    reveal_with_fuel(Seq::filter, 3);
    let pred = |s: usize| spec_is_equipment_update(held, s as int) is Ok;
    if slots.len() == 0 {
        assert(slots.filter(pred) =~= Seq::<usize>::empty());
    } else {
        let head = seq![slots[0]];
        let tail = slots.drop_first();
        lemma_one_packet_per_equipment_slot(held, items, tail, entity_id);
        assert(slots =~= head + tail);
        Seq::filter_distributes_over_add(head, tail, pred);
        assert(head.drop_last() =~= Seq::<usize>::empty());
        let packets = spec_equipment_packets(held, items, slots, entity_id);
        let tail_packets = spec_equipment_packets(held, items, tail, entity_id);
        let ok = slots.filter(pred);
        let tail_ok = tail.filter(pred);
        if pred(slots[0]) {
            assert(head.filter(pred) =~= seq![slots[0]]);
            assert(ok =~= seq![slots[0]] + tail_ok);
            assert(packets == seq![
                spec_equipment_packet(
                    held,
                    items,
                    spec_is_equipment_update(held, slots[0] as int)->Ok_0,
                    entity_id,
                ),
            ] + tail_packets);
            assert forall|i: int| 0 <= i < packets.len() implies #[trigger] packets[i]
                == spec_equipment_packet(
                held,
                items,
                spec_is_equipment_update(held, ok[i] as int)->Ok_0,
                entity_id,
            ) by {
                if i > 0 {
                    assert(packets[i] == tail_packets[i - 1]);
                    assert(ok[i] == tail_ok[i - 1]);
                }
            }
        } else {
            assert(head.filter(pred) =~= Seq::<usize>::empty());
            assert(ok =~= tail_ok);
            assert(packets == Seq::<EntityEquipmentPacket>::empty() + tail_packets);
            assert(packets =~= tail_packets);
        }
    }
}

/// An equipment update as it goes out on the wire: the packets of the
/// updated slots, paired with the entity-scoped recipients — every client
/// that has the player's entity visible, excluding the originating player
/// itself, so a client never receives the echo of its own equipment
/// change.
pub fn broadcast_equipment_update(
    clients: &Vec<ClientView>,
    inv: &EntityInventory,
    event: &InventoryUpdateEvent,
    entity_id: i32,
) -> (r: (Vec<EntityEquipmentPacket>, Vec<u64>))
    requires
        inv.wf(),
    ensures
        r.0@ == spec_equipment_packets(inv.held_item as int, inv.items@, event.slots@, entity_id),
        r.1@ == spec_entity_recipients(clients@, event.player, Some(event.player)),
{
    let packets = on_inventory_update_broadcast_equipment_update(inv, event, entity_id);
    let recipients = entity_broadcast_recipients(clients, event.player, Some(event.player));
    (packets, recipients)
}

} // verus!
