use sim_core::broadcast::{
    chunk_broadcast_recipients, chunk_of_block, entity_broadcast_recipients,
    global_broadcast_recipients, on_block_update_broadcast, BlockPosition, ClientView,
};
use sim_core::chunk_entities::ChunkPos;
use sim_core::inventory::{
    broadcast_equipment_update, is_equipment_update, on_entity_send_send_equipment,
    on_inventory_update_broadcast_equipment_update, on_inventory_update_send_set_slot,
    EntityInventory, Equipment, InventoryUpdateEvent, ItemStack, SLOT_HOTBAR_OFFSET,
};

fn client(id: u64, chunks: Vec<ChunkPos>, entities: Vec<u64>) -> ClientView {
    ClientView { id, loaded_chunks: chunks, visible_entities: entities }
}

fn inventory_with(held_item: usize, filled: &[(usize, u32)]) -> EntityInventory {
    let mut items: Vec<Option<ItemStack>> = vec![None; 46];
    for (slot, item) in filled {
        items[*slot] = Some(ItemStack { item: *item, amount: 1 });
    }
    EntityInventory { items, held_item }
}

#[test]
fn block_position_maps_to_containing_chunk() {
    assert_eq!(
        chunk_of_block(BlockPosition { x: 0, y: 64, z: 0 }),
        ChunkPos { x: 0, z: 0 }
    );
    assert_eq!(
        chunk_of_block(BlockPosition { x: 15, y: 64, z: 31 }),
        ChunkPos { x: 0, z: 1 }
    );
    assert_eq!(
        chunk_of_block(BlockPosition { x: -1, y: 64, z: -16 }),
        ChunkPos { x: -1, z: -1 }
    );
    assert_eq!(
        chunk_of_block(BlockPosition { x: -17, y: 0, z: 16 }),
        ChunkPos { x: -2, z: 1 }
    );
}

#[test]
fn block_update_reaches_observers_of_the_chunk() {
    let c00 = ChunkPos { x: 0, z: 0 };
    let c10 = ChunkPos { x: 1, z: 0 };
    let clients = vec![
        client(1, vec![c00], vec![]),
        client(2, vec![c10], vec![]),
        client(3, vec![c00, c10], vec![]),
    ];
    let pos = BlockPosition { x: 3, y: 70, z: 12 };
    let (packet, recipients) = on_block_update_broadcast(&clients, pos, 900);
    assert_eq!(packet.location, pos);
    assert_eq!(packet.block_id, 900);
    assert_eq!(recipients, vec![1, 3]);
}

#[test]
fn chunk_broadcast_can_exclude_one_client() {
    let c = ChunkPos { x: 5, z: 5 };
    let clients = vec![client(1, vec![c], vec![]), client(2, vec![c], vec![])];
    assert_eq!(chunk_broadcast_recipients(&clients, c, Some(1)), vec![2]);
    assert_eq!(chunk_broadcast_recipients(&clients, c, None), vec![1, 2]);
}

#[test]
fn entity_broadcast_selects_watchers() {
    let clients = vec![
        client(1, vec![], vec![40, 41]),
        client(2, vec![], vec![41]),
        client(3, vec![], vec![]),
    ];
    assert_eq!(entity_broadcast_recipients(&clients, 41, None), vec![1, 2]);
    assert_eq!(entity_broadcast_recipients(&clients, 41, Some(2)), vec![1]);
    assert_eq!(entity_broadcast_recipients(&clients, 99, None), Vec::<u64>::new());
}

#[test]
fn global_broadcast_selects_everyone_but_excluded() {
    let clients = vec![
        client(8, vec![], vec![]),
        client(9, vec![], vec![]),
    ];
    assert_eq!(global_broadcast_recipients(&clients, None), vec![8, 9]);
    assert_eq!(global_broadcast_recipients(&clients, Some(9)), vec![8]);
}

#[test]
fn equipment_mapping_resolves_slots() {
    assert_eq!(Equipment::MainHand.slot_index(4), SLOT_HOTBAR_OFFSET + 4);
    assert_eq!(Equipment::OffHand.slot_index(0), 45);
    assert_eq!(Equipment::Boots.slot_index(0), 8);
    assert_eq!(Equipment::Leggings.slot_index(0), 7);
    assert_eq!(Equipment::Chestplate.slot_index(0), 6);
    assert_eq!(Equipment::Helmet.slot_index(0), 5);
    assert_eq!(Equipment::from_slot_index(5), Some(Equipment::Helmet));
    assert_eq!(Equipment::from_slot_index(45), Some(Equipment::OffHand));
    assert_eq!(Equipment::from_slot_index(20), None);
}

#[test]
fn held_slot_update_produces_exactly_one_main_hand_packet() {
    let inv = inventory_with(2, &[(SLOT_HOTBAR_OFFSET + 2, 77)]);
    let event = InventoryUpdateEvent { player: 50, slots: vec![SLOT_HOTBAR_OFFSET + 2] };
    let packets = on_inventory_update_broadcast_equipment_update(&inv, &event, 50);
    assert_eq!(packets.len(), 1);
    assert_eq!(packets[0].slot, 0);
    assert_eq!(packets[0].entity_id, 50);
    assert_eq!(packets[0].item, Some(ItemStack { item: 77, amount: 1 }));
}

#[test]
fn unmapped_slot_produces_no_equipment_packet() {
    let inv = inventory_with(0, &[(20, 3)]);
    let event = InventoryUpdateEvent { player: 50, slots: vec![20] };
    let packets = on_inventory_update_broadcast_equipment_update(&inv, &event, 50);
    assert!(packets.is_empty());
}

#[test]
fn mixed_slots_produce_packets_only_for_equipment() {
    let inv = inventory_with(0, &[(5, 11), (20, 3)]);
    let event = InventoryUpdateEvent { player: 1, slots: vec![5, 20, 45] };
    let packets = on_inventory_update_broadcast_equipment_update(&inv, &event, 1);
    assert_eq!(packets.len(), 2);
    assert_eq!(packets[0].slot, 5);
    assert_eq!(packets[0].item, Some(ItemStack { item: 11, amount: 1 }));
    assert_eq!(packets[1].slot, 1);
    assert_eq!(packets[1].item, None);
}

#[test]
fn is_equipment_update_classifies() {
    let inv = inventory_with(3, &[]);
    assert_eq!(is_equipment_update(&inv, SLOT_HOTBAR_OFFSET + 3), Ok(Equipment::MainHand));
    assert_eq!(is_equipment_update(&inv, 8), Ok(Equipment::Boots));
    assert_eq!(is_equipment_update(&inv, SLOT_HOTBAR_OFFSET + 1), Err(()));
    assert_eq!(is_equipment_update(&inv, 0), Err(()));
}

#[test]
fn entity_send_sends_all_six_slots() {
    let inv = inventory_with(1, &[(SLOT_HOTBAR_OFFSET + 1, 500), (5, 600)]);
    let packets = on_entity_send_send_equipment(&inv, 123);
    assert_eq!(packets.len(), 6);
    // main hand, boots, leggings, chestplate, helmet, off hand
    assert_eq!(packets[0].slot, 0);
    assert_eq!(packets[0].item, Some(ItemStack { item: 500, amount: 1 }));
    assert_eq!(packets[1].slot, 2);
    assert_eq!(packets[4].slot, 5);
    assert_eq!(packets[4].item, Some(ItemStack { item: 600, amount: 1 }));
    assert_eq!(packets[5].slot, 1);
    assert!(packets.iter().all(|p| p.entity_id == 123));
}

#[test]
fn set_slot_mirrors_every_updated_slot() {
    let inv = inventory_with(0, &[(10, 4)]);
    let event = InventoryUpdateEvent { player: 2, slots: vec![10, 11, 100] };
    let packets = on_inventory_update_send_set_slot(&inv, &event);
    assert_eq!(packets.len(), 3);
    assert_eq!(packets[0].window_id, 0);
    assert_eq!(packets[0].slot, 10);
    assert_eq!(packets[0].item, Some(ItemStack { item: 4, amount: 1 }));
    assert_eq!(packets[1].item, None);
    // A slot outside the window holds nothing rather than failing.
    assert_eq!(packets[2].slot, 100);
    assert_eq!(packets[2].item, None);
}

#[test]
fn equipment_broadcast_excludes_the_originating_player() {
    // Client 7 is the player whose equipment changed; clients 7 and 8 both
    // have the entity visible, client 9 does not.
    let clients = vec![
        client(7, vec![], vec![7]),
        client(8, vec![], vec![7]),
        client(9, vec![], vec![]),
    ];
    let inv = inventory_with(0, &[(SLOT_HOTBAR_OFFSET, 42)]);
    let event = InventoryUpdateEvent { player: 7, slots: vec![SLOT_HOTBAR_OFFSET] };
    let (packets, recipients) = broadcast_equipment_update(&clients, &inv, &event, 7);
    assert_eq!(packets.len(), 1);
    assert_eq!(packets[0].slot, 0);
    assert_eq!(recipients, vec![8], "the originator must not receive its own echo");
}
