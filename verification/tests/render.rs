use heat_city::engine::Handle;
use heat_city::render::{plan_batches, DrawGroup, SpriteKey};

fn key(texture: u32, layer: i32, has_texture: bool) -> SpriteKey {
    SpriteKey { texture: Handle { id: texture }, layer, has_texture }
}

fn group(texture: u32, index_start: u32, index_count: u32) -> DrawGroup {
    DrawGroup { texture: Handle { id: texture }, index_start, index_count }
}

#[test]
fn sprites_are_drawn_by_layer_then_texture() {
    let keys = vec![key(2, 20, true), key(1, 20, true), key(1, 0, true), key(9, 20, false), key(1, 20, true)];
    let plan = plan_batches(&keys);
    assert_eq!(plan.order, vec![2, 1, 4, 0, 3]);
    assert_eq!(plan.groups, vec![group(1, 0, 18), group(2, 18, 6)]);
    assert_eq!(
        plan.indices,
        vec![0, 1, 2, 0, 2, 3, 4, 5, 6, 4, 6, 7, 8, 9, 10, 8, 10, 11, 12, 13, 14, 12, 14, 15]
    );
}

#[test]
fn untextured_sprite_splits_a_draw_call() {
    let keys = vec![key(1, 0, true), key(1, 0, false), key(1, 0, true)];
    let plan = plan_batches(&keys);
    assert_eq!(plan.order, vec![0, 1, 2]);
    assert_eq!(plan.groups, vec![group(1, 0, 6), group(1, 6, 6)]);
    assert_eq!(plan.indices.len(), 12);
}

#[test]
fn nothing_to_draw_gives_an_empty_plan() {
    let plan = plan_batches(&Vec::new());
    assert!(plan.order.is_empty() && plan.groups.is_empty() && plan.indices.is_empty());
    let plan = plan_batches(&vec![key(3, 5, false), key(3, 1, false)]);
    assert_eq!(plan.order, vec![1, 0]);
    assert!(plan.groups.is_empty() && plan.indices.is_empty());
}

#[test]
fn vertex_numbers_wrap_at_sixteen_bits() {
    let keys = vec![key(7, 0, true); 16385];
    let plan = plan_batches(&keys);
    assert_eq!(plan.indices.len(), 6 * 16385);
    assert_eq!(&plan.indices[6 * 16383..6 * 16383 + 6], &[65532, 65533, 65534, 65532, 65534, 65535]);
    assert_eq!(&plan.indices[6 * 16384..], &[0, 1, 2, 0, 2, 3]);
    assert_eq!(plan.groups, vec![group(7, 0, 6 * 16385)]);
}

#[test]
fn draw_calls_cover_the_index_buffer_in_turn() {
    let keys = vec![key(4, 1, true), key(2, 1, true), key(4, 0, true), key(2, 1, true), key(5, 1, false), key(3, 2, true)];
    let plan = plan_batches(&keys);
    let mut next = 0;
    for g in &plan.groups {
        assert_eq!(g.index_start, next);
        assert!(g.index_count > 0);
        next += g.index_count;
    }
    assert_eq!(next as usize, plan.indices.len());
    assert_eq!(plan.groups, vec![group(4, 0, 6), group(2, 6, 12), group(4, 18, 6), group(3, 24, 6)]);
}

#[test]
fn each_draw_call_uses_its_sprites_texture() {
    let keys = vec![key(4, 1, true), key(2, 1, true), key(4, 0, true), key(2, 1, true), key(5, 1, false), key(3, 2, true)];
    let plan = plan_batches(&keys);
    let drawn: Vec<usize> = plan.order.iter().copied().filter(|&p| keys[p].has_texture).collect();
    assert_eq!(drawn, vec![2, 1, 3, 0, 5]);
    for g in &plan.groups {
        for q in (g.index_start / 6)..((g.index_start + g.index_count) / 6) {
            assert_eq!(keys[drawn[q as usize]].texture, g.texture);
        }
    }
}
