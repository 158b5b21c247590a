use heat_city::sprites::{
    generate_asphalt_tile, generate_building_tile, generate_character, generate_character_sized, generate_grass_tile,
    generate_npc, generate_player, generate_police, generate_sidewalk_tile, generate_vehicle,
    generate_water_tile, Canvas,
};

/// The three shades a vehicle is painted in, from a colour with channels
/// in 0.0..=1.0: full, half, and 1.15 times brighter (capped).
fn vehicle_shades(color: [f32; 3]) -> ([u8; 3], [u8; 3], [u8; 3]) {
    let body = [
        (color[0] * 255.0) as u8,
        (color[1] * 255.0) as u8,
        (color[2] * 255.0) as u8,
    ];
    let dark = [
        (color[0] * 255.0 * 0.5) as u8,
        (color[1] * 255.0 * 0.5) as u8,
        (color[2] * 255.0 * 0.5) as u8,
    ];
    let highlight = [
        (color[0] * 255.0 * 1.15).min(255.0) as u8,
        (color[1] * 255.0 * 1.15).min(255.0) as u8,
        (color[2] * 255.0 * 1.15).min(255.0) as u8,
    ];
    (body, dark, highlight)
}

fn px(img: &Canvas, x: u32, y: u32) -> (u8, u8, u8, u8) {
    img.pixel(x, y).unwrap()
}

#[test]
fn character_sprite_has_pixels() {
    let img = generate_player();
    assert!(img.width() == 32);
    assert!(img.height() == 32);
    let non_empty = img.pixels().iter().filter(|p| p.3 > 0).count();
    assert!(non_empty > 50, "sprite should have visible pixels");
}

#[test]
fn vehicle_has_windows() {
    let (body, dark, highlight) = vehicle_shades([0.8, 0.2, 0.2]);
    let img = generate_vehicle(48, 32, body, dark, highlight);
    let windows = img
        .pixels()
        .iter()
        .filter(|p| p.0 == 40 && p.1 == 50 && p.2 == 70)
        .count();
    assert!(windows > 0);
}

#[test]
fn integer_shades_match_float_scaling() {
    for c in 0..=255u8 {
        assert_eq!((c as f32 * 0.6) as u8, (c as u32 * 3 / 5) as u8);
        assert_eq!((c as f32 * 0.5) as u8, (c as u32 / 2) as u8);
        assert_eq!((c as f32 * 0.8) as u8, (c as u32 * 4 / 5) as u8);
    }
}

#[test]
fn player_sprite_layers() {
    let img = generate_player();
    // Accent patch on the chest, drawn last.
    assert_eq!(px(&img, 14, 14), (80, 140, 220, 255));
    // Head centre.
    assert_eq!(px(&img, 16, 9), (210, 180, 140, 255));
    // Left border of the body, below the shoulder: 3/5 of the jacket.
    assert_eq!(px(&img, 11, 24), (36, 42, 54, 255));
    // Left shoulder: 4/5 of the jacket.
    assert_eq!(px(&img, 10, 14), (48, 56, 72, 255));
    // Gun in front of the body.
    assert_eq!(px(&img, 21, 15), (40, 40, 40, 255));
    // Drop shadow below the body.
    assert_eq!(px(&img, 16, 29), (0, 0, 0, 60));
    // Corner stays empty.
    assert_eq!(px(&img, 0, 0), (0, 0, 0, 0));
    assert_eq!(img.pixel(32, 0), None);
    assert_eq!(img.pixels().len(), 32 * 32);
}

#[test]
fn npc_and_police_sprites() {
    let npc = generate_npc([100, 20, 20]);
    assert_eq!((npc.width(), npc.height()), (24, 24));
    // size 24: body at (8, 8), 8 x 12; accent at (10, 10), 4 x 3.
    assert_eq!(px(&npc, 10, 10), (120, 120, 120, 255));
    // No gun on an unarmed civilian: the body colour shows there.
    assert_eq!(px(&npc, 14, 13), (100, 20, 20, 255));
    let police = generate_police();
    assert_eq!((police.width(), police.height()), (24, 32));
    // 24 x 32: badge at (10, 14), 4 x 4; pistol at (14, 15), 4 x 3.
    assert_eq!(px(&police, 10, 14), (255, 200, 0, 255));
    assert_eq!(px(&police, 17, 15), (40, 40, 40, 255));
    assert_eq!(police.pixels().len(), 24 * 32);
}

#[test]
fn sized_character_matches_square_one() {
    let square = generate_character([10, 20, 30], [40, 50, 60], [70, 80, 90], true, 30);
    let sized = generate_character_sized([10, 20, 30], [40, 50, 60], [70, 80, 90], true, 30, 30);
    assert_eq!(square.pixels(), sized.pixels());
    let tall = generate_character_sized([10, 20, 30], [40, 50, 60], [70, 80, 90], false, 12, 40);
    assert_eq!((tall.width(), tall.height()), (12, 40));
}

#[test]
fn character_of_odd_size() {
    let img = generate_character([10, 20, 30], [40, 50, 60], [70, 80, 90], false, 7);
    assert_eq!((img.width(), img.height()), (7, 7));
    assert_eq!(img.pixels().len(), 49);
}

#[test]
fn vehicle_layers() {
    let img = generate_vehicle(48, 32, [200, 50, 50], [100, 25, 25], [230, 57, 57]);
    assert_eq!((img.width(), img.height()), (48, 32));
    // Bumper.
    assert_eq!(px(&img, 20, 1), (200, 200, 200, 255));
    // Front-left wheel.
    assert_eq!(px(&img, 0, 3), (25, 25, 30, 255));
    // Window pane centre and its frame.
    assert_eq!(px(&img, 24, 16), (40, 50, 70, 255));
    assert_eq!(px(&img, 11, 16), (60, 70, 90, 255));
    // Chassis between window and border.
    assert_eq!(px(&img, 5, 16), (200, 50, 50, 255));
    // Left border of the chassis.
    assert_eq!(px(&img, 2, 16), (100, 25, 25, 255));
    // Bonnet.
    assert_eq!(px(&img, 24, 4), (100, 25, 25, 255));
}

#[test]
fn asphalt_tile_grain_and_centre_line() {
    let img = generate_asphalt_tile(32);
    assert_eq!(px(&img, 15, 0), (180, 160, 40, 255));
    assert_eq!(px(&img, 16, 31), (180, 160, 40, 255));
    assert_eq!(px(&img, 0, 0), (30, 30, 35, 255));
    // (7 * 0 + 13 * 1) % 7 = 6: two shades lighter.
    assert_eq!(px(&img, 0, 1), (32, 32, 37, 255));
    // (13 * 2) % 7 = 5: one shade lighter.
    assert_eq!(px(&img, 3, 2), (31, 31, 36, 255));
}

#[test]
fn sidewalk_tile_joints() {
    let img = generate_sidewalk_tile(32);
    assert_eq!(px(&img, 0, 5), (70, 70, 75, 255));
    assert_eq!(px(&img, 5, 16), (70, 70, 75, 255));
    assert_eq!(px(&img, 5, 5), (90, 90, 95, 255));
}

#[test]
fn building_tile_bricks_and_windows() {
    let img = generate_building_tile(32);
    assert_eq!(px(&img, 0, 0), (35, 30, 25, 255));
    assert_eq!(px(&img, 0, 1), (70, 55, 45, 255));
    assert_eq!(px(&img, 15, 1), (50, 45, 40, 255));
    assert_eq!(px(&img, 0, 7), (50, 45, 40, 255));
    // Second course is shifted by half a brick.
    assert_eq!(px(&img, 3, 9), (50, 45, 40, 255));
    assert_eq!(px(&img, 24, 9), (70, 55, 45, 255));
    // Windows at 8 and 32 * 3 / 4 - 6 = 18.
    assert_eq!(px(&img, 8, 8), (40, 50, 70, 255));
    assert_eq!(px(&img, 18, 18), (40, 50, 70, 255));
    assert_eq!(px(&img, 23, 23), (40, 50, 70, 255));
}

#[test]
fn grass_and_water_tiles_are_solid() {
    let grass = generate_grass_tile(16);
    assert!(grass.pixels().iter().all(|p| *p == (40, 80, 35, 255)));
    let water = generate_water_tile(16);
    assert!(water.pixels().iter().all(|p| *p == (30, 50, 90, 255)));
}

#[test]
fn png_bytes_decode_to_their_pixels() {
    let mut img = image::RgbaImage::new(3, 2);
    img.put_pixel(2, 1, image::Rgba([10, 20, 30, 255]));
    img.put_pixel(0, 0, image::Rgba([200, 100, 50, 128]));
    let mut bytes: Vec<u8> = Vec::new();
    img.write_to(&mut std::io::Cursor::new(&mut bytes), image::ImageFormat::Png).unwrap();
    let canvas = Canvas::decode(&bytes).expect("a PNG decodes");
    assert_eq!((canvas.width(), canvas.height()), (3, 2));
    assert_eq!(px(&canvas, 2, 1), (10, 20, 30, 255));
    assert_eq!(px(&canvas, 0, 0), (200, 100, 50, 128));
    assert_eq!(px(&canvas, 1, 1), (0, 0, 0, 0));
}

#[test]
fn bytes_that_are_no_image_do_not_decode() {
    assert!(Canvas::decode(b"not an image at all").is_none());
    assert!(Canvas::decode(&[]).is_none());
}
