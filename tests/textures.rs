use oml_game_egui::registry::{TextureCommand, TextureIdMap, TextureSkip};
use oml_game_egui::texture::{texels_from_image, Image, Texel, TextureDelta, TextureId};

fn coverage_delta(id: TextureId, pos: Option<[u32; 2]>, w: u32, h: u32, px: Vec<u8>) -> TextureDelta {
    TextureDelta { id, pos, image: Image::coverage(w, h, px).unwrap() }
}

#[test]
fn coverage_image_expands_to_premultiplied_gray() {
    let d = coverage_delta(TextureId::Managed(3), None, 2, 2, vec![0, 64, 128, 255]);
    let map = TextureIdMap::new();
    match map.command(&d) {
        TextureCommand::Create { id, name, size, width, height, texels } => {
            assert_eq!(id, 3);
            assert_eq!(name, "egui-3");
            assert_eq!((size, width, height), (2, 2, 2));
            let bytes: Vec<[u8; 4]> = texels.iter().map(|t| t.color.to_le_bytes()).collect();
            assert_eq!(bytes, vec![[0, 0, 0, 0], [64, 64, 64, 64], [128, 128, 128, 128], [255, 255, 255, 255]]);
            let pos: Vec<(u64, u64)> = texels.iter().map(|t| (t.x, t.y)).collect();
            assert_eq!(pos, vec![(0, 0), (1, 0), (0, 1), (1, 1)]);
        },
        _ => panic!("expected a create command"),
    }
}

#[test]
fn rgba_image_is_copied_channel_for_channel() {
    let img = Image::rgba(1, 2, vec![[1, 2, 3, 4], [255, 0, 128, 7]]).unwrap();
    let texels = texels_from_image(&img, 10, 20);
    assert_eq!(texels.len(), 2);
    assert_eq!(texels[0], Texel { x: 10, y: 20, color: u32::from_le_bytes([1, 2, 3, 4]) });
    assert_eq!(texels[1], Texel { x: 10, y: 21, color: u32::from_le_bytes([255, 0, 128, 7]) });
}

#[test]
fn image_with_wrong_pixel_count_is_refused() {
    assert!(Image::coverage(2, 2, vec![1, 2, 3]).is_none());
    assert!(Image::rgba(3, 1, vec![[0; 4]; 4]).is_none());
    assert!(Image::coverage(0, 5, vec![]).is_some());
}

#[test]
fn patch_texels_land_at_the_offset() {
    let img = Image::coverage(3, 2, vec![1, 2, 3, 4, 5, 6]).unwrap();
    let texels = texels_from_image(&img, 5, 7);
    let pos: Vec<(u64, u64, u8)> = texels.iter().map(|t| (t.x, t.y, t.color.to_le_bytes()[0])).collect();
    assert_eq!(pos, vec![(5, 7, 1), (6, 7, 2), (7, 7, 3), (5, 8, 4), (6, 8, 5), (7, 8, 6)]);
}

#[test]
fn wide_texture_gets_square_canvas_of_larger_side() {
    let d = coverage_delta(TextureId::Managed(0), None, 4, 2, vec![9; 8]);
    match TextureIdMap::new().command(&d) {
        TextureCommand::Create { size, width, height, texels, .. } => {
            assert_eq!((size, width, height), (4, 4, 2));
            assert_eq!(texels.len(), 8);
        },
        _ => panic!("expected a create command"),
    }
}

#[test]
fn texture_name_is_written_in_decimal() {
    let d = coverage_delta(TextureId::Managed(1234567890), None, 1, 1, vec![0]);
    match TextureIdMap::new().command(&d) {
        TextureCommand::Create { name, .. } => assert_eq!(name, "egui-1234567890"),
        _ => panic!("expected a create command"),
    }
}

#[test]
fn patch_before_create_is_skipped_and_adds_nothing() {
    let map = TextureIdMap::new();
    let d = coverage_delta(TextureId::Managed(7), Some([0, 0]), 1, 1, vec![5]);
    match map.command(&d) {
        TextureCommand::Skip(reason) => assert_eq!(reason, TextureSkip::UnknownTexture),
        _ => panic!("expected a skip"),
    }
    assert_eq!(map.get_or_skip(TextureId::Managed(7)), None);
}

#[test]
fn user_textures_are_skipped() {
    let map = TextureIdMap::new();
    let d = coverage_delta(TextureId::User(1), None, 1, 1, vec![5]);
    match map.command(&d) {
        TextureCommand::Skip(reason) => assert_eq!(reason, TextureSkip::UserTexture),
        _ => panic!("expected a skip"),
    }
}

#[test]
fn created_textures_keep_their_handles_across_patches() {
    let mut map = TextureIdMap::new();
    map.insert(1, 5);
    map.insert(2, 6);
    for (id, handle) in [(1u64, 5u16), (2, 6), (1, 5)] {
        let d = coverage_delta(TextureId::Managed(id), Some([1, 1]), 1, 1, vec![3]);
        match map.command(&d) {
            TextureCommand::Patch { handle: h, name, texels } => {
                assert_eq!(h, handle);
                assert_eq!(name, format!("egui-{}", id));
                assert_eq!(texels, vec![Texel { x: 1, y: 1, color: 0x0303_0303 }]);
            },
            _ => panic!("expected a patch"),
        }
    }
    assert_eq!(map.get_or_skip(TextureId::Managed(1)), Some(5));
    assert_eq!(map.get_or_skip(TextureId::Managed(2)), Some(6));
    assert_eq!(map.get_or_skip(TextureId::User(1)), None);
}

#[test]
fn recreating_a_texture_replaces_its_handle() {
    let mut map = TextureIdMap::new();
    map.insert(0, 1);
    map.insert(0, 2);
    assert_eq!(map.get_or_skip(TextureId::Managed(0)), Some(2));
    let d = coverage_delta(TextureId::Managed(0), None, 1, 1, vec![0]);
    assert!(matches!(map.command(&d), TextureCommand::Create { id: 0, .. }));
}

#[test]
fn empty_image_creates_empty_canvas() {
    let d = coverage_delta(TextureId::Managed(4), None, 0, 0, vec![]);
    match TextureIdMap::new().command(&d) {
        TextureCommand::Create { size, texels, .. } => {
            assert_eq!(size, 0);
            assert!(texels.is_empty());
        },
        _ => panic!("expected a create command"),
    }
}
