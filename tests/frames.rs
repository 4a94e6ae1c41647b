use oml_game_egui::bridge::{EguiWrapper, FrameOutput, ONE_BITS};
use oml_game_egui::input::{HostInput, InputEvent};
use oml_game_egui::mesh::{remap_triangles, Mesh, MeshPaint, MeshSkip, PointBits, Primitive, Triangle, Vertex};
use oml_game_egui::registry::{order_batch, TextureCommand, TextureSkip};
use std::cell::RefCell;
use oml_game_egui::texture::{Image, TextureDelta, TextureId};

fn pt(x: f32, y: f32) -> PointBits {
    PointBits { x: x.to_bits(), y: y.to_bits() }
}

fn vertex(x: f32, y: f32, u: f32, v: f32, color: [u8; 4]) -> Vertex {
    Vertex { pos: pt(x, y), uv: pt(u, v), color }
}

fn host(x: f32, y: f32, pressed: bool, released: bool) -> HostInput {
    HostInput { pointer: pt(x, y), pressed, released }
}

fn wrapper_with_texture(id: u64, handle: u16) -> EguiWrapper<u32> {
    let mut w = EguiWrapper::new();
    w.texture_created(id, handle);
    w
}

fn single_triangle_mesh(texture_id: TextureId) -> Mesh {
    Mesh {
        texture_id,
        vertices: vec![
            vertex(1.0, 2.0, 0.0, 0.0, [0, 0, 0, 0]),
            vertex(-3.5, -4.25, 1.0, 0.5, [128, 128, 128, 128]),
            vertex(0.0, 0.0, 0.25, 1.0, [255, 0, 128, 255]),
        ],
        indices: vec![0, 1, 2],
    }
}

#[test]
fn vertical_axis_is_flipped() {
    let w = wrapper_with_texture(0, 4);
    for (x, y) in [(1.0f32, 2.0f32), (-3.5, -4.25), (0.0, 0.0), (10.0, -0.0), (5.0, f32::INFINITY)] {
        let mesh = Mesh {
            texture_id: TextureId::Managed(0),
            vertices: vec![vertex(x, y, 0.0, 0.0, [1, 2, 3, 4])],
            indices: vec![],
        };
        match w.inner().paint_mesh(&mesh) {
            MeshPaint::Draw { vertices, .. } => {
                assert_eq!(f32::from_bits(vertices[0].pos.x).to_bits(), x.to_bits());
                assert_eq!(f32::from_bits(vertices[0].pos.y).to_bits(), (-y).to_bits());
            },
            _ => panic!("expected a draw"),
        }
    }
}

#[test]
fn uv_and_color_pass_through() {
    let w = wrapper_with_texture(0, 4);
    match w.inner().paint_mesh(&single_triangle_mesh(TextureId::Managed(0))) {
        MeshPaint::Draw { texture, vertices, triangles } => {
            assert_eq!(texture, 4);
            assert_eq!(vertices.len(), 3);
            assert_eq!(vertices[1].uv, pt(1.0, 0.5));
            assert_eq!(vertices[2].uv, pt(0.25, 1.0));
            assert_eq!(vertices[0].color, [0, 0, 0, 0]);
            assert_eq!(vertices[1].color, [128, 128, 128, 128]);
            assert_eq!(vertices[2].color, [255, 0, 128, 255]);
            assert_eq!(triangles, vec![Triangle { a: 0, b: 1, c: 2 }]);
        },
        _ => panic!("expected a draw"),
    }
}

#[test]
fn mesh_with_unknown_texture_is_skipped_without_touching_siblings() {
    let w = wrapper_with_texture(0, 9);
    let prims = vec![
        Primitive::Mesh(single_triangle_mesh(TextureId::Managed(0))),
        Primitive::Mesh(single_triangle_mesh(TextureId::Managed(5))),
        Primitive::Other,
        Primitive::Mesh(single_triangle_mesh(TextureId::Managed(0))),
    ];
    let out = w.inner().paint(&prims);
    assert_eq!(out.len(), 4);
    assert!(matches!(out[0], MeshPaint::Draw { texture: 9, .. }));
    assert!(matches!(out[1], MeshPaint::Skip(MeshSkip::UnresolvedTexture)));
    assert!(matches!(out[2], MeshPaint::Skip(MeshSkip::Unsupported)));
    match &out[3] {
        MeshPaint::Draw { vertices, triangles, .. } => {
            assert_eq!(vertices.len(), 3);
            assert_eq!(triangles.len(), 1);
        },
        _ => panic!("expected a draw"),
    }
}

#[test]
fn malformed_indices_skip_the_mesh() {
    let w = wrapper_with_texture(0, 1);
    let mut m = single_triangle_mesh(TextureId::Managed(0));
    m.indices = vec![0, 1, 3];
    assert!(matches!(w.inner().paint_mesh(&m), MeshPaint::Skip(MeshSkip::BadIndices)));
    m.indices = vec![0, 1];
    assert!(matches!(w.inner().paint_mesh(&m), MeshPaint::Skip(MeshSkip::BadIndices)));
}

#[test]
fn triangles_are_remapped_to_renderer_indices() {
    let tris = vec![Triangle { a: 0, b: 1, c: 2 }, Triangle { a: 2, b: 1, c: 0 }];
    let remap = vec![100, 101, 107];
    let out = remap_triangles(&tris, &remap);
    assert_eq!(out, vec![Triangle { a: 100, b: 101, c: 107 }, Triangle { a: 107, b: 101, c: 100 }]);
}

#[test]
fn single_press_yields_one_press_event() {
    let mut w: EguiWrapper<u32> = EguiWrapper::new();
    assert!(w.update(host(0.0, 0.0, true, false)));
    for _ in 0..5 {
        assert!(!w.update(host(1.0, 1.0, false, false)));
    }
    let mut events = Vec::new();
    w.run(|snap| {
        events = snap.events;
        Ok::<FrameOutput<u32>, ()>(FrameOutput { shapes: vec![], textures_delta: vec![] })
    })
    .unwrap();
    assert_eq!(events.len(), 7);
    let presses = events
        .iter()
        .filter(|e| matches!(e, InputEvent::PointerButton { pressed: true, .. }))
        .count();
    assert_eq!(presses, 1);
    assert_eq!(events[1], InputEvent::PointerButton { pos: pt(0.0, 0.0), pressed: true });
}

#[test]
fn release_and_disabled_input() {
    let mut w: EguiWrapper<u32> = EguiWrapper::new();
    assert!(w.toggle_input());
    assert!(w.input_disabled());
    assert!(!w.update(host(3.0, 4.0, true, false)));
    w.enable_input();
    assert!(!w.update(host(3.0, 4.0, false, true)));
    assert!(!w.inner().input_disabled());
    let mut events = Vec::new();
    let _ = w.run(|s| {
        events = s.events;
        Err::<FrameOutput<u32>, &str>("layout failed")
    });
    assert_eq!(events, vec![
        InputEvent::PointerMoved(pt(3.0, 4.0)),
        InputEvent::PointerButton { pos: pt(3.0, 4.0), pressed: false },
    ]);
}

#[test]
fn snapshot_reports_viewport_and_scale() {
    let mut w: EguiWrapper<u32> = EguiWrapper::new();
    w.setup(1.0f32.to_bits());
    let _ = w.render(pt(800.0, 600.0));
    let mut seen = None;
    w.run(|s| {
        seen = Some((s.viewport, s.pixels_per_point));
        Ok::<FrameOutput<u32>, ()>(FrameOutput { shapes: vec![], textures_delta: vec![] })
    })
    .unwrap();
    let (vp, ppp) = seen.unwrap();
    let ppp = f32::from_bits(ppp);
    assert_eq!((f32::from_bits(vp.x) / ppp, f32::from_bits(vp.y) / ppp), (800.0, 600.0));
}

#[test]
fn frame_capture_replaces_shapes_and_deltas() {
    let mut w: EguiWrapper<u32> = EguiWrapper::new();
    let delta = |id| TextureDelta { id: TextureId::Managed(id), pos: None, image: Image::coverage(1, 1, vec![0]).unwrap() };
    w.run(|_| Ok::<_, ()>(FrameOutput { shapes: vec![1, 2], textures_delta: vec![delta(0)] })).unwrap();
    w.run(|_| Ok::<_, ()>(FrameOutput { shapes: vec![3], textures_delta: vec![delta(1)] })).unwrap();
    let r = w.run(|_| Err::<FrameOutput<u32>, u8>(7));
    assert_eq!(r, Err(7));
    let out = w.render(pt(10.0, 10.0));
    assert_eq!(out.shapes, vec![3]);
    let ids: Vec<TextureId> = out.textures_delta.iter().map(|d| d.id).collect();
    assert_eq!(ids, vec![TextureId::Managed(1)]);
    let again = w.render(pt(10.0, 10.0));
    assert!(again.shapes.is_empty());
    assert!(again.textures_delta.is_empty());
}

#[test]
fn create_then_patch_in_one_batch() {
    let mut w: EguiWrapper<u32> = EguiWrapper::new();
    let create = TextureDelta { id: TextureId::Managed(2), pos: None, image: Image::coverage(2, 1, vec![1, 2]).unwrap() };
    let patch = TextureDelta { id: TextureId::Managed(2), pos: Some([1, 0]), image: Image::coverage(1, 1, vec![9]).unwrap() };
    match w.inner().texture_command(&create) {
        TextureCommand::Create { id, .. } => w.texture_created(id, 11),
        _ => panic!("expected a create"),
    }
    match w.inner().texture_command(&patch) {
        TextureCommand::Patch { handle, texels, .. } => {
            assert_eq!(handle, 11);
            assert_eq!((texels[0].x, texels[0].y, texels[0].color), (1, 0, 0x0909_0909));
        },
        _ => panic!("expected a patch"),
    }
}

#[test]
fn defaults_and_selectors() {
    let mut w: EguiWrapper<u32> = EguiWrapper::new();
    assert_eq!(w.inner().color(), [ONE_BITS; 4]);
    assert_eq!(f32::from_bits(ONE_BITS), 1.0);
    w.set_effect_id(3);
    w.set_layer_id(2);
    w.set_color([0.5f32.to_bits(); 4]);
    w.set_input_disabled(true);
    assert_eq!(w.inner().effect_id(), 3);
    assert_eq!(w.inner().layer_id(), 2);
    assert_eq!(w.inner().color(), [0.5f32.to_bits(); 4]);
    assert!(w.input_disabled());
    w.disable_input();
    assert!(!w.toggle_input());
}

fn cov(id: u64, pos: Option<[u32; 2]>, px: u8) -> TextureDelta {
    TextureDelta { id: TextureId::Managed(id), pos, image: Image::coverage(1, 1, vec![px]).unwrap() }
}

fn shape(d: &TextureDelta) -> (TextureId, Option<[u32; 2]>) {
    (d.id, d.pos)
}

#[test]
fn batch_puts_creates_before_patches_keeping_order() {
    let batch = vec![cov(1, Some([0, 0]), 1), cov(2, None, 2), cov(3, Some([0, 0]), 3), cov(1, None, 4)];
    let out: Vec<_> = order_batch(batch).iter().map(shape).collect();
    assert_eq!(out, vec![
        (TextureId::Managed(2), None),
        (TextureId::Managed(1), None),
        (TextureId::Managed(1), Some([0, 0])),
        (TextureId::Managed(3), Some([0, 0])),
    ]);
    assert!(order_batch(Vec::new()).is_empty());
}

#[test]
fn patch_arriving_before_its_create_is_applied_after_it() {
    let mut w: EguiWrapper<u32> = EguiWrapper::new();
    w.run(|_| Ok::<_, ()>(FrameOutput { shapes: vec![], textures_delta: vec![cov(5, Some([0, 0]), 9), cov(5, None, 1)] }))
        .unwrap();
    let frame = w.render(pt(1.0, 1.0));
    let seen = RefCell::new(Vec::new());
    let handles = w.apply_textures(&frame.textures_delta, |c| {
        let (kind, h) = match c {
            TextureCommand::Create { .. } => ("create", 40),
            TextureCommand::Patch { handle, .. } => ("patch", *handle),
            TextureCommand::Skip(_) => ("skip", 0),
        };
        seen.borrow_mut().push(kind);
        h
    });
    assert_eq!(seen.into_inner(), vec!["create", "patch"]);
    assert_eq!(handles, vec![40, 40]);
}

#[test]
fn batch_registers_each_create_under_its_handle() {
    let mut w: EguiWrapper<u32> = EguiWrapper::new();
    let next = RefCell::new(100u16);
    let step = |c: &TextureCommand| match c {
        TextureCommand::Create { .. } => {
            let mut n = next.borrow_mut();
            *n += 1;
            *n
        },
        TextureCommand::Patch { handle, .. } => *handle,
        TextureCommand::Skip(_) => 0,
    };
    let batch = vec![cov(1, None, 0), cov(2, None, 0), cov(1, Some([0, 0]), 7)];
    assert_eq!(w.apply_textures(&batch, step), vec![101, 102, 101]);
    let patches = vec![cov(2, Some([0, 0]), 3), cov(1, Some([0, 0]), 4)];
    assert_eq!(w.apply_textures(&patches, step), vec![102, 101]);
    assert_eq!(*next.borrow(), 102);
    let m = TextureId::Managed(0);
    let mesh = single_triangle_mesh(m);
    assert!(matches!(w.inner().paint_mesh(&mesh), MeshPaint::Skip(MeshSkip::UnresolvedTexture)));
}

#[test]
fn lone_patch_of_unknown_texture_changes_nothing() {
    let mut w: EguiWrapper<u32> = EguiWrapper::new();
    let skipped = RefCell::new(Vec::new());
    let r = w.apply_textures(&vec![cov(8, Some([0, 0]), 1)], |c| {
        if let TextureCommand::Skip(reason) = c {
            skipped.borrow_mut().push(*reason);
        }
        0
    });
    assert_eq!(r, vec![0]);
    assert_eq!(skipped.into_inner(), vec![TextureSkip::UnknownTexture]);
    assert!(matches!(
        w.inner().paint_mesh(&single_triangle_mesh(TextureId::Managed(8))),
        MeshPaint::Skip(MeshSkip::UnresolvedTexture)
    ));
}
