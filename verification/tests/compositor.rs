//! End-to-end checks of the compositing engine: color blending, clipped
//! blits, atlas slicing, animation stepping, and the component container.

use blueberry::animation::Animation;
use blueberry::buffer::{Buffer, BufferAtlas, BufferProvider};
use blueberry::color::Color;
use blueberry::frame::FrameInfo;
use blueberry::game::GameState;
use blueberry::image_buffer::{CamBuffer, SingleImageBuffer};
use blueberry::input::InputInfo;
use blueberry::math::{Transform, Vec2i, Vec2u};
use blueberry::object::{
    AnimationComponent, ComponentKind, DebugLine, GameComponent, GameObject,
    ImageBufferRenderComponent, RenderComp, TransformComponent,
};

fn opaque(r: u8, g: u8, b: u8) -> Color {
    Color(r, g, b, 255)
}

#[test]
fn blend_full_opacity_wins() {
    let mut base = Color(10, 20, 30, 40);
    base.blend(Color(200, 100, 50, 255));
    assert_eq!(base, Color(200, 100, 50, 255));

    let mut clear_base = Color(0, 0, 0, 0);
    clear_base.blend(Color(1, 2, 3, 255));
    assert_eq!(clear_base, Color(1, 2, 3, 255));
}

#[test]
fn blend_zero_alpha_noop() {
    let mut base = Color(10, 20, 30, 128);
    base.blend(Color(1, 2, 3, 0));
    assert_eq!(base, Color(10, 20, 30, 128));

    let mut clear_base = Color::clear();
    clear_base.blend(Color(200, 200, 200, 0));
    assert_eq!(clear_base, Color(0, 0, 0, 0));
}

#[test]
fn blend_formula_exact() {
    // den = 255*128 + 255*127 = 65025; each channel:
    // (0*128*255 + 100*255*127) / 65025 = 49 (floor); alpha = 65025/255.
    let mut base = Color(100, 100, 100, 255);
    base.blend(Color(0, 0, 0, 128));
    assert_eq!(base, Color(49, 49, 49, 255));
}

#[test]
fn clipped_blit_writes_only_in_bounds() {
    let mut sprite_pixels = Vec::new();
    for _ in 0..16 {
        sprite_pixels.push(opaque(255, 0, 0));
    }
    let sprite = Buffer::from(sprite_pixels, 4, 4);
    let mut cam = CamBuffer::new(10, 10);
    sprite.blit(&mut cam, -2, -2);
    let (w, h) = cam.get_dimensions();
    assert_eq!((w, h), (10, 10));
    for y in 0..10 {
        for x in 0..10 {
            let c = cam.get_pixel(x, y);
            // The strict bounds test excludes coordinate 0 on both axes, so
            // of the overlapping 2x2 corner only (1, 1) is written.
            if (x, y) == (1, 1) {
                assert_eq!(c, opaque(255, 0, 0));
            } else {
                assert_eq!(c, Color(0, 0, 0, 0));
            }
        }
    }
}

#[test]
fn blit_respects_camera_offset() {
    let sprite = Buffer::from(vec![opaque(0, 255, 0); 4], 2, 2);
    let mut cam = CamBuffer::new(8, 8);
    cam.set_offset(3, 2);
    sprite.blit(&mut cam, 0, 0);
    for y in 0..8 {
        for x in 0..8 {
            let c = cam.get_pixel(x, y);
            let covered = (3..5).contains(&x) && (2..4).contains(&y);
            if covered {
                assert_eq!(c, opaque(0, 255, 0), "at {x},{y}");
            } else {
                assert_eq!(c, Color(0, 0, 0, 0), "at {x},{y}");
            }
        }
    }
}

fn coordinate_bytes(width: u8, height: u8) -> Vec<u8> {
    let mut bytes = Vec::new();
    for y in 0..height {
        for x in 0..width {
            bytes.extend_from_slice(&[x, y, 0, 255]);
        }
    }
    bytes
}

#[test]
fn atlas_round_trip() {
    let atlas_bytes = coordinate_bytes(32, 32);
    let mut atlas = BufferAtlas::new("sheet.png", atlas_bytes, 32, 32);
    atlas.slice(16, 16);
    assert_eq!(atlas.len(), 4);
    // Row-major cell order: (row 0, col 0), (row 0, col 1), (row 1, col 0),
    // (row 1, col 1).
    for (k, (cx, cy)) in [(0u8, 0u8), (16, 0), (0, 16), (16, 16)].iter().enumerate() {
        let cell = atlas.get_buffer(k);
        assert_eq!(cell.get_dimensions(), (16, 16));
        for j in 0..16u8 {
            for i in 0..16u8 {
                let expected = Color(cx + i, cy + j, 0, 255);
                assert_eq!(cell.get_pixel(i as usize, j as usize), expected);
            }
        }
    }
}

#[test]
fn atlas_explicit_rectangles() {
    let atlas_bytes = coordinate_bytes(8, 8);
    let mut atlas = BufferAtlas::new("sheet.png", atlas_bytes, 8, 8);
    atlas.add(2, 3, 4, 2);
    assert_eq!(atlas.len(), 1);
    let cell = atlas.get_buffer(0);
    assert_eq!(cell.get_dimensions(), (4, 2));
    for j in 0..2u8 {
        for i in 0..4u8 {
            assert_eq!(cell.get_pixel(i as usize, j as usize), Color(2 + i, 3 + j, 0, 255));
        }
    }
}

fn three_frame_animation(frame_duration: u64) -> Animation {
    let mut atlas = BufferAtlas::new("strip.png", coordinate_bytes(3, 1), 3, 1);
    atlas.add(0, 0, 1, 1);
    atlas.add(1, 0, 1, 1);
    atlas.add(2, 0, 1, 1);
    Animation::new(atlas, frame_duration)
}

#[test]
fn animation_wraparound() {
    let mut anim = three_frame_animation(100);
    let deltas = [50u64, 50, 100, 100, 100, 100];
    let mut observed = Vec::new();
    for delta in deltas {
        observed.push(anim.get_current_frame());
        anim.update(delta);
    }
    assert_eq!(observed, vec![0, 0, 1, 2, 0, 1]);
    assert_eq!(anim.get_current_frame(), 2);
}

#[test]
fn animation_single_advance_per_update() {
    let mut anim = three_frame_animation(10);
    // A delta worth many frame durations still advances exactly one frame.
    anim.update(1000);
    assert_eq!(anim.get_current_frame(), 1);
}

#[test]
fn animation_get_frame_tracks_atlas() {
    let mut anim = three_frame_animation(100);
    assert_eq!(anim.get_frame().get_pixel(0, 0), Color(0, 0, 0, 255));
    anim.update(100);
    assert_eq!(anim.get_frame().get_pixel(0, 0), Color(1, 0, 0, 255));
}

#[test]
fn singleton_enforcement() {
    let mut obj = GameObject::new("test_1");
    let first = TransformComponent::new();
    let mut second = TransformComponent::new();
    second.transform.set_xy(5, 7);
    obj.add_comp(GameComponent::Transform(first));
    obj.add_comp(GameComponent::Transform(second));

    // Exactly one component is stored, and it is the first-attached one.
    let lines = obj.debug_objects();
    assert_eq!(lines.len(), 1);
    assert_eq!(lines[0], DebugLine::Position(0, 0));
    match obj.get_comp(ComponentKind::Transform) {
        Some(GameComponent::Transform(tc)) => {
            assert_eq!(tc.transform.get_xy(), (0, 0));
        }
        _ => panic!("expected the first transform to be stored"),
    }
}

#[test]
fn non_singleton_kinds_accumulate() {
    let mut obj = GameObject::new("markers");
    obj.add_comp(GameComponent::Render(RenderComp { frames: 1 }));
    obj.add_comp(GameComponent::Render(RenderComp { frames: 2 }));
    assert_eq!(obj.debug_objects().len(), 2);
    assert!(obj.has_comp(ComponentKind::Render));
    assert!(!obj.has_comp(ComponentKind::Animation));
    assert!(obj.get_comp(ComponentKind::Animation).is_none());
}

#[test]
fn clear_restores_default() {
    let mut buffer = Buffer::new(3, 2);
    buffer.set_pixel(opaque(9, 9, 9), 1, 1);
    buffer.set_pixel(opaque(7, 7, 7), 2, 0);
    buffer.clear();
    assert_eq!(buffer.get_dimensions(), (3, 2));
    for y in 0..2 {
        for x in 0..3 {
            assert_eq!(buffer.get_pixel(x, y), Color(0, 0, 0, 0));
        }
    }
}

#[test]
fn pixel_clamp_policy() {
    let mut buffer = Buffer::new(2, 2);
    // An out-of-range coordinate clamps to the last valid index (1, 1).
    buffer.set_pixel(opaque(200, 0, 0), 5, 5);
    assert_eq!(buffer.get_pixel(1, 1), opaque(200, 0, 0));
    assert_eq!(buffer.get_pixel(9, 9), opaque(200, 0, 0));
}

#[test]
fn contains_is_strict_and_excludes_zero() {
    let buffer = Buffer::new(3, 3);
    assert!(buffer.contains(1, 1));
    assert!(buffer.contains(2, 2));
    assert!(!buffer.contains(0, 1));
    assert!(!buffer.contains(1, 0));
    assert!(!buffer.contains(3, 1));
    assert!(!buffer.contains(-1, 1));
}

#[test]
fn blend_pixel_skips_out_of_range() {
    let mut buffer = Buffer::new(2, 2);
    buffer.blend_pixel(opaque(1, 2, 3), 5, 0);
    for y in 0..2 {
        for x in 0..2 {
            assert_eq!(buffer.get_pixel(x, y), Color(0, 0, 0, 0));
        }
    }
}

#[test]
fn dump_writes_rgba_rows() {
    let pixels = vec![Color(1, 2, 3, 4), Color(5, 6, 7, 8)];
    let buffer = Buffer::from(pixels, 2, 1);
    let mut out = vec![0xAAu8; 10];
    buffer.dump(&mut out);
    assert_eq!(out, vec![1, 2, 3, 4, 5, 6, 7, 8, 0xAA, 0xAA]);
}

#[test]
fn from_decoded_bytes_chunks_pixels() {
    let sprite = SingleImageBuffer::from(vec![1, 2, 3, 4, 5, 6, 7, 8], 2, 1);
    let grid = sprite.get_buffer();
    assert_eq!(grid.get_dimensions(), (2, 1));
    assert_eq!(grid.get_pixel(0, 0), Color(1, 2, 3, 4));
    assert_eq!(grid.get_pixel(1, 0), Color(5, 6, 7, 8));
}

#[test]
fn scale_doubles_dimensions() {
    let pixels = vec![opaque(1, 0, 0), opaque(2, 0, 0), opaque(3, 0, 0), opaque(4, 0, 0)];
    let mut buffer = Buffer::from(pixels, 2, 2);
    buffer.scale();
    assert_eq!(buffer.get_dimensions(), (4, 4));
    assert_eq!(buffer.pixel_count(), 16);
    // With a 2x2 input every source pixel becomes its own 2x2 block.
    for y in 0..4 {
        for x in 0..4 {
            let sx = (x / 2) as u8;
            let sy = (y / 2) as u8;
            let expected = opaque(1 + sx + 2 * sy, 0, 0);
            assert_eq!(buffer.get_pixel(x, y), expected, "at {x},{y}");
        }
    }
}

#[test]
fn scale_safe_leaves_source_untouched() {
    let pixels = vec![opaque(1, 0, 0), opaque(2, 0, 0), opaque(3, 0, 0), opaque(4, 0, 0)];
    let buffer = Buffer::from(pixels, 2, 2);
    let scaled = buffer.scale_safe(SingleImageBuffer::new(0, 0));
    assert_eq!(buffer.get_dimensions(), (2, 2));
    assert_eq!(scaled.get_dimensions(), (4, 4));
    assert_eq!(scaled.get_buffer().get_pixel(0, 0), opaque(1, 0, 0));
    assert_eq!(scaled.get_buffer().get_pixel(3, 3), opaque(4, 0, 0));
}

#[test]
fn object_update_advances_animation() {
    let mut obj = GameObject::new("walker");
    obj.add_comp(GameComponent::Animation(AnimationComponent::new(three_frame_animation(100))));
    let frame_info = FrameInfo { update_delta: 100 };
    let input_info = InputInfo::new();
    obj.update(&frame_info, &input_info);
    match obj.get_comp(ComponentKind::Animation) {
        Some(GameComponent::Animation(ac)) => assert_eq!(ac.animation.get_current_frame(), 1),
        _ => panic!("expected the animation component"),
    }
    assert_eq!(obj.debug_objects(), vec![DebugLine::Frame(1)]);
}

#[test]
fn inactive_object_skips_update_and_render() {
    let mut obj = GameObject::new("frozen");
    obj.add_comp(GameComponent::Animation(AnimationComponent::new(three_frame_animation(100))));
    obj.active = false;
    let frame_info = FrameInfo { update_delta: 100 };
    let input_info = InputInfo::new();
    obj.update(&frame_info, &input_info);
    match obj.get_comp(ComponentKind::Animation) {
        Some(GameComponent::Animation(ac)) => assert_eq!(ac.animation.get_current_frame(), 0),
        _ => panic!("expected the animation component"),
    }
    let mut cam = CamBuffer::new(4, 4);
    obj.render(&mut cam);
    for y in 0..4 {
        for x in 0..4 {
            assert_eq!(cam.get_pixel(x, y), Color(0, 0, 0, 0));
        }
    }
}

#[test]
fn gamestate_name_identity() {
    let mut gs = GameState::new();
    gs.add_gameobject(GameObject::new("hero"));
    gs.add_gameobject(GameObject::new("coin"));
    assert_eq!(gs.len(), 2);
    // Inserting under an existing name replaces the stored object.
    let mut replacement = GameObject::new("hero");
    replacement.active = false;
    gs.add_gameobject(replacement);
    assert_eq!(gs.len(), 2);
    let mut saw_inactive_hero = false;
    for i in 0..gs.len() {
        let o = gs.get_object(i);
        if o.get_name().as_str() == "hero" {
            saw_inactive_hero = !o.active;
        }
    }
    assert!(saw_inactive_hero);
}

#[test]
fn render_composites_sprite() {
    let sprite = SingleImageBuffer::from(
        vec![
            0, 0, 255, 255, 0, 0, 255, 255, //
            0, 0, 255, 255, 0, 0, 255, 255,
        ],
        2,
        2,
    );
    let mut gs = GameState::new();
    let mut obj = GameObject::new("blue");
    obj.add_comp(GameComponent::ImageBufferRender(ImageBufferRenderComponent::new(sprite)));
    gs.add_gameobject(obj);
    let mut cam = CamBuffer::new(5, 5);
    gs.render(&mut cam);
    for y in 0..5 {
        for x in 0..5 {
            let c = cam.get_pixel(x, y);
            // The sprite sits at (0, 0); the strict bounds test lets only
            // its (1, 1) pixel through.
            if (x, y) == (1, 1) {
                assert_eq!(c, Color(0, 0, 255, 255));
            } else {
                assert_eq!(c, Color(0, 0, 0, 0));
            }
        }
    }
    cam.clear();
    assert_eq!(cam.get_pixel(1, 1), Color(0, 0, 0, 0));
}

#[test]
fn gamestate_update_fans_out() {
    let mut gs = GameState::new();
    let mut obj = GameObject::new("walker");
    obj.add_comp(GameComponent::Animation(AnimationComponent::new(three_frame_animation(100))));
    gs.add_gameobject(obj);
    gs.update(&FrameInfo { update_delta: 100 }, &InputInfo::new());
    assert_eq!(gs.debug(), vec![DebugLine::Frame(1)]);
}

#[test]
fn input_snapshot_tracks_keys_and_mouse() {
    let mut input = InputInfo::new();
    assert!(!input.get_key(32));
    input.set_key(32, true);
    input.set_key(17, false);
    assert!(input.get_key(32));
    assert!(!input.get_key(17));
    input.set_key(32, false);
    assert!(!input.get_key(32));

    input.set_mouse_button(0, true);
    assert!(input.get_mouse_button(0));
    assert!(!input.get_mouse_button(1));
    assert!(!input.get_mouse_clicked(0));

    input.update_mouse_pixel_pos(10, 4);
    input.update_mouse_pixel_pos(13, 9);
    assert_eq!(input.get_mouse_pixel_pos(), &Vec2u { x: 13, y: 9 });
    let delta = input.get_mouse_pixel_delta();
    assert_eq!((delta.x, delta.y), (3, 5));
}

#[test]
fn transform_parent_chain() {
    let parent = Transform::from(10, 20);
    let mut child = Transform::from(1, 2);
    child.setParent(Box::new(parent));
    assert_eq!(child.get_xy(), (11, 22));

    let mut v = Vec2i::new(3, 4);
    v.add_vec(&Vec2i::new(1, 1));
    assert_eq!(v.get_xy(), (4, 5));
    v.sub_vec(&Vec2i::new(2, 2));
    assert_eq!(v.get_xy(), (2, 3));
}

#[test]
fn camera_offset_accessors() {
    let mut cam = CamBuffer::new(4, 4);
    assert_eq!(cam.get_offset().get_xy(), (0, 0));
    cam.set_offset(-3, 7);
    assert_eq!(cam.get_offset().get_xy(), (-3, 7));

    let mut out = vec![9u8; 64];
    cam.dump(&mut out);
    assert!(out.iter().all(|b| *b == 0));
}

#[test]
fn slice_drops_remainder_pixels() {
    // A 5x5 source sliced into 2x2 cells keeps floor(5/2) = 2 cells per
    // axis; the remainder row and column are dropped, not padded.
    let mut atlas = BufferAtlas::new("odd.png", coordinate_bytes(5, 5), 5, 5);
    atlas.slice(2, 2);
    assert_eq!(atlas.len(), 4);
    let last = atlas.get_buffer(3);
    assert_eq!(last.get_dimensions(), (2, 2));
    assert_eq!(last.get_pixel(0, 0), Color(2, 2, 0, 255));
    assert_eq!(last.get_pixel(1, 1), Color(3, 3, 0, 255));
}

#[test]
fn input_update_resets_one_shot_flags() {
    let mut input = InputInfo::new();
    input.update_mouse_pixel_pos(6, 6);
    input.update();
    // After housekeeping, the last position has caught up: no delta left.
    let delta = input.get_mouse_pixel_delta();
    assert_eq!((delta.x, delta.y), (0, 0));
}

#[test]
fn blit_fully_inside_blends_over_base() {
    // A half-transparent white square over an opaque black camera interior.
    let sprite = Buffer::from(vec![Color(255, 255, 255, 128); 4], 2, 2);
    let mut cam = CamBuffer::new(6, 6);
    for y in 0..6 {
        for x in 0..6 {
            cam.set_pixel(Color(0, 0, 0, 255), x, y);
        }
    }
    sprite.blit(&mut cam, 2, 2);
    // den = 255*128 + 255*127 = 65025; channel = 255*128*255/65025 = 128.
    let blended = Color(128, 128, 128, 255);
    for y in 0..6 {
        for x in 0..6 {
            let expected = if (2..4).contains(&x) && (2..4).contains(&y) {
                blended
            } else {
                Color(0, 0, 0, 255)
            };
            assert_eq!(cam.get_pixel(x, y), expected, "at {x},{y}");
        }
    }
}
