//! Shape behavior tests: per-frame movement and fade, bind versus submit,
//! and the draw-call descriptor accessors.

use scene2d::color::Color;
use scene2d::context::{Bindings, Command, DrawContext, Pipeline, UniformPayload};
use scene2d::input::KeyCode;
use scene2d::shape::{BaseShape, Shape};
use scene2d::square::Square;
use scene2d::background::Background;
use scene2d::triangle::{Triangle, ACCEL, FADE};

fn bnd(v: usize, i: usize, t: usize) -> Bindings {
    Bindings { vertex_buffers: vec![v], index_buffer: i, images: vec![t] }
}

#[test]
fn triangle_fades_every_draw() {
    let mut t = Triangle::new(bnd(1, 2, 3), Pipeline { id: 4 }, 0, 1000, 0);
    for _ in 0..10 {
        let mut ctx = DrawContext::new();
        t.draw(&mut ctx, true);
    }
    assert_eq!(t.get_uniform().get_red(), -1000);
    assert_eq!(t.get_uniform().get_green(), 1000);
    assert_eq!(t.get_uniform().get_blue(), 0);
}

#[test]
fn triangle_moves_right_while_held() {
    let mut t = Triangle::new(bnd(1, 2, 3), Pipeline { id: 4 }, 0, 1000, 0);
    t.input_down(KeyCode::Right);
    for _ in 0..3 {
        let mut ctx = DrawContext::new();
        t.draw(&mut ctx, true);
    }
    assert_eq!(t.get_uniform().get_offset_x(), 3 * ACCEL);
    assert_eq!(t.get_uniform().get_offset_y(), 0);
}

#[test]
fn triangle_diagonal_is_unnormalized_vector_sum() {
    let mut t = Triangle::new(bnd(1, 2, 3), Pipeline { id: 4 }, 0, 1000, 0);
    t.input_down(KeyCode::Right);
    t.input_down(KeyCode::Up);
    for _ in 0..4 {
        let mut ctx = DrawContext::new();
        t.draw(&mut ctx, true);
    }
    assert_eq!(t.get_uniform().get_offset_x(), 4 * ACCEL);
    assert_eq!(t.get_uniform().get_offset_y(), 4 * ACCEL);
}

#[test]
fn triangle_opposed_keys_cancel() {
    let mut t = Triangle::new(bnd(1, 2, 3), Pipeline { id: 4 }, 0, 1000, 0);
    t.input_down(KeyCode::Left);
    t.input_down(KeyCode::Right);
    let mut ctx = DrawContext::new();
    t.draw(&mut ctx, true);
    assert_eq!(t.get_uniform().get_offset_x(), 0);
}

#[test]
fn triangle_movement_stops_after_key_up() {
    let mut t = Triangle::new(bnd(1, 2, 3), Pipeline { id: 4 }, 0, 1000, 0);
    t.input_down(KeyCode::Down);
    let mut ctx = DrawContext::new();
    t.draw(&mut ctx, true);
    t.input_up(KeyCode::Down);
    let mut ctx2 = DrawContext::new();
    t.draw(&mut ctx2, true);
    assert_eq!(t.get_uniform().get_offset_y(), -ACCEL);
    assert_eq!(t.get_uniform().get_input().len(), 0);
}

#[test]
fn triangle_repeated_key_down_counts_once() {
    let mut t = Triangle::new(bnd(1, 2, 3), Pipeline { id: 4 }, 0, 1000, 0);
    t.input_down(KeyCode::Up);
    t.input_down(KeyCode::Up);
    assert_eq!(t.get_uniform().get_input().len(), 1);
    t.input_up(KeyCode::Up);
    assert_eq!(t.get_uniform().get_input().len(), 0);
}

#[test]
fn triangle_submit_false_binds_without_drawing() {
    let mut t = Triangle::new(bnd(1, 2, 3), Pipeline { id: 4 }, 0, 1000, 0);
    let mut ctx = DrawContext::new();
    t.draw(&mut ctx, false);
    let cmds = ctx.commands();
    assert_eq!(cmds.len(), 3);
    assert!(matches!(cmds[0], Command::ApplyPipeline { .. }));
    assert!(matches!(cmds[1], Command::ApplyBindings { .. }));
    assert!(matches!(cmds[2], Command::ApplyUniforms { .. }));
    // the state still advanced: bind-only draws animate too
    assert_eq!(t.get_uniform().get_red(), -FADE);
}

#[test]
fn triangle_uniform_payload_carries_stepped_values() {
    let mut t = Triangle::new(bnd(1, 2, 3), Pipeline { id: 4 }, 0, 1000, 0);
    t.input_down(KeyCode::Right);
    let mut ctx = DrawContext::new();
    t.draw(&mut ctx, true);
    let cmds = ctx.commands();
    assert_eq!(cmds.len(), 4);
    match &cmds[2] {
        Command::ApplyUniforms { uniforms } => {
            assert_eq!(
                *uniforms,
                UniformPayload::Offset {
                    red: -FADE,
                    green: 1000,
                    blue: 0,
                    offset_x: ACCEL,
                    offset_y: 0,
                }
            );
        }
        other => panic!("expected a uniform command, got {:?}", other),
    }
    match &cmds[3] {
        Command::Draw { base, elements, instances } => {
            assert_eq!((*base, *elements, *instances), (0, 3, 1));
        }
        other => panic!("expected a draw command, got {:?}", other),
    }
}

#[test]
fn square_draw_records_flat_color_and_six_segments() {
    let mut sq = Square::new(bnd(5, 6, 7), Pipeline { id: 8 }, 0, 1000, 0);
    let mut ctx = DrawContext::new();
    sq.draw(&mut ctx, true);
    let cmds = ctx.commands();
    assert_eq!(cmds.len(), 4);
    match &cmds[2] {
        Command::ApplyUniforms { uniforms } => {
            assert_eq!(*uniforms, UniformPayload::Flat { red: 0, green: 1000, blue: 0 });
        }
        other => panic!("expected a uniform command, got {:?}", other),
    }
    match &cmds[3] {
        Command::Draw { base, elements, instances } => {
            assert_eq!((*base, *elements, *instances), (0, 6, 1));
        }
        other => panic!("expected a draw command, got {:?}", other),
    }
    // squares ignore keys entirely
    sq.input_down(KeyCode::Right);
    let mut ctx2 = DrawContext::new();
    sq.draw(&mut ctx2, true);
    assert_eq!(ctx2.commands().len(), 4);
}

#[test]
fn square_submit_false_omits_draw_call() {
    let mut sq = Square::new(bnd(5, 6, 7), Pipeline { id: 8 }, 10, 20, 30);
    let mut ctx = DrawContext::new();
    sq.draw(&mut ctx, false);
    assert_eq!(ctx.commands().len(), 3);
    assert!(!ctx.commands().iter().any(|c| matches!(c, Command::Draw { .. })));
}

#[test]
fn background_submits_only_when_asked() {
    let mut b = Background::new(bnd(9, 10, 11), Pipeline { id: 12 }, 1000, 937, 835);
    let mut ctx = DrawContext::new();
    b.draw(&mut ctx, false);
    let cmds = ctx.commands();
    assert_eq!(cmds.len(), 3);
    assert!(matches!(cmds[0], Command::ApplyPipeline { .. }));
    assert!(matches!(cmds[1], Command::ApplyBindings { .. }));
    match &cmds[2] {
        Command::ApplyUniforms { uniforms } => {
            assert_eq!(*uniforms, UniformPayload::Flat { red: 1000, green: 937, blue: 835 });
        }
        other => panic!("expected a uniform command, got {:?}", other),
    }
    assert!(!cmds.iter().any(|c| matches!(c, Command::Draw { .. })));

    let mut ctx2 = DrawContext::new();
    b.draw(&mut ctx2, true);
    let cmds2 = ctx2.commands();
    assert_eq!(cmds2.len(), 4);
    assert!(matches!(cmds2[3], Command::Draw { elements: 6, .. }));
}

#[test]
fn base_shape_accessors_roundtrip() {
    let mut s = BaseShape::new(bnd(1, 2, 3), Pipeline { id: 4 }, 3);
    assert_eq!(s.get_segments(), 3);
    assert_eq!(s.get_pipeline().id, 4);
    assert_eq!(s.get_bindings().vertex_buffers, vec![1]);
    assert_eq!(s.get_bindings().index_buffer, 2);
    assert_eq!(s.get_bindings().images, vec![3]);
    s.set_segments(6);
    s.set_pipeline(Pipeline { id: 40 });
    s.set_binding(bnd(10, 20, 30));
    assert_eq!(s.get_segments(), 6);
    assert_eq!(s.get_pipeline().id, 40);
    assert_eq!(s.get_bindings().index_buffer, 20);
}

#[test]
fn base_shape_draw_binds_and_optionally_submits() {
    let mut s = BaseShape::new(bnd(1, 2, 3), Pipeline { id: 4 }, 5);
    let mut ctx = DrawContext::new();
    s.draw(&mut ctx, false);
    assert_eq!(ctx.commands().len(), 2);
    let mut ctx2 = DrawContext::new();
    s.draw(&mut ctx2, true);
    assert_eq!(ctx2.commands().len(), 3);
    assert!(matches!(ctx2.commands()[2], Command::Draw { elements: 5, .. }));
}

#[test]
fn color_accessors_roundtrip() {
    let mut c = Color::new(1, 2, 3);
    assert_eq!((c.get_red(), c.get_green(), c.get_blue()), (1, 2, 3));
    c.set_red(-10);
    c.set_green(20);
    c.set_blue(i64::MAX);
    assert_eq!((c.get_red(), c.get_green(), c.get_blue()), (-10, 20, i64::MAX));
}

#[test]
fn bindings_duplicate_copies_handles() {
    let b = Bindings { vertex_buffers: vec![1, 2], index_buffer: 3, images: vec![4, 5, 6] };
    let d = b.duplicate();
    assert_eq!(d.vertex_buffers, vec![1, 2]);
    assert_eq!(d.index_buffer, 3);
    assert_eq!(d.images, vec![4, 5, 6]);
}
