//! Scene tests: paint order, event dispatch, and the full stage scenario.

use scene2d::background::Background;
use scene2d::context::{Bindings, Command, DrawContext, Pipeline, UniformPayload};
use scene2d::input::KeyCode;
use scene2d::scene::{Scene, SceneShape};
use scene2d::shape::Shape;
use scene2d::square::Square;
use scene2d::stage::default_scene;
use scene2d::triangle::Triangle;

fn bnd(v: usize, i: usize, t: usize) -> Bindings {
    Bindings { vertex_buffers: vec![v], index_buffer: i, images: vec![t] }
}

fn pipeline_ids(cmds: &[Command]) -> Vec<usize> {
    cmds.iter()
        .filter_map(|c| match c {
            Command::ApplyPipeline { pipeline } => Some(pipeline.id),
            _ => None,
        })
        .collect()
}

#[test]
fn draw_all_paints_in_construction_order() {
    let mut scene = Scene::new();
    scene.push(SceneShape::Background(Background::new(
        bnd(1, 2, 3),
        Pipeline { id: 100 },
        1000,
        937,
        835,
    )));
    scene.push(SceneShape::Triangle(Triangle::new(bnd(4, 5, 6), Pipeline { id: 200 }, 0, 1000, 0)));
    scene.push(SceneShape::Square(Square::new(bnd(7, 8, 9), Pipeline { id: 300 }, 0, 1000, 0)));

    let mut ctx = DrawContext::new();
    scene.draw_all(&mut ctx);
    let cmds = ctx.commands();
    // each shape records pipeline, bindings, uniforms, draw — once, in order
    assert_eq!(cmds.len(), 12);
    assert_eq!(pipeline_ids(cmds), vec![100, 200, 300]);
    for chunk in cmds.chunks(4) {
        assert!(matches!(chunk[0], Command::ApplyPipeline { .. }));
        assert!(matches!(chunk[1], Command::ApplyBindings { .. }));
        assert!(matches!(chunk[2], Command::ApplyUniforms { .. }));
        assert!(matches!(chunk[3], Command::Draw { .. }));
    }

    // a second frame paints in the same order again
    let mut ctx2 = DrawContext::new();
    scene.draw_all(&mut ctx2);
    assert_eq!(pipeline_ids(ctx2.commands()), vec![100, 200, 300]);
}

#[test]
fn dispatch_reaches_only_the_triangle() {
    let mut scene = default_scene(
        bnd(1, 2, 3),
        Pipeline { id: 100 },
        bnd(4, 5, 6),
        Pipeline { id: 200 },
        bnd(7, 8, 9),
        Pipeline { id: 300 },
    );
    scene.dispatch_key_down(KeyCode::Up);
    match scene.shape_at(1) {
        SceneShape::Triangle(t) => assert_eq!(t.get_uniform().get_input().len(), 1),
        other => panic!("expected the triangle at paint position 1, got {:?}", other),
    }
    scene.dispatch_key_up(KeyCode::Up);
    match scene.shape_at(1) {
        SceneShape::Triangle(t) => assert_eq!(t.get_uniform().get_input().len(), 0),
        other => panic!("expected the triangle at paint position 1, got {:?}", other),
    }
}

#[test]
fn stage_scenario_ten_frames_holding_right() {
    let mut scene = default_scene(
        bnd(1, 2, 3),
        Pipeline { id: 100 },
        bnd(4, 5, 6),
        Pipeline { id: 200 },
        bnd(7, 8, 9),
        Pipeline { id: 300 },
    );
    assert_eq!(scene.len(), 3);

    scene.dispatch_key_down(KeyCode::Right);
    for _ in 0..10 {
        let mut ctx = DrawContext::new();
        scene.draw_all(&mut ctx);
    }

    match scene.shape_at(1) {
        SceneShape::Triangle(t) => {
            let u = t.get_uniform();
            assert_eq!(u.get_offset_x(), 90);
            assert_eq!(u.get_offset_y(), 0);
            assert_eq!(u.get_red(), -1000);
            assert_eq!(u.get_green(), 1000);
            assert_eq!(u.get_blue(), 0);
        }
        other => panic!("expected the triangle at paint position 1, got {:?}", other),
    }
    // the background and the square are untouched by frames and keys
    match scene.shape_at(0) {
        SceneShape::Background(b) => {
            assert_eq!(b.get_color().get_red(), 1000);
            assert_eq!(b.get_color().get_green(), 937);
            assert_eq!(b.get_color().get_blue(), 835);
        }
        other => panic!("expected the background at paint position 0, got {:?}", other),
    }
    match scene.shape_at(2) {
        SceneShape::Square(sq) => {
            assert_eq!(sq.get_color().get_green(), 1000);
        }
        other => panic!("expected the square at paint position 2, got {:?}", other),
    }
}

#[test]
fn default_scene_composition() {
    let scene = default_scene(
        bnd(1, 2, 3),
        Pipeline { id: 100 },
        bnd(4, 5, 6),
        Pipeline { id: 200 },
        bnd(7, 8, 9),
        Pipeline { id: 300 },
    );
    assert_eq!(scene.len(), 3);
    assert!(matches!(scene.shape_at(0), SceneShape::Background(_)));
    assert!(matches!(scene.shape_at(1), SceneShape::Triangle(_)));
    assert!(matches!(scene.shape_at(2), SceneShape::Square(_)));
    match scene.shape_at(1) {
        SceneShape::Triangle(t) => {
            assert_eq!(t.get_uniform().get_red(), 0);
            assert_eq!(t.get_uniform().get_green(), 1000);
            assert_eq!(t.get_uniform().get_blue(), 0);
            assert_eq!(t.get_uniform().get_offset_x(), 0);
            assert_eq!(t.get_uniform().get_offset_y(), 0);
        }
        other => panic!("expected the triangle at paint position 1, got {:?}", other),
    }
    match scene.shape_at(1) {
        SceneShape::Triangle(t) => assert_eq!(t.get_segments(), 3),
        _ => unreachable!(),
    }
}

#[test]
fn scene_draw_uniform_stream_first_frame() {
    let mut scene = default_scene(
        bnd(1, 2, 3),
        Pipeline { id: 100 },
        bnd(4, 5, 6),
        Pipeline { id: 200 },
        bnd(7, 8, 9),
        Pipeline { id: 300 },
    );
    let mut ctx = DrawContext::new();
    scene.draw_all(&mut ctx);
    let uniforms: Vec<UniformPayload> = ctx
        .commands()
        .iter()
        .filter_map(|c| match c {
            Command::ApplyUniforms { uniforms } => Some(*uniforms),
            _ => None,
        })
        .collect();
    assert_eq!(
        uniforms,
        vec![
            UniformPayload::Flat { red: 1000, green: 937, blue: 835 },
            UniformPayload::Offset { red: -100, green: 1000, blue: 0, offset_x: 0, offset_y: 0 },
            UniformPayload::Flat { red: 0, green: 1000, blue: 0 },
        ]
    );
}
