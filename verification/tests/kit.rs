use rgx::kit::shape2d::Pipeline;
use rgx::kit::{Kit, Rect, Repeat, Rgba, Vertex};
use rgx::layout::{Binding, BindingType, ShaderStage, Slot, VertexFormat};
use rgx::math::{Matrix4, Ortho, Vector2, Vector3};
use rgx::scalar::Scalar;

fn s(x: f32) -> Scalar {
    Scalar::from_bits(x.to_bits())
}

#[test]
fn scalar_keeps_its_bits() {
    assert_eq!(Scalar::from_bits(0x1234_5678).to_bits(), 0x1234_5678);
    assert_eq!(Scalar::zero().to_bits(), 0.0f32.to_bits());
    assert_eq!(Scalar::one().to_bits(), 1.0f32.to_bits());
}

#[test]
fn scalar_classes_follow_the_numbers() {
    let samples: [f32; 12] = [
        0.0,
        -0.0,
        1.0,
        -1.0,
        f32::MIN_POSITIVE,
        -f32::MIN_POSITIVE,
        1e-45,
        -1e-45,
        f32::INFINITY,
        f32::NEG_INFINITY,
        f32::NAN,
        -f32::NAN,
    ];
    for x in samples.iter() {
        let v = s(*x);
        assert_eq!(v.is_nan(), x.is_nan());
        assert_eq!(v.is_zero(), *x == 0.0);
        assert_eq!(v.is_negative(), *x < 0.0);
        assert_eq!(v.is_positive(), *x > 0.0);
        assert_eq!(v.is_zero_or_more(), *x >= 0.0);
        for y in samples.iter() {
            assert_eq!(v.same_number(s(*y)), *x == *y);
        }
    }
}

#[test]
fn colour_packs_red_first() {
    assert_eq!(u32::from(Rgba::new(0x12u8, 0x34, 0x56, 0x78)), 0x1234_5678);
    assert_eq!(u32::from(Rgba::new(255u8, 0, 0, 0)), 0xff00_0000);
    assert_eq!(u32::from(Rgba::new(0u8, 0, 0, 255)), 0x0000_00ff);
    assert_eq!(u32::from(Rgba::<u8>::white()), 0xffff_ffff);
    assert_eq!(u32::from(Rgba::<u8>::transparent()), 0);
}

#[test]
fn colours_compare_channel_by_channel() {
    let c = Rgba::new(1u8, 2, 3, 4);
    assert!(c.same(Rgba::new(1, 2, 3, 4)));
    assert!(!c.same(Rgba::new(1, 2, 3, 5)));
    assert!(!c.same(Rgba::new(0, 2, 3, 4)));
}

#[test]
fn rect_and_vectors_keep_their_fields() {
    let r = Rect::new(1, 2, 3, 4);
    assert_eq!((r.x1, r.y1, r.x2, r.y2), (1, 2, 3, 4));
    assert_eq!(Vector2::new(s(1.0), s(2.0)), Vector2 { x: s(1.0), y: s(2.0) });
    assert_eq!(Vector3::new(s(1.0), s(2.0), s(3.0)).z, s(3.0));
}

#[test]
fn sprite_vertex_keeps_position_and_texture_place() {
    let v = Vertex::new(s(1.0), s(2.0), s(0.25), s(0.75), Rgba::new(1, 2, 3, 4));
    assert_eq!(v.position, Vector2::new(s(1.0), s(2.0)));
    assert_eq!(v.uv, Vector2::new(s(0.25), s(0.75)));
    assert_eq!(v.color, Rgba::new(1, 2, 3, 4));
}

#[test]
fn repeat_defaults_to_once() {
    let rep = Repeat::default();
    assert_eq!(f32::from_bits(rep.x.to_bits()), 1.0);
    assert_eq!(f32::from_bits(rep.y.to_bits()), 1.0);
}

#[test]
fn identity_has_ones_on_the_diagonal() {
    let m = Matrix4::identity();
    let rows = [
        [m.x.x, m.x.y, m.x.z, m.x.w],
        [m.y.x, m.y.y, m.y.z, m.y.w],
        [m.z.x, m.z.y, m.z.z, m.z.w],
        [m.w.x, m.w.y, m.w.z, m.w.w],
    ];
    for i in 0..4 {
        for j in 0..4 {
            let expected: f32 = if i == j { 1.0 } else { 0.0 };
            assert_eq!(rows[i][j].to_bits(), expected.to_bits());
        }
    }
}

#[test]
fn viewport_bounds_run_from_the_origin_to_the_size() {
    assert_eq!(
        Ortho::viewport(800, 600),
        Ortho { left: 0, right: 800, bottom: 0, top: 600, near: -1, far: 1 }
    );
    assert_eq!(Ortho::viewport(u32::MAX, 0).right, 4294967295);
}

#[test]
fn kit_declares_its_layouts() {
    let kit = Kit::new(640, 480);
    assert_eq!(kit.ortho, Ortho::viewport(640, 480));
    assert_eq!(kit.transform, Matrix4::identity());
    assert_eq!(
        kit.vertex_layout,
        vec![VertexFormat::Float2, VertexFormat::Float2, VertexFormat::UByte4]
    );
    assert_eq!(
        kit.uniforms_layout,
        vec![
            Slot { binding: BindingType::UniformBuffer, stage: ShaderStage::Vertex },
            Slot { binding: BindingType::SampledTexture, stage: ShaderStage::Fragment },
            Slot { binding: BindingType::Sampler, stage: ShaderStage::Fragment },
        ]
    );
}

#[test]
fn kit_resize_changes_the_bounds_alone() {
    let mut kit = Kit::new(640, 480);
    let before = Kit::new(640, 480);
    kit.resize(1024, 768);
    assert_eq!(kit.ortho, Ortho { left: 0, right: 1024, bottom: 0, top: 768, near: -1, far: 1 });
    assert_eq!(kit.transform, before.transform);
    assert_eq!(kit.vertex_layout, before.vertex_layout);
    assert_eq!(kit.uniforms_layout, before.uniforms_layout);
}

#[test]
fn shape_pipeline_declares_position_angle_centre_colour() {
    let d = Pipeline::description();
    assert_eq!(
        d.vertex_layout,
        vec![
            VertexFormat::Float3,
            VertexFormat::Float,
            VertexFormat::Float2,
            VertexFormat::UByte4
        ]
    );
    assert_eq!(d.vertex_size(), 28);
    let uniform = Binding { binding: BindingType::UniformBuffer, stage: ShaderStage::Vertex };
    assert_eq!(d.pipeline_layout, vec![vec![uniform], vec![uniform]]);
}

#[test]
fn vertex_formats_have_their_sizes() {
    assert_eq!(VertexFormat::Float.size(), 4);
    assert_eq!(VertexFormat::Float2.size(), 8);
    assert_eq!(VertexFormat::Float3.size(), 12);
    assert_eq!(VertexFormat::UByte4.size(), 4);
}

#[test]
fn shape_pipeline_follows_the_viewport() {
    let mut p = Pipeline::setup(640, 480);
    assert_eq!(p.ortho, Ortho::viewport(640, 480));
    p.resize(320, 200);
    assert_eq!(p.ortho, Ortho { left: 0, right: 320, bottom: 0, top: 200, near: -1, far: 1 });
}

#[test]
fn prepared_uniforms_hold_the_projection_and_the_identity() {
    let p = Pipeline::setup(640, 480);
    let mut projection = Matrix4::identity();
    projection.x.x = s(0.003125);
    projection.w.x = s(-1.0);
    let u = p.prepare(projection);
    assert_eq!(u.ortho, projection);
    assert_eq!(u.transform, Matrix4::identity());
}

#[test]
fn texture_fills_the_box_from_the_origin_to_its_size() {
    let t = rgx::kit::Texture { w: 32, h: 16 };
    assert_eq!(t.rect(), Rect::new(0, 0, 32, 16));
}

#[test]
fn sprite_is_two_triangles_with_the_texture_upside_down() {
    let mut batch = rgx::kit::SpriteBatch::new(rgx::kit::Texture { w: 32, h: 16 });
    assert_eq!(batch.size, 0);
    assert!(batch.vertices.is_empty());
    assert!(!batch.finished);
    let c = Rgba::new(9u8, 8, 7, 6);
    let uv = Rect::new(s(0.0), s(0.25), s(0.5), s(1.0));
    let dst = Rect::new(s(10.0), s(20.0), s(30.0), s(40.0));
    batch.add(uv, dst, c);
    assert_eq!(batch.size, 1);
    let corner = |x: f32, y: f32, u: f32, v: f32| Vertex::new(s(x), s(y), s(u), s(v), c);
    assert_eq!(
        batch.vertices,
        vec![
            corner(10.0, 20.0, 0.0, 1.0),
            corner(30.0, 20.0, 0.5, 1.0),
            corner(30.0, 40.0, 0.5, 0.25),
            corner(10.0, 20.0, 0.0, 1.0),
            corner(10.0, 40.0, 0.0, 0.25),
            corner(30.0, 40.0, 0.5, 0.25),
        ]
    );
    batch.add(uv, dst, c);
    assert_eq!(batch.size, 2);
    assert_eq!(batch.vertices.len(), 12);
    assert_eq!(batch.vertices[6..], batch.vertices[..6]);
}

#[test]
fn finished_sprite_batch_draws_all_its_vertices() {
    let mut batch = rgx::kit::SpriteBatch::new(rgx::kit::Texture { w: 32, h: 16 });
    let unit = Rect::new(s(0.0), s(0.0), s(1.0), s(1.0));
    batch.add(unit, unit, Rgba::<u8>::white());
    batch.add(unit, unit, Rgba::<u8>::white());
    let before = batch.vertices.clone();
    batch.finish();
    assert!(batch.finished);
    assert_eq!(batch.vertices, before);
    assert_eq!(batch.size, 2);
    assert_eq!(batch.draw(), (0, 12));
}
