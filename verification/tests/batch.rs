use rgx::kit::shape2d::mesh::Outline;
use rgx::kit::shape2d::{Batch, Fill, Rotation, Shape, Stroke, TriangulateError, ZDepth};
use rgx::kit::{Rect, Rgba};
use rgx::scalar::Scalar;

const WHITE: Rgba<u8> = Rgba { r: 255, g: 255, b: 255, a: 255 };
const RED: Rgba<u8> = Rgba { r: 255, g: 0, b: 0, a: 255 };

fn s(x: f32) -> Scalar {
    Scalar::from_bits(x.to_bits())
}

fn f(x: Scalar) -> f32 {
    f32::from_bits(x.to_bits())
}

fn rectangle(x: f32, width: f32, fill: Fill) -> Shape {
    Shape::Rectangle(
        Rect::new(s(x), s(0.0), s(x + 4.0), s(4.0)),
        ZDepth(s(0.0)),
        Rotation::zero(),
        if width == 0.0 { Stroke::none() } else { Stroke::new(s(width), RED) },
        fill,
    )
}

fn inset(shape: &Shape) -> Outline {
    match *shape {
        Shape::Rectangle(r, _, _, stroke, _) => {
            let w = f(stroke.width);
            Outline::Rectangle(Rect::new(
                s(f(r.x1) + w),
                s(f(r.y1) + w),
                s(f(r.x2) - w),
                s(f(r.y2) - w),
            ))
        }
        _ => unreachable!(),
    }
}

fn outlines(batch: &Batch) -> Vec<Outline> {
    (0..batch.len()).map(|i| inset(&batch.get(i).unwrap())).collect()
}

#[test]
fn new_batch_is_empty_until_a_shape_is_added_and_again_once_cleared() {
    let mut batch = Batch::new();
    assert!(batch.is_empty());
    batch.add(rectangle(0.0, 0.0, Fill::Solid(WHITE)));
    assert!(!batch.is_empty());
    assert_eq!(batch.len(), 1);
    batch.clear();
    assert!(batch.is_empty());
    assert_eq!(batch.len(), 0);
    assert_eq!(batch.get(0), None);
}

#[test]
fn singleton_holds_its_shape() {
    let shape = rectangle(0.0, 1.0, Fill::Empty());
    let batch = Batch::singleton(shape);
    assert_eq!(batch.len(), 1);
    assert_eq!(batch.get(0), Some(shape));
    assert_eq!(batch.get(1), None);
}

#[test]
fn empty_batch_has_no_vertices() {
    let batch = Batch::new();
    assert_eq!(batch.vertices(&vec![]), Ok(vec![]));
}

#[test]
fn vertices_follow_the_order_of_adding() {
    let first = rectangle(0.0, 0.0, Fill::Solid(WHITE));
    let second = rectangle(10.0, 1.0, Fill::Solid(WHITE));
    let third = rectangle(20.0, 1.0, Fill::Empty());
    let mut batch = Batch::new();
    batch.add(first);
    batch.add(second);
    batch.add(third);
    let all = batch.vertices(&outlines(&batch)).unwrap();
    assert_eq!(all.len(), 6 + 30 + 24);
    let mut expected = first.triangulate(&inset(&first)).unwrap();
    expected.extend(second.triangulate(&inset(&second)).unwrap());
    expected.extend(third.triangulate(&inset(&third)).unwrap());
    assert_eq!(all, expected);
    assert_eq!(f(all[0].position.x), 0.0);
    assert_eq!(f(all[6].position.x), 10.0);
    assert_eq!(f(all[36].position.x), 20.0);
}

#[test]
fn vertices_leave_the_batch_as_it_is() {
    let mut batch = Batch::new();
    batch.add(rectangle(0.0, 1.0, Fill::Solid(WHITE)));
    let outlines = outlines(&batch);
    let once = batch.vertices(&outlines);
    let twice = batch.vertices(&outlines);
    assert_eq!(once, twice);
    assert_eq!(batch.len(), 1);
    assert_eq!(batch.buffer(&outlines), once);
    assert_eq!(batch.finish(&outlines), once);
}

#[test]
fn finish_with_a_gradient_rectangle_fails() {
    let batch = Batch::singleton(rectangle(0.0, 1.0, Fill::Gradient(RED, WHITE)));
    let outlines = outlines(&batch);
    assert_eq!(batch.finish(&outlines), Err(TriangulateError::UnsupportedFill));
}

#[test]
fn one_bad_shape_fails_the_whole_batch() {
    let mut batch = Batch::new();
    batch.add(rectangle(0.0, 1.0, Fill::Solid(WHITE)));
    batch.add(rectangle(10.0, 1.0, Fill::Gradient(RED, WHITE)));
    batch.add(rectangle(20.0, -1.0, Fill::Solid(WHITE)));
    let outlines = outlines(&batch);
    assert_eq!(batch.vertices(&outlines), Err(TriangulateError::UnsupportedFill));
    assert_eq!(batch.buffer(&outlines), Err(TriangulateError::UnsupportedFill));
}

#[test]
fn outlines_must_be_one_to_a_shape() {
    let mut batch = Batch::new();
    batch.add(rectangle(0.0, 1.0, Fill::Solid(WHITE)));
    batch.add(rectangle(10.0, 1.0, Fill::Solid(WHITE)));
    let mut outlines = outlines(&batch);
    outlines.pop();
    assert_eq!(batch.vertices(&outlines), Err(TriangulateError::OutlineMismatch));
    assert_eq!(batch.vertices(&vec![]), Err(TriangulateError::OutlineMismatch));
}
