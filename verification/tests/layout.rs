//! Resolution-relative layout: exact positions, idempotence, scaling, and
//! origin centering.

use slideshow::component::Component;
use slideshow::geometry::{Anchor, Extent};
use slideshow::resources::{FontId, ImageId};

fn label(anchor: Anchor, extent: Extent) -> Component {
    Component::text("sample".to_string(), FontId(0), 84, extent, anchor, None)
}

#[test]
fn update_places_center_at_anchor_times_surface() {
    // Anchor (0.5, 0.5) of a 1280x720 surface: the center lands at
    // (640, 360) pixels, i.e. (640000, 360000) milli-pixels, exactly.
    let mut c = label(Anchor::new(500, 500), Extent { width: 400_000, height: 90_000 });
    c.update(16, (1280, 720));
    assert_eq!(c.position.x, 640_000);
    assert_eq!(c.position.y, 360_000);
}

#[test]
fn update_is_exact_for_uneven_anchors() {
    // Anchor (0.3, 0.5) of 1280x720: 0.3 * 1280 = 384 pixels exactly.
    let mut c = label(Anchor::new(300, 500), Extent { width: 100, height: 100 });
    c.update(0, (1280, 720));
    assert_eq!(c.position.x, 384_000);
    assert_eq!(c.position.y, 360_000);
}

#[test]
fn update_is_idempotent_for_same_surface() {
    let mut c = label(Anchor::new(250, 750), Extent { width: 12_345, height: 6_789 });
    c.update(5, (1920, 1080));
    let first = c.position;
    c.update(9, (1920, 1080));
    assert_eq!(c.position, first);
    c.update(1000, (1920, 1080));
    assert_eq!(c.position, first);
}

#[test]
fn elapsed_time_does_not_influence_layout() {
    let mut a = label(Anchor::new(123, 456), Extent { width: 10, height: 10 });
    let mut b = label(Anchor::new(123, 456), Extent { width: 10, height: 10 });
    a.update(0, (800, 600));
    b.update(987_654, (800, 600));
    assert_eq!(a.position, b.position);
}

#[test]
fn doubling_the_surface_doubles_the_position() {
    let mut c = label(Anchor::new(333, 777), Extent { width: 1000, height: 1000 });
    c.update(0, (1280, 720));
    let single = c.position;
    c.update(0, (2560, 1440));
    assert_eq!(c.position.x, 2 * single.x);
    assert_eq!(c.position.y, 2 * single.y);
}

#[test]
fn update_tracks_surface_changes() {
    // A fullscreen toggle feeds a new surface size into update; the position
    // follows the new size and comes back after toggling back.
    let mut c = label(Anchor::new(500, 500), Extent { width: 100, height: 100 });
    c.update(0, (1280, 720));
    assert_eq!((c.position.x, c.position.y), (640_000, 360_000));
    c.update(0, (1920, 1200));
    assert_eq!((c.position.x, c.position.y), (960_000, 600_000));
    c.update(0, (1280, 720));
    assert_eq!((c.position.x, c.position.y), (640_000, 360_000));
}

#[test]
fn text_origin_is_centered_in_even_bounding_box() {
    // A text label 400x90 pixels: the origin sits at (200, 45) pixels, so in
    // half milli-pixels it doubles the extent.
    let c = label(Anchor::new(500, 500), Extent { width: 400_000, height: 90_000 });
    assert_eq!(c.origin.x2, 400_000);
    assert_eq!(c.origin.y2, 90_000);
}

#[test]
fn text_bounding_box_is_symmetric_about_anchor() {
    let mut c = label(Anchor::new(500, 500), Extent { width: 400_000, height: 90_000 });
    c.update(0, (1280, 720));
    // All in doubled milli-pixels so exact halves stay integers.
    let center_x2 = 2 * c.position.x as i128;
    let center_y2 = 2 * c.position.y as i128;
    let left2 = center_x2 - c.origin.x2 as i128;
    let top2 = center_y2 - c.origin.y2 as i128;
    let right2 = left2 + 2 * c.extent.width as i128;
    let bottom2 = top2 + 2 * c.extent.height as i128;
    assert_eq!(center_x2 - left2, right2 - center_x2);
    assert_eq!(center_y2 - top2, bottom2 - center_y2);
}

#[test]
fn image_bounding_box_is_symmetric_about_anchor_odd_extent() {
    // An image with an odd extent in both axes, at a different anchor and
    // size than the text case: the box is still exactly symmetric, because
    // the origin is held in half units.
    let mut c = Component::image(
        ImageId(2),
        Extent { width: 123_457, height: 77_001 },
        Anchor::new(250, 800),
        None,
    );
    c.update(0, (1024, 768));
    let center_x2 = 2 * c.position.x as i128;
    let center_y2 = 2 * c.position.y as i128;
    let left2 = center_x2 - c.origin.x2 as i128;
    let top2 = center_y2 - c.origin.y2 as i128;
    let right2 = left2 + 2 * c.extent.width as i128;
    let bottom2 = top2 + 2 * c.extent.height as i128;
    assert_eq!(center_x2 - left2, right2 - center_x2);
    assert_eq!(center_y2 - top2, bottom2 - center_y2);
    assert_eq!(c.origin.x2, 123_457);
    assert_eq!(c.origin.y2, 77_001);
}

#[test]
fn anchor_zero_maps_to_zero() {
    let mut c = label(Anchor::new(0, 0), Extent { width: 10, height: 10 });
    c.update(0, (1280, 720));
    assert_eq!((c.position.x, c.position.y), (0, 0));
}

#[test]
fn extreme_anchor_and_surface_stay_exact() {
    // The largest representable anchor fraction on the largest surface: the
    // product still fits, exactly (4294967295^2).
    let mut c = label(Anchor::new(u32::MAX, 1000), Extent { width: 2, height: 2 });
    c.update(0, (u32::MAX, u32::MAX));
    assert_eq!(c.position.x, 18_446_744_065_119_617_025);
    assert_eq!(c.position.y, 4_294_967_295_000);
}

#[test]
fn full_anchor_maps_to_surface_edge() {
    let mut c = label(Anchor::new(1000, 1000), Extent { width: 10, height: 10 });
    c.update(0, (1280, 720));
    assert_eq!(c.position.x, 1_280_000);
    assert_eq!(c.position.y, 720_000);
}
