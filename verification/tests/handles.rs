//! The runtime handle-validity invariant: every stored resource handle must
//! index into its owning table.

use slideshow::description::{ImageDescription, TextDescription};
use slideshow::geometry::{Anchor, Extent};
use slideshow::resources::{FontId, ImageId, ResourceCounts, ShaderId};
use slideshow::slide::Slide;
use slideshow::slideshow::Slideshow;

fn tables() -> ResourceCounts {
    ResourceCounts { fonts: 1, images: 1, shaders: 1 }
}

fn show(font: FontId, image: ImageId, shader: Option<ShaderId>) -> Slideshow {
    let mut s = Slideshow::new();
    s.add(Slide::blank().add_text(TextDescription {
        text: "Hello world".to_string(),
        font,
        size: 84,
        extent: Extent { width: 1000, height: 1000 },
        position: Anchor::new(500, 500),
        shader: None,
    }));
    s.add(Slide::blank().add_image(ImageDescription {
        image,
        extent: Extent { width: 1000, height: 1000 },
        position: Anchor::new(500, 500),
        shader,
    }));
    s
}

#[test]
fn handles_into_the_tables_are_valid() {
    let s = show(FontId(0), ImageId(0), Some(ShaderId(0)));
    assert!(s.handles_valid(&tables()));
}

#[test]
fn empty_show_is_vacuously_valid() {
    let s = Slideshow::new();
    assert!(s.handles_valid(&ResourceCounts { fonts: 0, images: 0, shaders: 0 }));
}

#[test]
fn font_handle_past_the_table_is_invalid() {
    let s = show(FontId(1), ImageId(0), None);
    assert!(!s.handles_valid(&tables()));
}

#[test]
fn image_handle_past_the_table_is_invalid() {
    let s = show(FontId(0), ImageId(5), None);
    assert!(!s.handles_valid(&tables()));
}

#[test]
fn shader_override_handle_is_checked_too() {
    let s = show(FontId(0), ImageId(0), Some(ShaderId(1)));
    assert!(!s.handles_valid(&tables()));
    let s = show(FontId(0), ImageId(0), None);
    assert!(s.handles_valid(&tables()));
}

#[test]
fn validity_follows_the_table_sizes() {
    let s = show(FontId(3), ImageId(2), Some(ShaderId(4)));
    assert!(!s.handles_valid(&tables()));
    assert!(s.handles_valid(&ResourceCounts { fonts: 4, images: 3, shaders: 5 }));
}
