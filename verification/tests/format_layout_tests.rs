use delineate::{Format, LayoutEngine};

#[test]
fn format_extensions() {
    assert_eq!(Format::Svg.extension(), "svg");
    assert_eq!(Format::Png.extension(), "png");
    assert_eq!(Format::Jpeg.extension(), "jpg");
}

#[test]
fn format_mime_types() {
    assert_eq!(Format::Svg.mime_type(), "image/svg+xml");
    assert_eq!(Format::Png.mime_type(), "image/png");
    assert_eq!(Format::Jpeg.mime_type(), "image/jpeg");
}

#[test]
fn format_names() {
    assert_eq!(Format::Svg.name(), "SVG");
    assert_eq!(Format::Png.name(), "PNG");
    assert_eq!(Format::Jpeg.name(), "JPEG");
}

#[test]
fn layout_engine_raw_names() {
    assert_eq!(LayoutEngine::Dot.as_raw(), "dot");
    assert_eq!(LayoutEngine::Circo.as_raw(), "circo");
    assert_eq!(LayoutEngine::Fdp.as_raw(), "fdp");
    assert_eq!(LayoutEngine::Sfdp.as_raw(), "sfdp");
    assert_eq!(LayoutEngine::Neato.as_raw(), "neato");
    assert_eq!(LayoutEngine::Osage.as_raw(), "osage");
    assert_eq!(LayoutEngine::Patchwork.as_raw(), "patchwork");
    assert_eq!(LayoutEngine::Twopi.as_raw(), "twopi");
}

#[test]
fn layout_engine_index_round_trip() {
    for i in 0u32..8 {
        let engine = LayoutEngine::from_index(i).unwrap();
        assert_eq!(engine.index(), i);
    }
    assert!(LayoutEngine::from_index(8).is_none());
    assert!(LayoutEngine::from_index(u32::MAX).is_none());
}
