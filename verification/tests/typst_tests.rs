use framepipe::rat::Coord;
use framepipe::renderer::Renderer;

const SMALL_SVG: &str = "<svg xmlns=\"http://www.w3.org/2000/svg\" width=\"10\" height=\"20\"><rect width=\"10\" height=\"20\" fill=\"#ff0000\"/></svg>";

#[test]
fn parses_well_formed_svg() {
    let r = Renderer::new(1, 1, 4, 4);
    let ty = r.render_typst(&SMALL_SVG.as_bytes().to_vec());
    assert!(ty.is_some());
    let ty = ty.unwrap();
    assert!(ty.raster.is_none());
    assert_eq!(ty.translation, (Coord::zero(), Coord::zero()));
    assert_eq!(ty.scale, (Coord::one(), Coord::one()));
}

#[test]
fn rejects_unparsable_bytes() {
    let r = Renderer::new(1, 1, 4, 4);
    assert!(r.render_typst(&b"not a vector document".to_vec()).is_none());
}

#[test]
fn reports_the_document_size() {
    let r = Renderer::new(1, 1, 4, 4);
    let ty = r.render_typst(&SMALL_SVG.as_bytes().to_vec()).unwrap();
    let size = ty.get_size();
    assert_eq!(size.width(), 10.0);
    assert_eq!(size.height(), 20.0);
}

#[test]
fn placement_parameters_are_stored() {
    let r = Renderer::new(1, 1, 4, 4);
    let mut ty = r.render_typst(&SMALL_SVG.as_bytes().to_vec()).unwrap();
    ty.translate(Coord::new(-5, 1), Coord::new(7, 2));
    ty.scale(Coord::new(3, 2), Coord::new(3, 2));
    assert_eq!(ty.translation, (Coord::new(-5, 1), Coord::new(7, 2)));
    assert_eq!(ty.scale, (Coord::new(3, 2), Coord::new(3, 2)));
}

#[test]
fn build_then_render_hands_back_the_bitmap() {
    let r = Renderer::new(1, 1, 4, 4);
    let mut ty = r.render_typst(&SMALL_SVG.as_bytes().to_vec()).unwrap();
    ty.translate(Coord::new(12, 1), Coord::new(34, 1));
    let mut pixels = vec![0u8; 2 * 3 * 4];
    pixels[5] = 200;
    ty.build(pixels.clone(), 2, 3);
    assert!(ty.raster.is_some());

    let blit = ty.render();
    assert_eq!(blit.pixels, pixels);
    assert_eq!(blit.width, 2);
    assert_eq!(blit.height, 3);
    assert_eq!(blit.x, Coord::new(12, 1));
    assert_eq!(blit.y, Coord::new(34, 1));

    // a rebuild replaces the raster
    let fresh = vec![9u8; 4 * 1 * 4];
    ty.build(fresh.clone(), 4, 1);
    let blit = ty.render();
    assert_eq!(blit.pixels, fresh);
    assert_eq!(blit.width, 4);
    assert_eq!(blit.height, 1);
}
