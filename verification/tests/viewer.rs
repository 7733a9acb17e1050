use plotview::controller::Action;
use plotview::controller::Controller;
use plotview::raster::rasterize;
use plotview::scene::parse_scene;
use plotview::scene::LoadError;
use plotview::surface::Surface;

const RED_100: &str = r#"<svg xmlns="http://www.w3.org/2000/svg" width="100" height="100" viewBox="0 0 100 100"><rect x="0" y="0" width="100" height="100" fill="red"/></svg>"#;

const BLUE_200_50: &str = r#"<svg xmlns="http://www.w3.org/2000/svg" width="200" height="50" viewBox="0 0 200 50"><rect x="0" y="0" width="200" height="50" fill="blue"/></svg>"#;

fn red_doc() -> Vec<u8> {
    RED_100.as_bytes().to_vec()
}

fn blue_doc() -> Vec<u8> {
    BLUE_200_50.as_bytes().to_vec()
}

fn pixel(data: &[u8], width: u32, x: u32, y: u32) -> [u8; 4] {
    let i = ((y * width + x) * 4) as usize;
    [data[i], data[i + 1], data[i + 2], data[i + 3]]
}

#[test]
fn parse_accepts_well_formed_document() {
    let scene = parse_scene(&red_doc());
    assert!(scene.is_ok());
}

#[test]
fn parse_rejects_malformed_document() {
    let r = parse_scene(&b"this is not a vector document".to_vec());
    assert_eq!(r.err(), Some(LoadError::Parse));
}

#[test]
fn rasterize_dimensions_equal_request() {
    let scene = parse_scene(&red_doc()).ok().unwrap();
    let fb = rasterize(&scene, 50, 40);
    assert_eq!(fb.width(), 50);
    assert_eq!(fb.height(), 40);
    assert_eq!(fb.data().len(), 4 * 50 * 40);
}

#[test]
fn rasterize_fills_the_whole_target() {
    let scene = parse_scene(&red_doc()).ok().unwrap();
    let fb = rasterize(&scene, 80, 60);
    let data = fb.data();
    // The square document is scaled to fill 80x60 exactly, so every
    // corner of the buffer is covered by the red rectangle.
    assert_eq!(pixel(data, 80, 40, 30), [255, 0, 0, 255]);
    assert_eq!(pixel(data, 80, 0, 0), [255, 0, 0, 255]);
    assert_eq!(pixel(data, 80, 79, 0), [255, 0, 0, 255]);
    assert_eq!(pixel(data, 80, 0, 59), [255, 0, 0, 255]);
    assert_eq!(pixel(data, 80, 79, 59), [255, 0, 0, 255]);
}

#[test]
fn rasterize_zero_size_gives_zero_sized_buffer() {
    let scene = parse_scene(&red_doc()).ok().unwrap();
    let fb = rasterize(&scene, 0, 10);
    assert_eq!(fb.width(), 0);
    assert_eq!(fb.height(), 10);
    assert_eq!(fb.data().len(), 0);
    let fb2 = rasterize(&scene, 10, 0);
    assert_eq!(fb2.data().len(), 0);
}

#[test]
fn reload_replaces_scene_and_requests_redraw() {
    let mut c = Controller::new(red_doc(), 64, 48).ok().unwrap();
    c.handle_redraw(64, 48);
    assert_eq!(pixel(c.frame_data(), 64, 32, 24), [255, 0, 0, 255]);
    let act = c.handle_file_changed(Some(blue_doc()));
    assert_eq!(act, Action::Redraw);
    c.handle_redraw(64, 48);
    assert_eq!(pixel(c.frame_data(), 64, 32, 24), [0, 0, 255, 255]);
}

#[test]
fn failed_read_changes_nothing() {
    let mut c = Controller::new(red_doc(), 64, 48).ok().unwrap();
    c.handle_redraw(64, 48);
    let before = c.frame_data().clone();
    let act = c.handle_file_changed(None);
    assert_eq!(act, Action::Idle);
    c.handle_redraw(64, 48);
    assert_eq!(c.frame_data(), &before);
}

#[test]
fn surface_resize_is_idempotent() {
    let mut s = Surface::new(10, 10);
    s.resize(20, 30);
    let w = s.width();
    let h = s.height();
    let frame = s.frame_data().clone();
    s.resize(20, 30);
    assert_eq!(s.width(), w);
    assert_eq!(s.height(), h);
    assert_eq!(s.frame_data(), &frame);
}

#[test]
fn redraw_after_one_or_two_equal_resizes_is_identical() {
    let mut once = Controller::new(red_doc(), 800, 600).ok().unwrap();
    once.handle_resize(400, 300);
    once.handle_redraw(400, 300);

    let mut twice = Controller::new(red_doc(), 800, 600).ok().unwrap();
    twice.handle_resize(400, 300);
    twice.handle_resize(400, 300);
    twice.handle_redraw(400, 300);

    assert_eq!(once.frame_data(), twice.frame_data());
}

#[test]
fn scenario_first_redraw_fills_initial_window() {
    let mut c = Controller::new(red_doc(), 800, 600).ok().unwrap();
    c.handle_redraw(800, 600);
    assert_eq!(c.surface_width(), 800);
    assert_eq!(c.surface_height(), 600);
    let data = c.frame_data();
    assert_eq!(data.len(), 4 * 800 * 600);
    assert_eq!(pixel(data, 800, 400, 300), [255, 0, 0, 255]);
    assert_eq!(pixel(data, 800, 799, 599), [255, 0, 0, 255]);
}

#[test]
fn scenario_invalid_overwrite_keeps_prior_content() {
    let mut c = Controller::new(red_doc(), 64, 48).ok().unwrap();
    c.handle_redraw(64, 48);
    let before = c.frame_data().clone();
    let act = c.handle_file_changed(Some(b"<svg invalid".to_vec()));
    assert_eq!(act, Action::Idle);
    c.handle_redraw(64, 48);
    assert_eq!(c.frame_data(), &before);
    assert_eq!(pixel(c.frame_data(), 64, 32, 24), [255, 0, 0, 255]);
}

#[test]
fn scenario_resize_reallocates_to_new_size() {
    let mut c = Controller::new(red_doc(), 800, 600).ok().unwrap();
    c.handle_redraw(800, 600);
    let act = c.handle_resize(400, 300);
    assert_eq!(act, Action::Redraw);
    assert_eq!(c.surface_width(), 400);
    assert_eq!(c.surface_height(), 300);
    c.handle_redraw(400, 300);
    assert_eq!(c.frame_data().len(), 4 * 400 * 300);
}

#[test]
fn scenario_unreadable_document_fails_startup() {
    let r = Controller::new(b"no such document".to_vec(), 800, 600);
    assert!(r.is_err());
}

#[test]
fn oversized_document_renders_the_cleared_frame() {
    // A root size beyond what a pixel rect can express parses fine; the
    // renderer must not crash on it and leaves the cleared frame.
    let doc = r#"<svg xmlns="http://www.w3.org/2000/svg" width="3000000000" height="10" viewBox="0 0 100 100"><rect width="100" height="100" fill="red"/></svg>"#;
    let scene = parse_scene(&doc.as_bytes().to_vec()).ok().unwrap();
    let fb = rasterize(&scene, 10, 10);
    assert_eq!(fb.width(), 10);
    assert_eq!(fb.height(), 10);
    assert!(fb.data().iter().all(|b| *b == 0));
}

#[test]
fn external_image_reference_is_not_read() {
    // An image referencing a file parses (the reference is skipped, not
    // resolved from disk) and renders nothing for it.
    let doc = r#"<svg xmlns="http://www.w3.org/2000/svg" xmlns:xlink="http://www.w3.org/1999/xlink" width="10" height="10" viewBox="0 0 10 10"><image xlink:href="missing.png" width="10" height="10"/></svg>"#;
    let scene = parse_scene(&doc.as_bytes().to_vec()).ok().unwrap();
    let fb = rasterize(&scene, 8, 8);
    assert_eq!(fb.data().len(), 4 * 8 * 8);
    assert!(fb.data().iter().all(|b| *b == 0));
}

#[test]
fn close_request_stops_the_loop() {
    let mut c = Controller::new(red_doc(), 64, 48).ok().unwrap();
    assert!(c.is_running());
    let act = c.handle_close();
    assert_eq!(act, Action::Quit);
    assert!(!c.is_running());
}
