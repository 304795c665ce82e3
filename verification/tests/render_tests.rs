use pixel_display::apps::app::App;
use pixel_display::apps::spotify::{Spotify, SpotifyData};
use pixel_display::pixel_display::pixel_display::{DisplayMode, PixelDisplay, Rgb};

fn simulated_display() -> PixelDisplay {
    PixelDisplay::new(32, 64, DisplayMode::Simulated).expect("simulated backend always comes up")
}

#[test]
fn simulated_display_comes_up_with_its_shape() {
    let mut d = simulated_display();
    assert_eq!(d.rows, 32);
    assert_eq!(d.cols, 64);
    d.update();
    d.draw_text("hello", 2, 10);
    d.draw_line(36, 17, 59, 17, Rgb { r: 169, g: 169, b: 169 }, 1);
    d.draw_triangle(44, 22, 44, 28, 51, 25, Rgb { r: 50, g: 205, b: 50 });
    assert_eq!(d.rows, 32);
    assert_eq!(d.cols, 64);
}

#[test]
fn empty_snapshot_renders_the_placeholder() {
    let mut d = simulated_display();
    SpotifyData::empty().draw(&mut d);
}

#[test]
fn full_snapshot_renders() {
    let mut d = simulated_display();
    let mut s = SpotifyData::empty();
    s.current_song = Some("A Song".to_string());
    s.duration_ms = Some(180_000);
    s.progress_ms = Some(30_000);
    s.paused = false;
    // Cover bytes that are not a bitmap are skipped, not fatal.
    s.cover_raw = Some(vec![1, 2, 3]);
    s.draw(&mut d);
}

#[test]
fn reader_sees_whole_snapshots() {
    let (tx, _rx) = std::sync::mpsc::channel();
    let mut sp = Spotify::new(tx);
    let handle = sp.data_handle();
    let mut d = simulated_display();

    // The worker publishes snapshot one, then snapshot two, each as
    // one whole value under the write lock.
    let mut s1 = SpotifyData::empty();
    s1.current_song = Some("One".to_string());
    s1.duration_ms = Some(1000);
    *handle.write().unwrap() = s1;
    let mut s2 = SpotifyData::empty();
    s2.current_song = Some("Two".to_string());
    s2.duration_ms = Some(2000);
    s2.cover_raw = Some(vec![5]);
    *handle.write().unwrap() = s2;

    sp.draw(&mut d);
    let seen = sp.prev_data.clone().expect("a successful read is cached");
    // Every field belongs to the later snapshot; no blend.
    assert_eq!(seen.current_song.as_deref(), Some("Two"));
    assert_eq!(seen.duration_ms, Some(2000));
    assert_eq!(seen.cover_raw, Some(vec![5]));
}

#[test]
fn render_never_blocks_on_a_held_write_lock() {
    let (tx, _rx) = std::sync::mpsc::channel();
    let mut sp = Spotify::new(tx);
    let handle = sp.data_handle();
    let mut d = simulated_display();

    let mut s1 = SpotifyData::empty();
    s1.current_song = Some("Cached".to_string());
    *handle.write().unwrap() = s1;
    sp.draw(&mut d);
    assert!(sp.prev_data.is_some());

    // A writer holds the cell for good; drawing must still return,
    // rendering the cached snapshot.
    let guard = handle.write().unwrap();
    sp.draw(&mut d);
    let seen = sp.prev_data.clone().unwrap();
    assert_eq!(seen.current_song.as_deref(), Some("Cached"));
    drop(guard);
}

#[test]
fn draw_before_any_read_renders_the_placeholder() {
    let (tx, _rx) = std::sync::mpsc::channel();
    let mut sp = Spotify::new(tx);
    let handle = sp.data_handle();
    let mut d = simulated_display();

    // The cell is contended before anything was ever read.
    let guard = handle.write().unwrap();
    sp.draw(&mut d);
    drop(guard);
    assert!(sp.prev_data.is_none());
}
