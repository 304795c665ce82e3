use pixel_display::apps::spotify::{
    apply_update, needs_cover_fetch, progress_column, toggle_command, update_cache,
    PlaybackCommand, SpotifyData,
};

fn snapshot(song: Option<&str>, cover: Option<Vec<u8>>) -> SpotifyData {
    let mut s = SpotifyData::empty();
    s.current_song = song.map(|t| t.to_string());
    s.cover_raw = cover;
    s
}

#[test]
fn empty_snapshot_is_the_no_data_state() {
    let s = SpotifyData::empty();
    assert!(s.current_song.is_none());
    assert!(s.duration_ms.is_none());
    assert!(s.progress_ms.is_none());
    assert!(s.device_id.is_none());
    assert!(s.cover_raw.is_none());
    assert!(s.paused);
}

#[test]
fn scenario_no_track_to_track_signals_once() {
    // Worker poll transitions from "no track" to "track X" while the
    // widget is hidden: exactly one synthetic Held is forwarded.
    let published = SpotifyData::empty();
    let new = snapshot(Some("X"), None);
    let (merged, signal) = apply_update(published, new, false);
    assert!(signal);
    assert_eq!(merged.current_song.as_deref(), Some("X"));
}

#[test]
fn no_signal_when_already_rendering() {
    let published = SpotifyData::empty();
    let new = snapshot(Some("X"), None);
    let (_merged, signal) = apply_update(published, new, true);
    assert!(!signal);
}

#[test]
fn track_to_no_track_signals_when_rendering() {
    let published = snapshot(Some("X"), None);
    let (_merged, signal) = apply_update(published, SpotifyData::empty(), true);
    assert!(signal);

    let published = snapshot(Some("X"), None);
    let (_merged, signal) = apply_update(published, SpotifyData::empty(), false);
    assert!(!signal);
}

#[test]
fn unchanged_presence_never_signals() {
    let published = snapshot(Some("X"), None);
    let new = snapshot(Some("Y"), None);
    let (_m, signal) = apply_update(published, new, false);
    assert!(!signal);
    let (_m, signal) = apply_update(SpotifyData::empty(), SpotifyData::empty(), true);
    assert!(!signal);
}

#[test]
fn scenario_cover_art_retained_for_same_track() {
    // Snapshot N has cover art for "Foo"; the next poll reports
    // "Foo" again: no new fetch is owed and the bytes are retained.
    let published = snapshot(Some("Foo"), Some(vec![1, 2, 3]));
    assert!(!needs_cover_fetch(&published.current_song, &"Foo".to_string()));
    let new = snapshot(Some("Foo"), None);
    let (merged, _signal) = apply_update(published, new, true);
    assert_eq!(merged.cover_raw, Some(vec![1, 2, 3]));
}

#[test]
fn cover_fetch_owed_for_new_or_changed_track() {
    assert!(needs_cover_fetch(&None, &"Foo".to_string()));
    assert!(needs_cover_fetch(&Some("Foo".to_string()), &"Bar".to_string()));
}

#[test]
fn fresh_cover_replaces_the_old_one() {
    let published = snapshot(Some("Foo"), Some(vec![1]));
    let new = snapshot(Some("Bar"), Some(vec![9, 9]));
    let (merged, _signal) = apply_update(published, new, true);
    assert_eq!(merged.cover_raw, Some(vec![9, 9]));
}

#[test]
fn merge_takes_new_fields_and_keeps_device() {
    let mut published = snapshot(Some("Foo"), Some(vec![1]));
    published.device_id = Some("dev".to_string());
    published.duration_ms = Some(1000);
    published.progress_ms = Some(500);
    published.paused = false;
    let mut new = snapshot(Some("Bar"), None);
    new.duration_ms = Some(2000);
    new.progress_ms = Some(1);
    new.paused = true;
    new.device_id = None;
    let (merged, _signal) = apply_update(published, new, false);
    assert_eq!(merged.current_song.as_deref(), Some("Bar"));
    assert_eq!(merged.duration_ms, Some(2000));
    assert_eq!(merged.progress_ms, Some(1));
    assert!(merged.paused);
    // The worker never touches the published device identifier.
    assert_eq!(merged.device_id.as_deref(), Some("dev"));
    // No fresh cover came, so the old one stays.
    assert_eq!(merged.cover_raw, Some(vec![1]));
}

#[test]
fn toggle_resumes_when_paused_and_pauses_when_playing() {
    assert_eq!(toggle_command(true), PlaybackCommand::Resume);
    assert_eq!(toggle_command(false), PlaybackCommand::Pause);
}

#[test]
fn progress_column_values() {
    // Half of a 100-second track: 36 + round(23 * 50 / 100) = 48.
    assert_eq!(progress_column(100, 50), 48);
    // Start and end of the track.
    assert_eq!(progress_column(100, 0), 36);
    assert_eq!(progress_column(100, 100), 59);
    // Unknown duration pins the bar at the left edge.
    assert_eq!(progress_column(0, 10), 36);
    // Progress beyond the duration pins it at the right edge.
    assert_eq!(progress_column(100, 200), 59);
    // Rounding is half-up: 23 * 1 / 46 = 0.5 rounds to 1.
    assert_eq!(progress_column(46, 1), 37);
}

#[test]
fn cache_updates_only_on_a_successful_read() {
    let mut prev: Option<SpotifyData> = None;

    // A contended read before any success leaves the cache empty.
    update_cache(None, &mut prev);
    assert!(prev.is_none());

    // A successful read replaces the cache with what was read.
    update_cache(Some(snapshot(Some("One"), None)), &mut prev);
    assert_eq!(prev.as_ref().unwrap().current_song.as_deref(), Some("One"));

    // A contended read afterwards leaves the cache exactly as it was.
    update_cache(None, &mut prev);
    assert_eq!(prev.as_ref().unwrap().current_song.as_deref(), Some("One"));

    // The next successful read replaces it again, wholesale.
    update_cache(Some(snapshot(Some("Two"), Some(vec![7]))), &mut prev);
    assert_eq!(prev.as_ref().unwrap().current_song.as_deref(), Some("Two"));
    assert_eq!(prev.as_ref().unwrap().cover_raw, Some(vec![7]));
}
