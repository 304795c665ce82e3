use std::collections::VecDeque;

use pixel_display::apps::app::{App, AppKind, AppSlot};
use pixel_display::apps::launcher::{Input, Launcher};
use pixel_display::apps::main_menu::{Background, MainMenu};
use pixel_display::apps::spotify::Spotify;
use pixel_display::modules::image::Image;
use pixel_display::pixel_display::pixel_display::{DisplayMode, PixelDisplay};

/// A minimal valid 1x1 24-bit BMP file.
fn tiny_bmp() -> Vec<u8> {
    let mut b: Vec<u8> = Vec::new();
    b.extend_from_slice(b"BM");
    b.extend_from_slice(&58u32.to_le_bytes());
    b.extend_from_slice(&0u16.to_le_bytes());
    b.extend_from_slice(&0u16.to_le_bytes());
    b.extend_from_slice(&54u32.to_le_bytes());
    b.extend_from_slice(&40u32.to_le_bytes());
    b.extend_from_slice(&1i32.to_le_bytes());
    b.extend_from_slice(&1i32.to_le_bytes());
    b.extend_from_slice(&1u16.to_le_bytes());
    b.extend_from_slice(&24u16.to_le_bytes());
    b.extend_from_slice(&0u32.to_le_bytes());
    b.extend_from_slice(&4u32.to_le_bytes());
    b.extend_from_slice(&0i32.to_le_bytes());
    b.extend_from_slice(&0i32.to_le_bytes());
    b.extend_from_slice(&0u32.to_le_bytes());
    b.extend_from_slice(&0u32.to_le_bytes());
    b.extend_from_slice(&[10, 20, 30, 0]);
    b
}

fn background(bytes: &[u8], mark: i32) -> Background<'_> {
    Background {
        image: Image::new(bytes).expect("bitmap must parse"),
        time_anchor: (mark, 6),
        date_anchor: (mark, 30),
    }
}

fn menu(bytes: &[u8]) -> MainMenu<'_> {
    let mut backs = VecDeque::new();
    backs.push_back(background(bytes, 0));
    backs.push_back(background(bytes, 1));
    MainMenu::new(backs)
}

#[test]
fn scenario_two_apps_rotate_back_to_menu() {
    let bytes = tiny_bmp();
    let (tx, _rx) = std::sync::mpsc::channel();
    let spotify = Spotify::new(tx);
    let rendering = spotify.rendering_handle();

    let mut apps = VecDeque::new();
    apps.push_back(AppSlot::new_main_menu(menu(&bytes)));
    apps.push_back(AppSlot::new_spotify(spotify));
    let mut launcher = Launcher::new(apps);

    // The first-registered app is active from construction.
    assert_eq!(launcher.active_kind(), AppKind::MainMenu);
    assert!(!*rendering.read().unwrap());

    launcher.handle_input(Input::Held);
    assert_eq!(launcher.active_kind(), AppKind::Spotify);
    // The widget's enable hook fired: it marked itself on show.
    assert!(*rendering.read().unwrap());

    launcher.handle_input(Input::Held);
    assert_eq!(launcher.active_kind(), AppKind::MainMenu);
    // The widget's disable hook fired on the way out.
    assert!(!*rendering.read().unwrap());

    // The full set of registered apps is unchanged.
    assert_eq!(launcher.len(), 2);
}

#[test]
fn rotation_over_three_apps_cycles() {
    let bytes = tiny_bmp();
    let (tx1, _rx1) = std::sync::mpsc::channel();
    let (tx2, _rx2) = std::sync::mpsc::channel();

    let mut apps = VecDeque::new();
    apps.push_back(AppSlot::new_main_menu(menu(&bytes)));
    apps.push_back(AppSlot::new_spotify(Spotify::new(tx1)));
    apps.push_back(AppSlot::new_spotify(Spotify::new(tx2)));
    let mut launcher = Launcher::new(apps);

    let expected = [
        AppKind::MainMenu,
        AppKind::Spotify,
        AppKind::Spotify,
        AppKind::MainMenu,
        AppKind::Spotify,
        AppKind::Spotify,
        AppKind::MainMenu,
    ];
    for kind in expected {
        assert_eq!(launcher.active_kind(), kind);
        launcher.handle_input(Input::Held);
    }
    assert_eq!(launcher.len(), 3);
}

#[test]
fn non_held_events_never_change_the_active_app() {
    let bytes = tiny_bmp();
    let (tx, rx) = std::sync::mpsc::channel();

    let mut apps = VecDeque::new();
    apps.push_back(AppSlot::new_main_menu(menu(&bytes)));
    apps.push_back(AppSlot::new_spotify(Spotify::new(tx)));
    let mut launcher = Launcher::new(apps);

    launcher.handle_input(Input::Next);
    launcher.handle_input(Input::Prev);
    launcher.handle_input(Input::Pressed);
    assert_eq!(launcher.active_kind(), AppKind::MainMenu);

    // Rotate to the widget; a Pressed is then forwarded to it.
    launcher.handle_input(Input::Held);
    assert_eq!(launcher.active_kind(), AppKind::Spotify);
    launcher.handle_input(Input::Pressed);
    assert_eq!(rx.try_recv(), Ok(Input::Pressed));
}

#[test]
fn menu_next_and_prev_rotate_backgrounds() {
    let bytes = tiny_bmp();
    let mut backs = VecDeque::new();
    backs.push_back(background(&bytes, 0));
    backs.push_back(background(&bytes, 1));
    backs.push_back(background(&bytes, 2));
    let mut m = MainMenu::new(backs);

    m.input(Input::Next);
    assert_eq!(m.backgrounds[0].time_anchor.0, 1);
    assert_eq!(m.backgrounds[2].time_anchor.0, 0);

    m.input(Input::Prev);
    assert_eq!(m.backgrounds[0].time_anchor.0, 0);

    m.input(Input::Pressed);
    m.input(Input::Held);
    assert_eq!(m.backgrounds[0].time_anchor.0, 0);
    assert_eq!(m.backgrounds.len(), 3);
}

#[test]
fn menu_enable_randomizes_but_keeps_the_set() {
    let bytes = tiny_bmp();
    let mut backs = VecDeque::new();
    for mark in 0..5 {
        backs.push_back(background(&bytes, mark));
    }
    let mut m = MainMenu::new(backs);
    m.enable();
    assert_eq!(m.backgrounds.len(), 5);
    let mut marks: Vec<i32> = m.backgrounds.iter().map(|b| b.time_anchor.0).collect();
    marks.sort();
    assert_eq!(marks, vec![0, 1, 2, 3, 4]);
    // The shown background was swapped with one of the others.
    assert_ne!(m.backgrounds[0].time_anchor.0, 0);
}

#[test]
fn draw_renders_the_active_app() {
    let bytes = tiny_bmp();
    let (tx, _rx) = std::sync::mpsc::channel();
    let mut apps = VecDeque::new();
    apps.push_back(AppSlot::new_main_menu(menu(&bytes)));
    apps.push_back(AppSlot::new_spotify(Spotify::new(tx)));
    let mut launcher = Launcher::new(apps);
    let mut display =
        PixelDisplay::new(32, 64, DisplayMode::Simulated).expect("simulated backend comes up");

    display.update();
    launcher.draw(&mut display);
    launcher.handle_input(Input::Held);
    display.update();
    launcher.draw(&mut display);
    assert_eq!(display.rows, 32);
    assert_eq!(display.cols, 64);
}
