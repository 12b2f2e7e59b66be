use std::io::Cursor;
use std::sync::mpsc::channel;

use muzak_scan::album_item::AlbumPaletteItem;
use muzak_scan::art::{keeps_original, process_art};
use muzak_scan::controllers::{ControllerBridge, PlaybackCommand, RepeatState};
use muzak_scan::scan::{ScanCommand, ScanInterface};

fn png(width: u32, height: u32) -> Vec<u8> {
    let img = image::RgbImage::from_pixel(width, height, image::Rgb([200, 10, 10]));
    let mut buf = Cursor::new(Vec::new());
    image::DynamicImage::ImageRgb8(img).write_to(&mut buf, image::ImageFormat::Png).unwrap();
    buf.into_inner()
}

#[test]
fn size_limit_applies_to_either_dimension() {
    assert!(keeps_original(1024, 1024));
    assert!(keeps_original(10, 10));
    assert!(!keeps_original(1025, 10));
    assert!(!keeps_original(10, 1025));
}

#[test]
fn small_art_is_kept_and_thumbnailed() {
    let bytes = png(100, 80);
    let art = process_art(&bytes).expect("decodes");
    assert_eq!(art.full, bytes);
    assert_eq!(&art.thumbnail[0..2], b"BM");
    let thumb = image::load_from_memory(&art.thumbnail).unwrap();
    assert_eq!((thumb.width(), thumb.height()), (70, 70));
}

#[test]
fn large_art_is_downscaled_to_jpeg() {
    let bytes = png(2048, 1024);
    let art = process_art(&bytes).expect("decodes");
    assert_ne!(art.full, bytes);
    assert_eq!(&art.full[0..2], &[0xFF, 0xD8]);
    assert_eq!(&art.full[20..22], &[0xFF, 0xC0]);
    assert_eq!(u16::from_be_bytes([art.full[27], art.full[28]]), 1024);
    assert_eq!(u16::from_be_bytes([art.full[25], art.full[26]]), 512);
    let full = image::load_from_memory(&art.full).unwrap();
    assert_eq!((full.width(), full.height()), (1024, 512));
}

#[test]
fn undecodable_art_gives_none() {
    assert!(process_art(&vec![1, 2, 3, 4]).is_none());
    assert!(process_art(&vec![]).is_none());
}

#[test]
fn palette_item_thumbnail_path() {
    let item = AlbumPaletteItem::new(42, "T".to_string(), "A".to_string());
    assert_eq!(item.thumbnail_path(), "!db://album/42/thumb");
    assert_eq!(AlbumPaletteItem::new(0, String::new(), String::new()).thumbnail_path(), "!db://album/0/thumb");
    assert_eq!(
        AlbumPaletteItem::new(4294967295, String::new(), String::new()).thumbnail_path(),
        "!db://album/4294967295/thumb"
    );
}

#[test]
fn palette_items_from_results() {
    let items = AlbumPaletteItem::from_search_results(vec![
        (1, "One".to_string(), "X".to_string()),
        (2, "Two".to_string(), "Y".to_string()),
    ]);
    assert_eq!(items.len(), 2);
    assert_eq!(*items[0], AlbumPaletteItem::new(1, "One".to_string(), "X".to_string()));
    assert_eq!(items[1].title, "Two");
    assert_eq!(items[1].artist, "Y");
}

#[test]
fn bridge_sends_commands() {
    let (tx, rx) = channel();
    let bridge = ControllerBridge::new(tx);
    assert_eq!(bridge.play(), Ok(()));
    assert_eq!(bridge.jump(3), Ok(()));
    assert_eq!(bridge.set_repeat(RepeatState::RepeatingOne), Ok(()));
    let copy = bridge.clone();
    assert_eq!(copy.pause(), Ok(()));
    assert_eq!(rx.try_recv(), Ok(PlaybackCommand::Play));
    assert_eq!(rx.try_recv(), Ok(PlaybackCommand::Jump(3)));
    assert_eq!(rx.try_recv(), Ok(PlaybackCommand::SetRepeat(RepeatState::RepeatingOne)));
    assert_eq!(rx.try_recv(), Ok(PlaybackCommand::Pause));
    drop(rx);
    assert_eq!(bridge.next(), Err(PlaybackCommand::Next));
    assert_eq!(bridge.toggle_shuffle(), Err(PlaybackCommand::ToggleShuffle));
}

#[test]
fn scan_interface_sends_and_hands_out_events() {
    let (cmd_tx, cmd_rx) = channel();
    let (_ev_tx, ev_rx) = channel();
    let mut ui = ScanInterface::new(Some(ev_rx), cmd_tx);
    assert_eq!(ui.scan(), Ok(()));
    assert_eq!(ui.stop(), Ok(()));
    assert_eq!(cmd_rx.try_recv(), Ok(ScanCommand::Scan));
    assert_eq!(cmd_rx.try_recv(), Ok(ScanCommand::Stop));
    assert!(ui.take_events().is_some());
    assert!(ui.take_events().is_none());
    drop(cmd_rx);
    assert_eq!(ui.scan(), Err(ScanCommand::Scan));
}
