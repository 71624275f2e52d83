use rustyboy::processor::interrupt::{Interrupt, InterruptHandler};
use rustyboy::util::bitflags::Bitflags;
use rustyboy::util::drawer::{draw_entity, Entity};
use rustyboy::video::color::Color;
use rustyboy::video::control_register::{ControlRegister, TileDataAddressing};
use rustyboy::video::palette::Palette;
use rustyboy::video::register::Register;
use rustyboy::video::screen::{tile_data, Screen};
use rustyboy::video::status_register::StatusMode;
use rustyboy::video::Video;

#[test]
fn palette_colors() {
    let mut palette = Palette::new();
    assert_eq!(palette.color(0), Color::Black);
    assert_eq!(palette.color(1), Color::DarkGray);
    assert_eq!(palette.color(3), Color::White);
    palette.set(0b0000_0011);
    assert_eq!(palette.color(0), Color::Black);
    assert_eq!(palette.color(1), Color::White);
    assert_eq!(palette.get(), 3);
    assert_eq!(Color::from_value(2), Color::DarkGray);
}

#[test]
fn control_register_bits() {
    let mut control = ControlRegister::new();
    assert!(!control.lcd_enabled());
    control.set(0b1001_0001);
    assert!(control.lcd_enabled());
    assert!(!control.window_enabled());
    assert!(control.bg_window_enabled());
    assert_eq!(control.bg_tile_data_addressing(), TileDataAddressing::Mode8000);
    assert_eq!(control.get(), 0b1001_0001);
    assert_eq!(TileDataAddressing::Mode8800.adjust_address(0x8000), 0x9000);
    assert_eq!(TileDataAddressing::Mode8800.adjust_address(0x9010), 0x8010);
    assert_eq!(TileDataAddressing::Mode8800.adjust_address(0x8800), 0x8800);
    assert_eq!(TileDataAddressing::Mode8000.adjust_address(0x9010), 0x9010);
}

#[test]
fn video_registers() {
    let mut video = Video::new();
    assert_eq!(video.read(0xFF47), 0xFC);
    assert_eq!(video.read(0xFF48), 0xFF);
    video.write(0xFF42, 7);
    video.write(0xFF4B, 9);
    assert_eq!(video.read(0xFF42), 7);
    assert_eq!(video.read(0xFF4B), 9);
    video.write(0xFF45, 0);
    // mode 2 (OAM reading), LY == LYC
    assert_eq!(video.read(0xFF41), 0b110);
    video.write(0xFF41, 0xFF);
    assert_eq!(video.read(0xFF41), 0x78 | 0b110);
    // the OAM is not readable while it is read by the hardware
    assert_eq!(video.read(0xFE00), 0xFF);
}

#[test]
fn video_modes_cycle() {
    let mut video = Video::new();
    let mut interrupts = InterruptHandler::new();
    assert_eq!(video.mode(), StatusMode::ReadingOAM);
    assert!(!video.clock(&mut interrupts, 1));
    assert_eq!(video.mode(), StatusMode::LCDTransfer);
    // 172 cycles of drawing
    for _ in 0..171 {
        assert!(!video.clock(&mut interrupts, 1));
    }
    assert_eq!(video.mode(), StatusMode::LCDTransfer);
    video.clock(&mut interrupts, 1);
    assert_eq!(video.mode(), StatusMode::HBlank);
    assert_eq!(video.read(0xFF44), 1);
    // run to VBlank
    let mut entered = false;
    for _ in 0..200000 {
        if video.clock(&mut interrupts, 4) {
            entered = true;
            break;
        }
    }
    assert!(entered);
    assert_eq!(video.mode(), StatusMode::VBlank);
    assert_eq!(video.read(0xFF44), 0);
    assert!(interrupts.interrupt_request.flag(Interrupt::VBlank));
}

#[test]
fn vram_through_the_video() {
    let mut video = Video::new();
    let mut interrupts = InterruptHandler::new();
    // leave OAM reading and drawing
    while video.mode() != StatusMode::HBlank {
        video.clock(&mut interrupts, 1);
    }
    video.write(0x9800, 0x12);
    assert_eq!(video.read(0x9800), 0x12);
    assert_eq!(video.memory().background_tile_maps().0.tiles()[0], 0x12);
    video.write(0xFE01, 0x34);
    assert_eq!(video.read(0xFE01), 0x34);
    assert_eq!(video.memory().oam().entries()[0].position.0, 0x34);
    // a tile data write stores the whole line: an odd address shifts the byte left by 7
    video.write(0xFF40, 0x10);
    video.write(0x8001, 0x03);
    assert_eq!(video.memory().tile_data()[0].line(0), 0x0180);
    assert_eq!(video.read(0x8000), 0x80);
    assert_eq!(video.read(0x8001), 0x01);
}

#[test]
fn draws_entity_in_buffer() {
    let mut data = [Color::White; 64];
    data[0] = Color::Black;
    data[3] = Color::DarkGray;
    let entity = Entity { width: 2, height: 2, x: 1, y: 1, data };
    let mut buf = vec![Color::LightGray; 16];
    draw_entity(entity, (4, 4), &mut buf);
    assert_eq!(buf[5], Color::Black);
    assert_eq!(buf[6], Color::White);
    assert_eq!(buf[9], Color::White);
    assert_eq!(buf[10], Color::DarkGray);
    assert_eq!(buf[0], Color::LightGray);
    assert_eq!(buf[15], Color::LightGray);
}

#[test]
fn screen_draws_sprites() {
    let mut video = Video::new();
    let mut interrupts = InterruptHandler::new();
    while video.mode() != StatusMode::HBlank {
        video.clock(&mut interrupts, 1);
    }
    let screen = Screen::new();
    assert_eq!(screen.draw(&video), vec![Color::White; 160 * 144]);
    // tile 1, first line all black
    video.write(0xFF40, 0x12);
    video.write(0x8010, 0xFF);
    video.write(0x8011, 0xFF);
    // sprite 0 at (8, 16), tile 1, attributes set
    video.write(0xFE00, 16);
    video.write(0xFE01, 8);
    video.write(0xFE02, 1);
    video.write(0xFE03, 0x80);
    let pixels = screen.draw(&video);
    assert_eq!(pixels.len(), 160 * 144);
    let line = video.memory().tile_data()[1].line(0);
    let expected = video.memory().tile_data()[1].color_at(0, 0);
    assert_eq!(pixels[16 * 160 + 8], expected);
    assert_ne!(line, 0);
    let background = screen.background(&video);
    assert_eq!(background.len(), 256 * 256);
}

#[test]
fn tile_data_picture() {
    let mut video = Video::new();
    let mut interrupts = InterruptHandler::new();
    while video.mode() != StatusMode::HBlank {
        video.clock(&mut interrupts, 1);
    }
    let picture = tile_data(&video);
    assert_eq!(picture.len(), 128 * 192);
    assert!(picture.iter().all(|c| *c == Color::White));
    // tile 17 (second row, second column): its first line becomes 0x0080, a low byte of 0x80
    video.write(0xFF40, 0x10);
    video.write(0x8000 + 17 * 16 + 1, 0x01);
    let picture = tile_data(&video);
    assert_eq!(picture[8 * 128 + 8], Color::DarkGray);
    assert_eq!(picture[8 * 128 + 9], Color::White);
}

#[test]
fn draws_entity_in_longer_buffer() {
    let data = [Color::Black; 64];
    let entity = Entity { width: 1, height: 2, x: 2, y: 0, data };
    let mut buf = vec![Color::White; 10];
    draw_entity(entity, (3, 2), &mut buf);
    assert_eq!(buf[2], Color::Black);
    assert_eq!(buf[5], Color::Black);
    assert_eq!(buf[0], Color::White);
    assert_eq!(buf[6], Color::White);
    assert_eq!(buf[9], Color::White);
    assert_eq!(buf.len(), 10);
}

#[test]
fn draws_empty_entity() {
    let entity = Entity { width: 0, height: 3, x: 0, y: 0, data: [Color::Black; 64] };
    let mut buf = vec![Color::White; 4];
    draw_entity(entity, (0, 3), &mut buf);
    assert_eq!(buf, vec![Color::White; 4]);
    let entity = Entity { width: 2, height: 0, x: 1, y: 1, data: [Color::Black; 64] };
    draw_entity(entity, (2, 2), &mut buf);
    assert_eq!(buf, vec![Color::White; 4]);
}
