use crabbiness::ppu::Ppu;
use crabbiness::render::{draw, palette_start_at, tile_color_at, FRAME_HEIGHT, FRAME_WIDTH};

/// Character ROM whose tile 1 has only its top-left pixel set (colour 1)
/// and whose tile 2 has its top row in colour 3.
fn patterns() -> Vec<u8> {
    let mut chr = vec![0u8; 0x2000];
    chr[16] = 0x80;
    chr[32] = 0xff;
    chr[40] = 0xff;
    chr
}

fn pixel(frame: &[u8], x: usize, y: usize) -> u8 {
    frame[y * FRAME_WIDTH + x]
}

#[test]
fn blank_frame_is_backdrop() {
    let mut ppu = Ppu::new(vec![], false);
    ppu.palette[0] = 0x0f;
    let frame = draw(&ppu);
    assert_eq!(frame.pixels.len(), FRAME_WIDTH * FRAME_HEIGHT);
    assert!(frame.pixels.iter().all(|p| *p == 0x0f));
}

#[test]
fn tile_colours() {
    let chr = patterns();
    assert_eq!(tile_color_at(&chr, 16, 0, 7), 1);
    assert_eq!(tile_color_at(&chr, 16, 0, 6), 0);
    assert_eq!(tile_color_at(&chr, 32, 0, 0), 3);
    assert_eq!(tile_color_at(&chr, 0x1ff8, 0, 0), 0);
}

#[test]
fn attribute_selects_palette() {
    assert_eq!(palette_start_at(0, 0, 0b1110_0100), 1);
    assert_eq!(palette_start_at(0, 2, 0b1110_0100), 5);
    assert_eq!(palette_start_at(2, 0, 0b1110_0100), 9);
    assert_eq!(palette_start_at(3, 3, 0b1110_0100), 13);
}

#[test]
fn background_tile_pixels() {
    let mut ppu = Ppu::new(patterns(), false);
    ppu.palette[0] = 0x01;
    ppu.palette[1] = 0x16;
    ppu.palette[3] = 0x2a;
    ppu.vram[0] = 1;
    ppu.vram[1] = 2;
    let frame = draw(&ppu);
    assert_eq!(pixel(&frame.pixels, 0, 0), 0x16);
    assert_eq!(pixel(&frame.pixels, 1, 0), 0x01);
    assert_eq!(pixel(&frame.pixels, 8, 0), 0x2a);
    assert_eq!(pixel(&frame.pixels, 15, 0), 0x2a);
    assert_eq!(pixel(&frame.pixels, 8, 1), 0x01);
}

#[test]
fn horizontal_scroll_brings_in_second_nametable() {
    let mut ppu = Ppu::new(patterns(), false);
    ppu.palette[0] = 0x01;
    ppu.palette[1] = 0x16;
    ppu.palette[3] = 0x2a;
    ppu.vram[1] = 2;
    ppu.vram[0x400] = 1;
    ppu.write_scrolldata(8);
    ppu.write_scrolldata(0);
    let frame = draw(&ppu);
    assert_eq!(pixel(&frame.pixels, 0, 0), 0x2a);
    assert_eq!(pixel(&frame.pixels, 248, 0), 0x16);
}

#[test]
fn sprites_over_background() {
    let mut ppu = Ppu::new(patterns(), false);
    ppu.palette[0] = 0x01;
    ppu.palette[0x11] = 0x30;
    ppu.palette[0x13] = 0x21;
    ppu.oam[0] = 20;
    ppu.oam[1] = 1;
    ppu.oam[2] = 0;
    ppu.oam[3] = 10;
    ppu.oam[4] = 20;
    ppu.oam[5] = 2;
    ppu.oam[6] = 0b0100_0000;
    ppu.oam[7] = 100;
    let frame = draw(&ppu);
    assert_eq!(pixel(&frame.pixels, 10, 20), 0x01);
    ppu.write_ppumask(0b0001_0000);
    let frame = draw(&ppu);
    assert_eq!(pixel(&frame.pixels, 10, 20), 0x30);
    assert_eq!(pixel(&frame.pixels, 11, 20), 0x01);
    assert_eq!(pixel(&frame.pixels, 100, 20), 0x21);
    assert_eq!(pixel(&frame.pixels, 107, 20), 0x21);
}

#[test]
fn later_sprite_drawn_on_top_and_flips() {
    let mut ppu = Ppu::new(patterns(), false);
    ppu.write_ppumask(0b0001_0000);
    ppu.palette[0x11] = 0x30;
    ppu.palette[0x15] = 0x31;
    for (i, b) in [40u8, 1, 0, 40, 33, 1, 0b1100_0001, 33].iter().enumerate() {
        ppu.oam[i] = *b;
    }
    let frame = draw(&ppu);
    assert_eq!(pixel(&frame.pixels, 40, 40), 0x31);
    assert_eq!(pixel(&frame.pixels, 33, 33), 0x00);
    ppu.oam[4] = 0;
    let frame = draw(&ppu);
    assert_eq!(pixel(&frame.pixels, 40, 40), 0x30);
    assert_eq!(pixel(&frame.pixels, 40, 7), 0x31);
}
