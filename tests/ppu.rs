use crabbiness::fault::Fault;
use crabbiness::ppu::{Ppu, PpuAddrRegister, PpuCtrlRegister, PpuScrollRegister};

fn set_addr(ppu: &mut Ppu, addr: u16) {
    ppu.read_ppustatus();
    ppu.write_ppuaddr((addr >> 8) as u8);
    ppu.write_ppuaddr((addr & 0xff) as u8);
}

#[test]
fn test_ppu_addr_reg() {
    let mut addr_reg = PpuAddrRegister::new();
    assert_eq!(addr_reg.value, 0);
    addr_reg.update(0x06);
    addr_reg.update(0x50);
    assert_eq!(addr_reg.value, 0x0650);
    addr_reg.inc(0xa);
    assert_eq!(addr_reg.value, 0x065a);
}

#[test]
fn addr_reg_increment_after_two_writes() {
    let mut addr_reg = PpuAddrRegister::new();
    addr_reg.update(0x23);
    addr_reg.update(0xff);
    addr_reg.inc(1);
    assert_eq!(addr_reg.value, 0x2400);
    addr_reg.update(0x3f);
    addr_reg.update(0xff);
    addr_reg.inc(1);
    assert_eq!(addr_reg.value, 0x0000);
}

#[test]
fn scroll_register_alternates() {
    let mut scroll = PpuScrollRegister::new();
    scroll.write(5);
    scroll.write(6);
    scroll.write(7);
    assert_eq!((scroll.x, scroll.y), (7, 6));
    scroll.reset();
    scroll.write(8);
    assert_eq!((scroll.x, scroll.y), (8, 6));
}

#[test]
fn mirror_vram_addr_cases() {
    let cases = [
        (false, 0x2000u16, 0x0000u16),
        (false, 0x2800, 0x0400),
        (false, 0x2c00, 0x0400),
        (true, 0x2400, 0x0400),
        (true, 0x2c00, 0x0400),
        (false, 0x2400, 0x0000),
        (true, 0x2800, 0x0000),
    ];
    for (mirroring, input, expected) in cases {
        let ppu = Ppu::new(vec![], mirroring);
        assert_eq!(ppu.mirror_vram_addr(input), expected);
    }
}

#[test]
fn nametable_write_reads_back_through_mirror() {
    let mut ppu = Ppu::new(vec![], false);
    set_addr(&mut ppu, 0x2405);
    ppu.write_ppudata(0x66).unwrap();
    set_addr(&mut ppu, 0x2005);
    assert_eq!(ppu.read_data(), Ok(0));
    assert_eq!(ppu.read_data(), Ok(0x66));
    assert_eq!(ppu.vram[0x0005], 0x66);
}

#[test]
fn vertical_mirroring_pairs_first_and_third() {
    let mut ppu = Ppu::new(vec![], true);
    set_addr(&mut ppu, 0x2810);
    ppu.write_ppudata(0x42).unwrap();
    assert_eq!(ppu.vram[0x0010], 0x42);
    set_addr(&mut ppu, 0x2c10);
    ppu.write_ppudata(0x43).unwrap();
    assert_eq!(ppu.vram[0x0410], 0x43);
}

#[test]
fn palette_mirror_write_3f10_read_3f00() {
    let mut ppu = Ppu::new(vec![], false);
    set_addr(&mut ppu, 0x3f10);
    ppu.write_ppudata(0x2c).unwrap();
    set_addr(&mut ppu, 0x3f00);
    assert_eq!(ppu.read_data(), Ok(0x2c));
    assert_eq!(ppu.palette[0], 0x2c);
}

#[test]
fn data_port_increment_by_32() {
    let mut ppu = Ppu::new(vec![], false);
    ppu.write_ppuctrl(0b0000_0100);
    set_addr(&mut ppu, 0x2000);
    ppu.write_ppudata(1).unwrap();
    assert_eq!(ppu.addr_register.value, 0x2020);
}

#[test]
fn chr_rom_reads_are_buffered() {
    let mut ppu = Ppu::new(vec![0x11, 0x22, 0x33], false);
    set_addr(&mut ppu, 0x0001);
    assert_eq!(ppu.read_data(), Ok(0));
    assert_eq!(ppu.read_data(), Ok(0x22));
    assert_eq!(ppu.read_data(), Err(Fault::UnbackedVram(0x0003)));
    assert_eq!(ppu.addr_register.value, 0x0003);
}

#[test]
fn data_port_faults() {
    let mut ppu = Ppu::new(vec![0; 0x2000], false);
    set_addr(&mut ppu, 0x0100);
    assert_eq!(ppu.write_ppudata(1), Err(Fault::ChrRomWrite(0x0100)));
    set_addr(&mut ppu, 0x3000);
    assert_eq!(ppu.write_ppudata(1), Err(Fault::ReservedVram(0x3000)));
    assert_eq!(ppu.read_data(), Err(Fault::ReservedVram(0x3000)));
}

#[test]
fn status_read_clears_vblank_and_latches() {
    let mut ppu = Ppu::new(vec![], false);
    for _ in 0..241 {
        ppu.tick(341);
    }
    ppu.write_ppuaddr(0x21);
    ppu.write_scrolldata(3);
    assert_eq!(ppu.read_ppustatus() & 0x80, 0x80);
    assert_eq!(ppu.read_ppustatus() & 0x80, 0);
    assert!(ppu.addr_register.latch);
    assert!(!ppu.scroll_register.latch);
}

#[test]
fn oam_data_port() {
    let mut ppu = Ppu::new(vec![], false);
    ppu.write_oamaddr(0xff);
    ppu.write_oamdata(0x12);
    assert_eq!(ppu.oam_addr, 0x00);
    ppu.write_oamaddr(0xff);
    assert_eq!(ppu.read_oamdata(), 0x12);
    assert_eq!(ppu.oam_addr, 0xff);
}

#[test]
fn oam_dma_wraps_pointer() {
    let mut ppu = Ppu::new(vec![], false);
    ppu.write_oamaddr(0x80);
    let data: Vec<u8> = (0..=255u8).collect();
    ppu.write_oamdata_dma(&data);
    assert_eq!(ppu.oam[0x80], 0);
    assert_eq!(ppu.oam[0x7f], 0xff);
    assert_eq!(ppu.oam_addr, 0x80);
}

fn tick_lines(ppu: &mut Ppu, n: usize) -> usize {
    let mut frames = 0;
    for _ in 0..n {
        if ppu.tick(341) {
            frames += 1;
        }
    }
    frames
}

#[test]
fn vblank_after_241_lines_with_nmi() {
    let mut ppu = Ppu::new(vec![], false);
    ppu.write_ppuctrl(0x80);
    assert_eq!(tick_lines(&mut ppu, 241), 0);
    assert_eq!(ppu.scanline, 241);
    assert!(ppu.status_register.is_vblank());
    assert_eq!(ppu.has_nmi, Some(true));
    assert_eq!(tick_lines(&mut ppu, 21), 1);
    assert_eq!(ppu.scanline, 0);
    assert!(!ppu.status_register.is_vblank());
    assert_eq!(ppu.has_nmi, None);
}

#[test]
fn vblank_after_241_lines_without_nmi() {
    let mut ppu = Ppu::new(vec![], false);
    assert_eq!(tick_lines(&mut ppu, 241), 0);
    assert!(ppu.status_register.is_vblank());
    assert_eq!(ppu.has_nmi, None);
    assert_eq!(tick_lines(&mut ppu, 21), 1);
}

#[test]
fn nmi_enabled_during_vblank_raises() {
    let mut ppu = Ppu::new(vec![], false);
    tick_lines(&mut ppu, 241);
    assert_eq!(ppu.has_nmi, None);
    ppu.write_ppuctrl(0x80);
    assert_eq!(ppu.has_nmi, Some(true));
}

#[test]
fn large_tick_crosses_several_lines() {
    let mut ppu = Ppu::new(vec![], false);
    assert!(!ppu.tick(341 * 3 + 5));
    assert_eq!(ppu.scanline, 3);
    assert_eq!(ppu.cycle, 5);
}

#[test]
fn sprite_zero_hit() {
    let mut ppu = Ppu::new(vec![], false);
    ppu.write_oamaddr(0);
    ppu.write_oamdata(2);
    ppu.write_oamdata(0);
    ppu.write_oamdata(0);
    ppu.write_oamdata(10);
    ppu.write_ppumask(0b0001_0000);
    tick_lines(&mut ppu, 2);
    assert_eq!(ppu.status_register.read() & 0x40, 0);
    ppu.tick(11);
    assert_eq!(ppu.status_register.read() & 0x40, 0x40);
    tick_lines(&mut ppu, 239);
    assert_eq!(ppu.status_register.read() & 0x40, 0);
}

#[test]
fn ctrl_register_fields() {
    let ctrl = PpuCtrlRegister { bits: 0b1001_1110 };
    assert_eq!(ctrl.vram_inc(), 32);
    assert_eq!(ctrl.base_addr(), 0x2800);
    assert_eq!(ctrl.bg_bank_addr(), 0x1000);
    assert_eq!(ctrl.sprite_bank_addr(), 0x1000);
    assert!(ctrl.nmi_starts_on_vblank_ok());
    let ctrl = PpuCtrlRegister::new();
    assert_eq!(ctrl.vram_inc(), 1);
    assert_eq!(ctrl.base_addr(), 0x2000);
    assert_eq!(ctrl.bg_bank_addr(), 0);
    assert!(!ctrl.nmi_starts_on_vblank_ok());
}

#[test]
fn background_addrs_follow_mirroring() {
    let mut ppu = Ppu::new(vec![], false);
    ppu.vram[0] = 1;
    ppu.vram[0x400] = 2;
    ppu.write_ppuctrl(0b10);
    let (a, b) = ppu.get_background_addrs();
    assert_eq!((a[0], b[0], a.len()), (2, 1, 0x400));
    let mut ppu = Ppu::new(vec![], true);
    ppu.vram[0] = 1;
    ppu.vram[0x400] = 2;
    ppu.write_ppuctrl(0b10);
    let (a, b) = ppu.get_background_addrs();
    assert_eq!((a[0], b[0]), (1, 2));
}
