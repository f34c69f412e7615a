use crabbiness::bus::Bus;
use crabbiness::fault::Fault;
use crabbiness::rom::Rom;

fn setup_bus(prg_rom: Vec<u8>) -> Bus {
    let rom = Rom::new_from_vec(prg_rom);
    Bus::new(rom)
}

#[test]
fn test_read_u8() {
    let mut bus = setup_bus(vec![0xff]);
    assert_eq!(bus.read_u8(0x8000), Ok(0xff));
}

#[test]
fn test_read_u16() {
    let mut bus = setup_bus(vec![0xcd, 0xab]);
    assert_eq!(bus.read_u16(0x8000), Ok(0xabcd));
}

#[test]
fn read_u16_wraps_at_top_of_memory() {
    let mut prg = vec![0u8; 0x4000];
    prg[0x3fff] = 0x12;
    let mut bus = setup_bus(prg);
    bus.write_u8(0x0000, 0x34).unwrap();
    assert_eq!(bus.read_u16(0xffff), Ok(0x3412));
}

#[test]
fn ram_is_mirrored() {
    let mut bus = setup_bus(vec![0]);
    bus.write_u8(0x0801, 0x5a).unwrap();
    assert_eq!(bus.read_u8(0x0001), Ok(0x5a));
    assert_eq!(bus.read_u8(0x1801), Ok(0x5a));
}

#[test]
fn sixteen_kib_rom_is_mirrored() {
    let mut prg = vec![0u8; 0x4000];
    prg[0x0010] = 0x99;
    let mut bus = setup_bus(prg);
    assert_eq!(bus.read_u8(0x8010), Ok(0x99));
    assert_eq!(bus.read_u8(0xc010), Ok(0x99));
}

#[test]
fn write_only_ports_refuse_reads() {
    let mut bus = setup_bus(vec![0]);
    assert_eq!(bus.read_u8(0x2000), Err(Fault::WriteOnlyPort(0x2000)));
    assert_eq!(bus.read_u8(0x2006), Err(Fault::WriteOnlyPort(0x2006)));
    assert_eq!(bus.read_u8(0x3ff8), Err(Fault::WriteOnlyPort(0x3ff8)));
    assert_eq!(bus.read_u8(0x4014), Err(Fault::WriteOnlyPort(0x4014)));
    assert_eq!(bus.write_u8(0x2002, 1), Err(Fault::StatusWrite));
    assert_eq!(bus.read_u8(0x5000), Err(Fault::UnmappedRead(0x5000)));
    assert_eq!(bus.write_u8(0x8000, 1), Err(Fault::UnmappedWrite(0x8000)));
}

#[test]
fn apu_and_second_port_are_quiet() {
    let mut bus = setup_bus(vec![0]);
    assert_eq!(bus.read_u8(0x4000), Ok(0));
    assert_eq!(bus.read_u8(0x4015), Ok(0));
    assert_eq!(bus.read_u8(0x4017), Ok(0));
    assert_eq!(bus.write_u8(0x4003, 9), Ok(()));
    assert_eq!(bus.write_u8(0x4017, 9), Ok(()));
}

#[test]
fn ppu_registers_are_mirrored() {
    let mut bus = setup_bus(vec![0]);
    bus.write_u8(0x2003, 0x10).unwrap();
    bus.write_u8(0x200c, 0x77).unwrap();
    bus.write_u8(0x2003, 0x10).unwrap();
    assert_eq!(bus.read_u8(0x3ffc), Ok(0x77));
}

#[test]
fn oam_dma_copies_a_page() {
    let mut bus = setup_bus(vec![0]);
    for i in 0..256u16 {
        bus.write_u8(0x0300 + i, i as u8).unwrap();
    }
    bus.write_u8(0x2003, 0).unwrap();
    bus.write_u8(0x4014, 0x03).unwrap();
    for i in 0..256usize {
        assert_eq!(bus.ppu.oam[i], i as u8);
    }
    assert_eq!(bus.ppu.oam_addr, 0);
}

#[test]
fn oam_dma_from_write_only_page_faults() {
    let mut bus = setup_bus(vec![0]);
    assert_eq!(bus.write_u8(0x4014, 0x20), Err(Fault::WriteOnlyPort(0x2000)));
}

#[test]
fn controller_serial_reads() {
    let mut bus = setup_bus(vec![0]);
    bus.read_keys(0b0000_0001);
    bus.write_u8(0x4016, 1).unwrap();
    bus.write_u8(0x4016, 0).unwrap();
    let mut reads = Vec::new();
    for _ in 0..10 {
        reads.push(bus.read_u8(0x4016).unwrap());
    }
    assert_eq!(reads, vec![1, 0, 0, 0, 0, 0, 0, 0, 1, 1]);
}

#[test]
fn controller_strobe_repeats_a() {
    let mut bus = setup_bus(vec![0]);
    bus.read_keys(0b1000_0000);
    bus.write_u8(0x4016, 1).unwrap();
    assert_eq!(bus.read_u8(0x4016), Ok(0));
    assert_eq!(bus.read_u8(0x4016), Ok(0));
    bus.read_keys(0b1000_0001);
    assert_eq!(bus.read_u8(0x4016), Ok(1));
    assert_eq!(bus.read_u8(0x4016), Ok(1));
}

#[test]
fn address_latch_through_ports() {
    let mut bus = setup_bus(vec![0]);
    bus.write_u8(0x2006, 0x21).unwrap();
    assert_eq!(bus.ppu.addr_register.value, 0x2100);
    bus.read_u8(0x2002).unwrap();
    bus.write_u8(0x2006, 0x23).unwrap();
    bus.write_u8(0x2006, 0x45).unwrap();
    assert_eq!(bus.ppu.addr_register.value, 0x2345);
    bus.write_u8(0x2005, 7).unwrap();
    bus.read_u8(0x2002).unwrap();
    bus.write_u8(0x2005, 9).unwrap();
    assert_eq!(bus.ppu.scroll_register.x, 9);
    assert_eq!(bus.ppu.scroll_register.y, 0);
}

#[test]
fn tick_reports_new_nmi_once() {
    let mut bus = setup_bus(vec![0]);
    bus.write_u8(0x2000, 0x80).unwrap();
    let mut raised = 0;
    for _ in 0..(241 * 341 / 21 + 1) {
        if bus.tick(7) {
            raised += 1;
        }
    }
    assert_eq!(raised, 1);
    assert!(bus.take_nmi());
    assert!(!bus.take_nmi());
    assert_eq!(bus.cycle, 7 * (241 * 341 / 21 + 1));
}
