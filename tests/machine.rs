use gbemu::bus::{Bus, BusTrait};
use gbemu::cartridge::{Cartridge, CartridgeType};
use gbemu::cpu::Cpu;
use gbemu::gameboy::{GameBoy, RunExit};
use gbemu::instructions::{cb_entry, primary_entry, Encoding};

fn image(size_code: u8, ctype: u8) -> Vec<u8> {
    let mut rom = vec![0u8; 0x8000 << size_code];
    rom[0x0147] = ctype;
    rom[0x0148] = size_code;
    rom
}

#[test]
fn cartridge_starts_empty() {
    let cart = Cartridge::new();
    assert_eq!(cart.ctype(), CartridgeType::RomOnly);
    assert_eq!(cart.rom_size(), 32 * 1024);
    assert_eq!(cart.len(), 0);
    assert!(!cart.is_loaded());
    assert_eq!(cart.read(0x0000), 0xFF);
}

#[test]
fn cartridge_loads_valid_image() {
    let mut cart = Cartridge::new();
    let mut rom = image(0, 0x01);
    rom[0x0150] = 0x42;
    assert_eq!(cart.load_cartridge_w_buffer(&rom), 0x8000);
    assert_eq!(cart.ctype(), CartridgeType::Mbc1);
    assert_eq!(cart.rom_size(), 0x8000);
    assert_eq!(cart.read(0x0150), 0x42);
    assert_eq!(cart.read(0x0148), 0x00);
    assert!(cart.is_loaded());
}

#[test]
fn cartridge_size_follows_header_code() {
    for code in 0u8..4 {
        let mut cart = Cartridge::new();
        let rom = image(code, 0x00);
        assert_eq!(cart.load_cartridge_w_buffer(&rom), (32 * 1024) << code);
        assert_eq!(cart.len(), (32 * 1024) << code);
        assert_eq!(cart.rom_size(), (32 * 1024) << code);
    }
}

#[test]
fn cartridge_rejects_reserved_type() {
    let mut cart = Cartridge::new();
    let rom = image(0, 0x04);
    assert_eq!(cart.load_cartridge_w_buffer(&rom), 0);
    assert_eq!(cart.ctype(), CartridgeType::RomOnly);
    assert!(!cart.is_loaded());

    let mut gb = GameBoy::power_on();
    gb.load_buffer(&rom);
    assert_eq!(gb.run(10), RunExit::NotLoaded);
    assert_eq!(gb.cpu().pc, 0x0100);
    assert_eq!(gb.cpu().cycles, 0);
}

#[test]
fn cartridge_rejects_size_mismatch() {
    let mut cart = Cartridge::new();
    let mut rom = image(0, 0x00);
    rom[0x0148] = 1;
    assert_eq!(cart.load_cartridge_w_buffer(&rom), 0);
    assert_eq!(cart.len(), 0);
    rom[0x0148] = 200;
    assert_eq!(cart.load_cartridge_w_buffer(&rom), 0);
    let short = vec![0u8; 0x100];
    assert_eq!(cart.load_cartridge_w_buffer(&short), 0);
}

#[test]
fn failed_load_empties_a_loaded_cartridge() {
    let mut cart = Cartridge::new();
    assert_eq!(cart.load_cartridge_w_buffer(&image(0, 0x03)), 0x8000);
    assert_eq!(cart.ctype(), CartridgeType::Mbc1RamBattery);
    assert_eq!(cart.load_cartridge_w_buffer(&image(0, 0xFF)), 0);
    assert_eq!(cart.ctype(), CartridgeType::RomOnly);
    assert_eq!(cart.len(), 0);
}

#[test]
fn cartridge_load_from_file_contents() {
    let mut cart = Cartridge::new();
    assert_eq!(cart.load_cartridge(None), 0);
    assert!(!cart.is_loaded());
    assert_eq!(cart.load_cartridge(Some(image(1, 0x13))), 0);
    assert_eq!(cart.load_cartridge(Some(image(1, 0x0D))), 0x10000);
    assert_eq!(cart.ctype(), CartridgeType::Mmm01RamBattery);
}

#[test]
fn cartridge_type_codes() {
    let known: [(u8, CartridgeType); 11] = [
        (0x00, CartridgeType::RomOnly),
        (0x01, CartridgeType::Mbc1),
        (0x02, CartridgeType::Mbc1Ram),
        (0x03, CartridgeType::Mbc1RamBattery),
        (0x05, CartridgeType::Mbc2),
        (0x06, CartridgeType::Mbc2Battery),
        (0x08, CartridgeType::RomRam),
        (0x09, CartridgeType::RomRamBattery),
        (0x0B, CartridgeType::Mmm01),
        (0x0C, CartridgeType::Mmm01Ram),
        (0x0D, CartridgeType::Mmm01RamBattery),
    ];
    for (code, t) in known {
        assert_eq!(CartridgeType::from_u8(code), Some(t));
    }
    for code in [0x04u8, 0x07, 0x0A, 0x0E, 0x13, 0xFF] {
        assert_eq!(CartridgeType::from_u8(code), None);
    }
}

#[test]
fn bus_ram_round_trip() {
    let mut bus = Bus::new();
    for addr in [0x8000u16, 0x9FFF, 0xA000, 0xBFFF, 0xC000, 0xDFFF, 0xE000, 0xFDFF, 0xFF80, 0xFFFE] {
        bus.write(addr, 0x5A);
        assert_eq!(bus.read(addr), 0x5A, "address {:#06x}", addr);
        bus.write(addr, 0xA5);
        assert_eq!(bus.read(addr), 0xA5, "address {:#06x}", addr);
    }
}

#[test]
fn bus_echo_mirrors_work_ram() {
    let mut bus = Bus::new();
    bus.write(0xC123, 0x11);
    assert_eq!(bus.read(0xE123), 0x11);
    bus.write(0xFDFF, 0x22);
    assert_eq!(bus.read(0xDDFF), 0x22);
}

#[test]
fn bus_rom_writes_are_discarded() {
    let mut bus = Bus::new();
    let mut cart = Cartridge::new();
    let mut rom = image(0, 0x00);
    rom[0x1234] = 0x77;
    cart.load_cartridge_w_buffer(&rom);
    bus.insert_cartridge(cart);
    bus.write(0x1234, 0x00);
    assert_eq!(bus.read(0x1234), 0x77);
    assert_eq!(bus.cartridge().read(0x1234), 0x77);
}

#[test]
fn bus_unusable_range_reads_zero() {
    let mut bus = Bus::new();
    bus.write(0xFEA0, 0x99);
    assert_eq!(bus.read(0xFEA0), 0x00);
    assert_eq!(bus.read(0xFEFF), 0x00);
    bus.write(0xFF00, 0x30);
    assert_eq!(bus.read(0xFF00), 0x30);
    bus.write(0xFFFF, 0x1F);
    assert_eq!(bus.read(0xFFFF), 0x1F);
}

#[test]
fn gameboy_runs_program_until_unhandled_opcode() {
    let mut rom = image(0, 0x00);
    rom[0x0100..0x0108].copy_from_slice(&[0x00, 0x3E, 0xC3, 0x50, 0x01, 0x00, 0x00, 0x00]);
    rom[0x0150..0x0154].copy_from_slice(&[0x06, 0x12, 0x48, 0x76]);
    // 0x0100: NOP; 0x0101: LD A,d8 (no handler).
    let mut gb = GameBoy::power_on();
    gb.load_buffer(&rom);
    assert!(gb.bus().cartridge().is_loaded());
    assert_eq!(gb.run(100), RunExit::Undefined(0x003E));
    assert_eq!(gb.cpu().pc, 0x0101);
    assert_eq!(gb.cpu().cycles, 4);

    rom[0x0101] = 0x00;
    let mut gb = GameBoy::power_on();
    gb.load_game(Some(rom));
    // NOP, NOP, JP 0x0150, then LD B,d8 (no handler).
    assert_eq!(gb.run(2), RunExit::StepLimit);
    assert_eq!(gb.cpu().pc, 0x0102);
    assert_eq!(gb.run(100), RunExit::Undefined(0x0006));
    assert_eq!(gb.cpu().pc, 0x0150);
    assert_eq!(gb.cpu().cycles, 4 + 4 + 16);
}

#[test]
fn gameboy_step_and_missing_file() {
    let mut gb = GameBoy::power_on();
    gb.load_game(None);
    assert_eq!(gb.run(1), RunExit::NotLoaded);
    let mut rom = image(0, 0x00);
    rom[0x0100] = 0xF3;
    gb.load_buffer(&rom);
    assert!(gb.step().is_ok());
    assert!(!gb.cpu().ime);
    assert_eq!(gb.cpu().pc, 0x0101);
}

#[test]
fn minimal_cpu_executes_its_opcodes() {
    let mut bus = Bus::new();
    let mut rom = image(0, 0x00);
    rom[0x0100..0x0109].copy_from_slice(&[0x01, 0xCD, 0xAB, 0x57, 0xF3, 0xC3, 0x00, 0x02, 0x00]);
    let mut cart = Cartridge::new();
    cart.load_cartridge_w_buffer(&rom);
    bus.insert_cartridge(cart);
    let mut cpu = Cpu::new();
    assert_eq!(cpu.pc, 0x0100);
    let op = cpu.fetch(&mut bus);
    assert_eq!(op, 0x0001);
    assert!(cpu.execute(&mut bus, op));
    assert_eq!((cpu.b, cpu.c, cpu.pc), (0xAB, 0xCD, 0x0103));
    cpu.a = 0x66;
    let op = cpu.fetch(&mut bus);
    assert!(cpu.execute(&mut bus, op));
    assert_eq!(cpu.d, 0x66);
    let op = cpu.fetch(&mut bus);
    assert!(cpu.execute(&mut bus, op));
    assert!(!cpu.ime);
    let op = cpu.fetch(&mut bus);
    assert!(cpu.execute(&mut bus, op));
    assert_eq!(cpu.pc, 0x0200);
    let op = cpu.fetch(&mut bus);
    assert_eq!(op, 0x0000);
    assert!(cpu.execute(&mut bus, op));
    assert_eq!(cpu.pc, 0x0201);
    assert_eq!(cpu.cycles, 12 + 4 + 4 + 16 + 4);
    let before = cpu;
    assert!(!cpu.execute(&mut bus, 0x0080));
    assert_eq!(cpu, before);
}

#[test]
fn instruction_tables() {
    let jp = primary_entry(0xC3).unwrap();
    assert_eq!((jp.encoding, jp.cycles, jp.length), (Encoding::A16, 16, 3));
    assert_eq!(jp.mnemonic, "JP a16");
    let ld = primary_entry(0x01).unwrap();
    assert_eq!((ld.encoding, ld.cycles, ld.length), (Encoding::D16, 12, 3));
    let ld = primary_entry(0x7E).unwrap();
    assert_eq!((ld.mnemonic, ld.cycles, ld.length), ("LD A,(HL)", 8, 1));
    assert_eq!(primary_entry(0xCB).unwrap().encoding, Encoding::CB);
    assert_eq!(primary_entry(0x18).unwrap().encoding, Encoding::R8);
    assert_eq!(primary_entry(0xE0).unwrap().encoding, Encoding::A8);
    assert_eq!(primary_entry(0x06).unwrap().encoding, Encoding::D8);
    for hole in [0xD3u8, 0xDB, 0xDD, 0xE3, 0xE4, 0xEB, 0xEC, 0xED, 0xF4, 0xFC, 0xFD] {
        assert!(primary_entry(hole).is_none());
    }
    assert_eq!((0u16..256).filter(|op| primary_entry(*op as u8).is_some()).count(), 245);
    let cb = cb_entry(0x46);
    assert_eq!((cb.encoding, cb.mnemonic, cb.cycles, cb.length), (Encoding::CB, "BIT 0,(HL)", 16, 2));
    let cb = cb_entry(0x37);
    assert_eq!((cb.mnemonic, cb.cycles), ("SWAP A", 8));
}
