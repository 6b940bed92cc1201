use nes_bus::cpu::address::classify;
use nes_bus::cpu::address::route;
use nes_bus::cpu::address::Region;
use nes_bus::cpu::address::Target;
use nes_bus::cpu::address::REGISTER_COUNT;
use nes_bus::fault::Component;
use nes_bus::fault::Fault;

#[test]
fn region_boundaries() {
    assert_eq!(classify(0x0000), Region::WorkRam);
    assert_eq!(classify(0x1FFF), Region::WorkRam);
    assert_eq!(classify(0x2000), Region::PictureUnit);
    assert_eq!(classify(0x3FFF), Region::PictureUnit);
    assert_eq!(classify(0x4000), Region::AudioIo);
    assert_eq!(classify(0x4017), Region::AudioIo);
    assert_eq!(classify(0x4018), Region::TestMode);
    assert_eq!(classify(0x401F), Region::TestMode);
    assert_eq!(classify(0x4020), Region::Mapper);
    assert_eq!(classify(0xFFFE), Region::Mapper);
    assert_eq!(classify(0xFFFF), Region::Unmapped);
}

#[test]
fn every_address_has_the_region_its_range_says() {
    for addr in 0..=0xFFFFu16 {
        let expected = match addr {
            0x0000..=0x1FFF => Region::WorkRam,
            0x2000..=0x3FFF => Region::PictureUnit,
            0x4000..=0x4017 => Region::AudioIo,
            0x4018..=0x401F => Region::TestMode,
            0x4020..=0xFFFE => Region::Mapper,
            _ => Region::Unmapped,
        };
        assert_eq!(classify(addr), expected);
    }
}

#[test]
fn ram_addresses_are_reduced_modulo_ram_size() {
    assert_eq!(route(0x0000), Ok(Target::Ram { index: 0 }));
    assert_eq!(route(0x07FF), Ok(Target::Ram { index: 0x7FF }));
    assert_eq!(route(0x0800), Ok(Target::Ram { index: 0 }));
    assert_eq!(route(0x1234), Ok(Target::Ram { index: 0x234 }));
    assert_eq!(route(0x1FFF), Ok(Target::Ram { index: 0x7FF }));
}

#[test]
fn the_four_ram_mirrors_decode_alike() {
    for addr in 0..0x800u16 {
        let base = route(addr);
        assert_eq!(route(addr + 0x0800), base);
        assert_eq!(route(addr + 0x1000), base);
        assert_eq!(route(addr + 0x1800), base);
    }
}

#[test]
fn register_addresses_are_reduced_modulo_eight() {
    assert_eq!(REGISTER_COUNT, 8);
    assert_eq!(route(0x2000), Ok(Target::Register { reg: 0 }));
    assert_eq!(route(0x2007), Ok(Target::Register { reg: 7 }));
    assert_eq!(route(0x2008), Ok(Target::Register { reg: 0 }));
    assert_eq!(route(0x2ABC), Ok(Target::Register { reg: 4 }));
    assert_eq!(route(0x3FFF), Ok(Target::Register { reg: 7 }));
}

#[test]
fn register_mirrors_decode_alike() {
    for addr in 0x2000..=0x3FFFu16 {
        let expected = Ok(Target::Register { reg: ((addr - 0x2000) % 8) as usize });
        assert_eq!(route(addr), expected);
        if addr + 8 <= 0x3FFF {
            assert_eq!(route(addr + 8), expected);
        }
        if addr + 0x1000 <= 0x3FFF {
            assert_eq!(route(addr + 0x1000), expected);
        }
    }
}

#[test]
fn mapper_addresses_pass_through() {
    assert_eq!(route(0x4020), Ok(Target::Cartridge { addr: 0x4020 }));
    assert_eq!(route(0x8000), Ok(Target::Cartridge { addr: 0x8000 }));
    assert_eq!(route(0xFFFE), Ok(Target::Cartridge { addr: 0xFFFE }));
}

#[test]
fn unimplemented_windows_fault_with_their_address() {
    for addr in 0x4000..=0x4017u16 {
        assert_eq!(route(addr), Err(Fault::AudioIoNotImplemented { addr }));
    }
    for addr in 0x4018..=0x401Fu16 {
        assert_eq!(route(addr), Err(Fault::TestModeNotImplemented { addr }));
    }
}

#[test]
fn top_address_is_invalid() {
    assert_eq!(route(0xFFFF), Err(Fault::InvalidAddress { addr: 0xFFFF }));
}

#[test]
fn a_fault_knows_its_address() {
    assert_eq!(Fault::AudioIoNotImplemented { addr: 0x4001 }.addr(), 0x4001);
    assert_eq!(Fault::TestModeNotImplemented { addr: 0x4019 }.addr(), 0x4019);
    assert_eq!(Fault::InvalidAddress { addr: 0xFFFF }.addr(), 0xFFFF);
    assert_eq!(Fault::Unresolved { component: Component::Mapper, addr: 0x8000 }.addr(), 0x8000);
}
