use rpi_hal::addr::{bus_to_io, bus_to_phys, io_to_bus, phys_to_bus};

#[test]
fn phys_and_bus_addresses() {
    assert_eq!(phys_to_bus(0x0000_1000), 0xC000_1000);
    assert_eq!(phys_to_bus(0xC000_0010), 0xC000_0010);
    assert_eq!(bus_to_phys(0xC000_1000), 0x0000_1000);
    assert_eq!(bus_to_phys(0x4000_1000), 0x0000_1000);
    assert_eq!(bus_to_phys(phys_to_bus(0x3ABC_DEF0)), 0x3ABC_DEF0);
}

#[test]
fn io_and_bus_addresses() {
    assert_eq!(io_to_bus(0x3F20_0000), 0x7E20_0000);
    assert_eq!(io_to_bus(0xFE21_5040), 0x7E21_5040);
    assert_eq!(bus_to_io(0x7E21_5040), 0x3F21_5040);
    assert_eq!(bus_to_io(io_to_bus(0x3F00_B880)), 0x3F00_B880);
}
