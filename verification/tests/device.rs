use passinglink::device::{
    cycles, Uptime, BOOTLOADER_PRODUCT, BOOTLOADER_PRODUCT_ID, BOOT_DEBOUNCE_US, CYCLES_PER_US,
    DEVICE_CLASS, DEVICE_SUB_CLASS, MANUFACTURER, MAX_PACKET_SIZE_0, MAX_POWER_MA,
    POLL_INTERVAL_US, PRODUCT, PRODUCT_ID, SERIAL_NUMBER, TICK_US, VENDOR_ID,
};

#[test]
fn bus_identity() {
    assert_eq!(VENDOR_ID, 0x1209);
    assert_eq!(PRODUCT_ID, 0x214D);
    assert_eq!(BOOTLOADER_PRODUCT_ID, 0x214C);
    assert_eq!(DEVICE_CLASS, 0x00);
    assert_eq!(DEVICE_SUB_CLASS, 0x00);
    assert_eq!(MAX_POWER_MA, 500);
    assert_eq!(MAX_PACKET_SIZE_0, 64);
}

#[test]
fn bus_strings() {
    assert_eq!(MANUFACTURER, "jmgao");
    assert_eq!(PRODUCT, "Passing Link");
    assert_eq!(BOOTLOADER_PRODUCT, "Passing Link Bootloader");
    assert_eq!(SERIAL_NUMBER.len(), 41);
    assert!(SERIAL_NUMBER.is_ascii());
}

#[test]
fn task_timing() {
    assert_eq!(CYCLES_PER_US, 72);
    assert_eq!(cycles(POLL_INTERVAL_US), Some(72 * 900));
    assert_eq!(cycles(TICK_US), Some(72_000_000));
    assert_eq!(cycles(BOOT_DEBOUNCE_US), Some(7_200_000));
    assert_eq!(cycles(0), Some(0));
    assert_eq!(cycles(59_652_323), Some(4_294_967_256));
    assert_eq!(cycles(59_652_324), None);
    assert_eq!(cycles(u32::MAX), None);
}

#[test]
fn clock_counts_seconds() {
    let mut clock = Uptime::new(1000);
    assert_eq!(clock.elapsed_s(), 0);
    clock.tick(72_001_000);
    assert_eq!(clock.elapsed_s(), 1);
    clock.tick(144_001_000);
    assert_eq!(clock.elapsed_s(), 2);
}

#[test]
fn clock_measures_microseconds_since_the_last_tick() {
    let mut clock = Uptime::new(1000);
    assert_eq!(clock.elapsed_us(1000), 0);
    assert_eq!(clock.elapsed_us(1071), 0);
    assert_eq!(clock.elapsed_us(1072), 1);
    assert_eq!(clock.elapsed_us(1000 + 72 * 900), 900);
    clock.tick(5000);
    assert_eq!(clock.elapsed_us(5000 + 720), 10);
}

#[test]
fn clock_survives_a_wrapped_cycle_counter() {
    let clock = Uptime::new(u32::MAX - 71);
    assert_eq!(clock.elapsed_us(u32::MAX), 0);
    assert_eq!(clock.elapsed_us(0), 0);
    assert_eq!(clock.elapsed_us(1), 1);
    assert_eq!(clock.elapsed_us(73), 2);
    let clock = Uptime::new(u32::MAX);
    assert_eq!(clock.elapsed_us(71), 0);
    assert_eq!(clock.elapsed_us(72), 1);
}
