use cmos_rtc::bcd::{bin_from_bcd, bin_to_bcd};
use cmos_rtc::rtc::{
    read_is_defined, SysRes, UtcTime, RTC, RTCWKALRM, RTC_ACPI_HID, RTC_ACPI_NAME, RTC_PORT_INDEX,
};

fn epoch() -> UtcTime {
    UtcTime { tm_sec: 0, tm_min: 0, tm_hour: 0, tm_mday: 1, tm_mon: 0, tm_year: 70, tm_wday: 4 }
}

fn some_time() -> UtcTime {
    UtcTime { tm_sec: 45, tm_min: 38, tm_hour: 17, tm_mday: 29, tm_mon: 11, tm_year: 124, tm_wday: 0 }
}

/// Selects `idx` through the index port and reads it through the data port.
fn read_reg(rtc: &mut RTC, idx: u8, now: &UtcTime) -> u8 {
    assert!(rtc.write(&[idx], RTC_PORT_INDEX, 0));
    let mut data = [0u8; 1];
    assert!(rtc.read(&mut data, RTC_PORT_INDEX, 1, now));
    data[0]
}

#[test]
fn bcd_of_values() {
    assert_eq!(bin_to_bcd(0), 0x00);
    assert_eq!(bin_to_bcd(7), 0x07);
    assert_eq!(bin_to_bcd(59), 0x59);
    assert_eq!(bin_to_bcd(99), 0x99);
    // Tens beyond the high nibble are lost.
    assert_eq!(bin_to_bcd(255), 0x95);
    assert_eq!(bin_to_bcd(160), 0x00);
}

#[test]
fn bcd_decoding() {
    assert_eq!(bin_from_bcd(0x59), 59);
    assert_eq!(bin_from_bcd(0x00), 0);
    assert_eq!(bin_from_bcd(0xFF), 165);
    assert_eq!(bin_from_bcd(0x1A), 20);
}

#[test]
fn bcd_round_trips() {
    for x in 0u8..100 {
        assert_eq!(bin_from_bcd(bin_to_bcd(x)), x);
    }
    for hi in 0u8..10 {
        for lo in 0u8..10 {
            let b = hi * 16 + lo;
            assert_eq!(bin_to_bcd(bin_from_bcd(b)), b);
        }
    }
}

#[test]
fn new_device_is_running_and_valid() {
    let mut rtc = RTC::new();
    assert!(rtc.isrunning());
    assert_eq!(rtc.cur_index(), 0);
    assert_eq!(read_reg(&mut rtc, 0x0D, &epoch()), 0x80);
    assert_eq!(read_reg(&mut rtc, 0x0A, &epoch()), 0x00);
    assert_eq!(read_reg(&mut rtc, 0x0B, &epoch()), 0x00);
    assert_eq!(read_reg(&mut rtc, 0x7F, &epoch()), 0x00);
}

#[test]
fn new_device_resource() {
    let mut rtc = RTC::new();
    let res = rtc.get_sys_resource().unwrap();
    assert_eq!(*res, SysRes { region_base: 0x70, region_size: 8, irq: 8 });
    res.region_base = 0x1070;
    let aml = rtc.aml_resource();
    assert_eq!(aml.io_min, 0x1070);
    assert_eq!(aml.io_max, 0x1070);
    assert_eq!(aml.alignment, 1);
    assert_eq!(aml.io_len, 8);
    assert_eq!(aml.irq, 8);
}

#[test]
fn index_port_selects_low_seven_bits() {
    let mut rtc = RTC::new();
    assert!(rtc.write(&[0x8D], 0, 0));
    assert_eq!(rtc.cur_index(), 0x0D);
    assert!(rtc.write(&[0xFF, 0x01], 0, 0));
    assert_eq!(rtc.cur_index(), 0x7F);
}

#[test]
fn index_port_reads_ff() {
    let mut rtc = RTC::new();
    let mut data = [0x12u8, 0x34];
    assert!(!rtc.read(&mut data, 0, 0, &epoch()));
    assert_eq!(data, [0xFF, 0x34]);
}

#[test]
fn data_port_needs_one_byte() {
    let mut rtc = RTC::new();
    let mut data = [0x12u8, 0x34];
    assert!(!rtc.read(&mut data, 0, 1, &epoch()));
    assert_eq!(data, [0x12, 0x34]);
    let mut empty: [u8; 0] = [];
    assert!(!rtc.read(&mut empty, 0, 1, &epoch()));
    assert!(!rtc.write(&[1, 2], 0, 1));
    assert!(!rtc.write(&[], 0, 1));
}

#[test]
fn data_writes_are_accepted_and_not_stored() {
    let mut rtc = RTC::new();
    for idx in [0x0Eu8, 0x0A, 0x0B, 0x0C, 0x0D, 0x01, 0x7F] {
        assert!(rtc.write(&[idx], 0, 0));
        assert!(rtc.write(&[0x42], 0, 1));
        let expected = if idx == 0x0D { 0x80 } else { 0x00 };
        assert_eq!(read_reg(&mut rtc, idx, &epoch()), expected);
    }
    assert!(rtc.isrunning());
}

#[test]
fn clock_registers_report_time_in_bcd() {
    let mut rtc = RTC::new();
    let t = some_time();
    assert_eq!(read_reg(&mut rtc, 0x00, &t), 0x45);
    assert_eq!(read_reg(&mut rtc, 0x02, &t), 0x38);
    assert_eq!(read_reg(&mut rtc, 0x04, &t), 0x17);
    assert_eq!(read_reg(&mut rtc, 0x07, &t), 0x29);
    assert_eq!(read_reg(&mut rtc, 0x08, &t), 0x12);
    assert_eq!(read_reg(&mut rtc, 0x09, &t), 0x24);
    assert_eq!(read_reg(&mut rtc, 0x32, &t), 0x24);
    // Alarm registers come from the RAM.
    assert_eq!(read_reg(&mut rtc, 0x01, &t), 0x00);
}

#[test]
fn clock_registers_at_epoch() {
    let mut rtc = RTC::new();
    let t = epoch();
    assert_eq!(read_reg(&mut rtc, 0x00, &t), 0x00);
    assert_eq!(read_reg(&mut rtc, 0x07, &t), 0x01);
    assert_eq!(read_reg(&mut rtc, 0x08, &t), 0x01);
    assert_eq!(read_reg(&mut rtc, 0x09, &t), 0x70);
}

#[test]
fn year_register_before_year_zero() {
    let mut rtc = RTC::new();
    let mut t = epoch();
    // Year -1: the remainder keeps the sign, and its byte is 255.
    t.tm_year = -1901;
    assert_eq!(read_reg(&mut rtc, 0x09, &t), 0x95);
}

#[test]
fn read_definedness() {
    let t = epoch();
    assert!(!read_is_defined(0x06, &t));
    assert!(read_is_defined(0x00, &t));
    let mut big = epoch();
    big.tm_mon = i32::MAX;
    big.tm_year = i32::MAX;
    assert!(!read_is_defined(0x08, &big));
    assert!(!read_is_defined(0x09, &big));
    assert!(!read_is_defined(0x32, &big));
    assert!(read_is_defined(0x04, &big));
}

#[test]
fn set_memory_below_gap() {
    let mut rtc = RTC::new();
    rtc.set_memory(1 << 30, 0xC000_0000);
    let t = epoch();
    assert_eq!(read_reg(&mut rtc, 0x15, &t), 0x80);
    assert_eq!(read_reg(&mut rtc, 0x16, &t), 0x02);
    assert_eq!(read_reg(&mut rtc, 0x17, &t), 0x00);
    assert_eq!(read_reg(&mut rtc, 0x18, &t), 0xFC);
    assert_eq!(read_reg(&mut rtc, 0x30, &t), 0x00);
    assert_eq!(read_reg(&mut rtc, 0x31, &t), 0xFC);
    assert_eq!(read_reg(&mut rtc, 0x34, &t), 0x00);
    assert_eq!(read_reg(&mut rtc, 0x35, &t), 0x3F);
    assert_eq!(read_reg(&mut rtc, 0x5B, &t), 0x00);
    assert_eq!(read_reg(&mut rtc, 0x5C, &t), 0x00);
    assert_eq!(read_reg(&mut rtc, 0x5D, &t), 0x00);
    assert_eq!(read_reg(&mut rtc, 0x0D, &t), 0x80);
    assert!(rtc.isrunning());
}

#[test]
fn set_memory_above_gap() {
    let mut rtc = RTC::new();
    rtc.set_memory(5 << 30, 0xC000_0000);
    let t = epoch();
    assert_eq!(read_reg(&mut rtc, 0x34, &t), 0x00);
    assert_eq!(read_reg(&mut rtc, 0x35, &t), 0xBF);
    assert_eq!(read_reg(&mut rtc, 0x5B, &t), 0x00);
    assert_eq!(read_reg(&mut rtc, 0x5C, &t), 0x80);
    assert_eq!(read_reg(&mut rtc, 0x5D, &t), 0x00);
    // Storing it again changes nothing.
    rtc.set_memory(5 << 30, 0xC000_0000);
    assert_eq!(read_reg(&mut rtc, 0x5C, &t), 0x80);
    assert_eq!(read_reg(&mut rtc, 0x35, &t), 0xBF);
}

#[test]
fn set_memory_large_above_gap_truncates() {
    let mut rtc = RTC::new();
    // 2^40 + 3 GiB of memory: 2^40 / 64 KiB = 0x100_0000, whose low three bytes are 0.
    rtc.set_memory((1u64 << 40) + 0xC000_0000, 0xC000_0000);
    let t = epoch();
    assert_eq!(read_reg(&mut rtc, 0x5B, &t), 0x00);
    assert_eq!(read_reg(&mut rtc, 0x5C, &t), 0x00);
    assert_eq!(read_reg(&mut rtc, 0x5D, &t), 0x00);
    rtc.set_memory((1u64 << 40) + 0xC000_0000 + 0x1234_0000, 0xC000_0000);
    assert_eq!(read_reg(&mut rtc, 0x5B, &t), 0x34);
    assert_eq!(read_reg(&mut rtc, 0x5C, &t), 0x12);
}

#[test]
fn set_memory_keeps_clock_and_status_bytes() {
    let mut rtc = RTC::new();
    rtc.set_memory(0x4000_0000, 0xC000_0000);
    rtc.set_memory(0x1_4000_0000, 0xC000_0000);
    rtc.set_memory(0x4000_0000, 0xC000_0000);
    let t = epoch();
    // The above-gap bytes of the previous call stay when there is no memory above the gap.
    assert_eq!(read_reg(&mut rtc, 0x5C, &t), 0x80);
    assert_eq!(read_reg(&mut rtc, 0x35, &t), 0x3F);
    assert_eq!(read_reg(&mut rtc, 0x0D, &t), 0x80);
    assert_eq!(read_reg(&mut rtc, 0x0E, &t), 0x00);
}

#[test]
fn alarm_and_acpi_names() {
    let alarm = RTCWKALRM { enabled: 1, pending: 0, time: epoch() };
    assert_eq!(alarm.time.tm_year, 70);
    assert_eq!(RTC_ACPI_NAME, "RTC");
    assert_eq!(RTC_ACPI_HID, "PNP0B00");
}
