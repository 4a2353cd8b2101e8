//! The MC146818-style CMOS real-time clock of a virtual machine: 128 bytes of static
//! RAM behind an index port and a data port, whose clock registers report the host's
//! UTC time in binary-coded decimal.
use vstd::prelude::*;

use vstd::arithmetic::div_mod::{lemma_div_denominator, lemma_mod_breakdown};

use crate::bcd::{
    bin_to_bcd, is_bcd, is_bcd_of, lemma_bcd_digits, lemma_bcd_round_trip, spec_bin_from_bcd,
    spec_bin_to_bcd,
};

verus! {

/// IO port of RTC device to select Register to read/write.
pub const RTC_PORT_INDEX: u64 = 0x70;
/// IO port of RTC device to read/write data from selected register.
pub const RTC_PORT_DATA: u64 = 0x71;
/// IRQ number of RTC device.
pub const RTC_IRQ: u32 = 8;

/// Index of register of time in RTC static RAM.
pub const RTC_SECONDS: u8 = 0x00;
pub const RTC_SECONDS_ALARM: u8 = 0x01;
pub const RTC_MINUTES: u8 = 0x02;
pub const RTC_MINUTES_ALARM: u8 = 0x03;
pub const RTC_HOURS: u8 = 0x04;
pub const RTC_HOURS_ALARM: u8 = 0x05;
pub const RTC_DAY_OF_WEEK: u8 = 0x06;
pub const RTC_DAY_OF_MONTH: u8 = 0x07;
pub const RTC_MONTH: u8 = 0x08;
pub const RTC_YEAR: u8 = 0x09;
/// Register A: frequency selection.
pub const RTC_REG_A: u8 = 0x0A;
/// Register B: control.
pub const RTC_REG_B: u8 = 0x0B;
/// Register C: interrupt flags.
pub const RTC_REG_C: u8 = 0x0C;
/// Register D: validity.
pub const RTC_REG_D: u8 = 0x0D;
pub const RTC_CENTURY_BCD: u8 = 0x32;

/// Index of memory data in RTC static RAM.
/// 0x15/0x16 stores low/high byte below 1MB, range is [0, 640KB].
pub const CMOS_BASE_MEM_LOW: u8 = 0x15;
pub const CMOS_BASE_MEM_HIGH: u8 = 0x16;
/// 0x17/0x18 stores low/high byte of memory between [1MB, 64MB], unit is KB.
pub const CMOS_EXT_MEM_LOW: u8 = 0x17;
pub const CMOS_EXT_MEM_HIGH: u8 = 0x18;
/// 0x30/0x31 stores low/high byte of memory between [1MB, 64MB], unit is KB.
pub const CMOS_ACTUAL_EXT_MEM_LOW: u8 = 0x30;
pub const CMOS_ACTUAL_EXT_MEM_HIGH: u8 = 0x31;
/// 0x34/0x35 stores low/high byte of memory between [16MB, 4GB], unit is 64KB.
pub const CMOS_MEM_BELOW_4GB_LOW: u8 = 0x34;
pub const CMOS_MEM_BELOW_4GB_HIGH: u8 = 0x35;
/// 0x5B/0x5C/0x5D stores low/middle/high byte of memory above 4GB, unit is 64KB.
pub const CMOS_MEM_ABOVE_4GB_LOW: u8 = 0x5B;
pub const CMOS_MEM_ABOVE_4GB_MID: u8 = 0x5C;
pub const CMOS_MEM_ABOVE_4GB_HIGH: u8 = 0x5D;

/// SET bit of register B: the clock is halted while the guest updates it.
pub const REG_B_SET: u8 = 0x80;

/// The bus resource the device occupies: its IO region and its interrupt line.
#[derive(PartialEq, Eq, Structural, Clone, Copy, Debug)]
pub struct SysRes {
    pub region_base: u64,
    pub region_size: u64,
    pub irq: i32,
}

/// A UTC time broken down into calendar fields, as the C library's `struct tm` holds
/// them: `tm_mon` counts months from 0, `tm_year` counts years from 1900 and
/// `tm_wday` counts days from Sunday.
#[derive(PartialEq, Eq, Structural, Clone, Copy, Debug)]
pub struct UtcTime {
    pub tm_sec: i32,
    pub tm_min: i32,
    pub tm_hour: i32,
    pub tm_mday: i32,
    pub tm_mon: i32,
    pub tm_year: i32,
    pub tm_wday: i32,
}

/// What the ACPI description of the device announces: an IO range starting at
/// `io_base` of `io_len` ports, aligned to one port, and an interrupt line.
#[derive(PartialEq, Eq, Structural, Clone, Copy, Debug)]
pub struct AmlIoResource {
    pub io_min: u16,
    pub io_max: u16,
    pub alignment: u8,
    pub io_len: u8,
    pub irq: u8,
}

/// An alarm as the guest programs it: whether it is enabled, whether it is pending,
/// and the time at which it fires.
pub struct RTCWKALRM {
    pub enabled: u8,
    pub pending: u8,
    pub time: UtcTime,
}

/// The name of the device in the ACPI namespace.
pub const RTC_ACPI_NAME: &'static str = "RTC";
/// The ACPI hardware id of the device: an AT-compatible real-time clock.
pub const RTC_ACPI_HID: &'static str = "PNP0B00";

/// RTC device.
pub struct RTC {
    /// Static CMOS RAM.
    cmos_data: [u8; 128],
    /// Index of Selected register.
    cur_index: u8,
    /// Resource of RTC.
    res: SysRes,
}

/// The abstract state of the device: the CMOS RAM, the selected index and the bus
/// resource.
pub struct RtcState {
    pub cmos: Seq<u8>,
    pub cur_index: u8,
    pub res: SysRes,
}

impl View for RTC {
    type V = RtcState;

    closed spec fn view(&self) -> RtcState {
        RtcState { cmos: self.cmos_data@, cur_index: self.cur_index, res: self.res }
    }
}

/// The CMOS RAM of every device holds 128 bytes.
pub proof fn lemma_ram_len(rtc: RTC)
    ensures
        rtc@.cmos.len() == 128,
{
}

/// Rust's `%` on signed integers: the remainder takes the sign of the dividend.
pub open spec fn rem_trunc(a: int, m: int) -> int {
    if a >= 0 {
        a % m
    } else {
        -((-a) % m)
    }
}

/// The registers whose reads report the current time instead of the CMOS RAM.
pub open spec fn is_clock_register(idx: u8) -> bool {
    idx == RTC_SECONDS || idx == RTC_MINUTES || idx == RTC_HOURS || idx == RTC_DAY_OF_MONTH
        || idx == RTC_MONTH || idx == RTC_YEAR || idx == RTC_CENTURY_BCD
}

/// The binary value that a clock register reports for the time `t`, before its
/// conversion to BCD.
pub open spec fn clock_value(idx: u8, t: UtcTime) -> int {
    if idx == RTC_SECONDS {
        t.tm_sec as int
    } else if idx == RTC_MINUTES {
        t.tm_min as int
    } else if idx == RTC_HOURS {
        t.tm_hour as int
    } else if idx == RTC_DAY_OF_MONTH {
        t.tm_mday as int
    } else if idx == RTC_MONTH {
        t.tm_mon + 1
    } else {
        rem_trunc(t.tm_year + 1900, 100)
    }
}

/// A data read with `idx` selected is defined for the time `t`: the day-of-week
/// register is never readable (its read stores outside the one-byte buffer), and the
/// month and year registers need `t` to leave room for their offsets.
pub open spec fn read_defined(idx: u8, t: UtcTime) -> bool {
    &&& idx != RTC_DAY_OF_WEEK
    &&& idx == RTC_MONTH ==> t.tm_mon < i32::MAX
    &&& (idx == RTC_YEAR || idx == RTC_CENTURY_BCD) ==> t.tm_year <= i32::MAX - 1900
}

/// The byte a data read returns in the state `s` at the time `t`.
pub open spec fn spec_read_value(s: RtcState, t: UtcTime) -> u8 {
    if is_clock_register(s.cur_index) {
        spec_bin_to_bcd(clock_value(s.cur_index, t) as u8) as u8
    } else {
        s.cmos[s.cur_index as int]
    }
}

/// What a data read that returns `b` reports, with register `idx` selected, the time
/// `t` and the RAM `cmos`: the seconds (0x00), minutes (0x02), hours (0x04), day of the
/// month (0x07), month counted from one (0x08) and year within its century (0x09 and
/// 0x32) of `t` as two BCD digits, where the value has two digits; every other register,
/// the alarm registers among them, reports its byte of RAM.
pub open spec fn read_reports(idx: u8, t: UtcTime, cmos: Seq<u8>, b: u8) -> bool {
    &&& idx == 0x00 && 0 <= t.tm_sec < 100 ==> is_bcd_of(b, t.tm_sec as int)
    &&& idx == 0x02 && 0 <= t.tm_min < 100 ==> is_bcd_of(b, t.tm_min as int)
    &&& idx == 0x04 && 0 <= t.tm_hour < 100 ==> is_bcd_of(b, t.tm_hour as int)
    &&& idx == 0x07 && 0 <= t.tm_mday < 100 ==> is_bcd_of(b, t.tm_mday as int)
    &&& idx == 0x08 && 0 <= t.tm_mon + 1 < 100 ==> is_bcd_of(b, t.tm_mon + 1)
    &&& (idx == 0x09 || idx == 0x32) && t.tm_year + 1900 >= 0 ==> is_bcd_of(
        b,
        (t.tm_year + 1900) % 100,
    )
    &&& idx != 0x00 && idx != 0x02 && idx != 0x04 && idx != 0x07 && idx != 0x08 && idx != 0x09
        && idx != 0x32 ==> b == cmos[idx as int]
}

/// The state after the guest selects a register by writing `b` to the index port: the
/// top bit (the NMI mask) is dropped.
pub open spec fn spec_select(s: RtcState, b: u8) -> RtcState {
    RtcState { cmos: s.cmos, cur_index: b & 0x7f, res: s.res }
}

/// The part of the guest memory that lies below the gap on x86_64.
pub open spec fn mem_below_4g(mem_size: u64, gap_start: u64) -> int {
    if mem_size > gap_start {
        gap_start as int
    } else {
        mem_size as int
    }
}

/// The part of the guest memory that lies above the gap on x86_64.
pub open spec fn mem_above_4g(mem_size: u64, gap_start: u64) -> int {
    if mem_size > gap_start {
        mem_size - gap_start
    } else {
        0
    }
}

/// The indices of the CMOS RAM that `set_memory` writes for the given memory layout:
/// the bytes for the memory above the gap only where there is such memory.
pub open spec fn written_by_set_memory(i: int, mem_size: u64, gap_start: u64) -> bool {
    ||| i == CMOS_BASE_MEM_LOW || i == CMOS_BASE_MEM_HIGH || i == CMOS_EXT_MEM_LOW || i
        == CMOS_EXT_MEM_HIGH || i == CMOS_ACTUAL_EXT_MEM_LOW || i == CMOS_ACTUAL_EXT_MEM_HIGH
        || i == CMOS_MEM_BELOW_4GB_LOW || i == CMOS_MEM_BELOW_4GB_HIGH
    ||| mem_above_4g(mem_size, gap_start) > 0 && (i == CMOS_MEM_ABOVE_4GB_LOW || i
        == CMOS_MEM_ABOVE_4GB_MID || i == CMOS_MEM_ABOVE_4GB_HIGH)
}

/// The CMOS RAM after `set_memory`: the base memory is 640 KiB, the extended memory
/// 63 MiB, the memory between 16 MiB and the gap is counted in 64 KiB units, and the
/// memory above the gap, where there is any, in 64 KiB units too. Each count is stored
/// little-endian, truncated to its bytes.
pub open spec fn spec_memory_cmos(cmos: Seq<u8>, mem_size: u64, gap_start: u64) -> Seq<u8> {
    let below = (mem_below_4g(mem_size, gap_start) - 0x100_0000) / 0x1_0000;
    let above = mem_above_4g(mem_size, gap_start) / 0x1_0000;
    let base = cmos.update(CMOS_BASE_MEM_LOW as int, 0x80u8).update(
        CMOS_BASE_MEM_HIGH as int,
        0x02u8,
    ).update(CMOS_EXT_MEM_LOW as int, 0x00u8).update(CMOS_EXT_MEM_HIGH as int, 0xFCu8).update(
        CMOS_ACTUAL_EXT_MEM_LOW as int,
        0x00u8,
    ).update(CMOS_ACTUAL_EXT_MEM_HIGH as int, 0xFCu8).update(
        CMOS_MEM_BELOW_4GB_LOW as int,
        (below % 0x100) as u8,
    ).update(CMOS_MEM_BELOW_4GB_HIGH as int, ((below / 0x100) % 0x100) as u8);
    if mem_above_4g(mem_size, gap_start) > 0 {
        base.update(CMOS_MEM_ABOVE_4GB_LOW as int, (above % 0x100) as u8).update(
            CMOS_MEM_ABOVE_4GB_MID as int,
            ((above / 0x100) % 0x100) as u8,
        ).update(CMOS_MEM_ABOVE_4GB_HIGH as int, ((above / 0x1_0000) % 0x100) as u8)
    } else {
        base
    }
}

/// The state of a freshly constructed device: all of the RAM is zero but register D,
/// whose VRT bit says that RAM and time are valid; register 0 is selected, and the
/// device occupies the eight ports from the index port and interrupt line 8.
pub open spec fn spec_initial_state() -> RtcState {
    RtcState {
        cmos: Seq::new(128, |i: int| 0u8).update(RTC_REG_D as int, 0x80u8),
        cur_index: 0,
        res: SysRes { region_base: RTC_PORT_INDEX, region_size: 8, irq: RTC_IRQ as i32 },
    }
}

/// Whether the clock runs in the state `s`: register B's SET bit is clear and the
/// divider chain bits of register A select a running divider.
pub open spec fn spec_is_running(s: RtcState) -> bool {
    (s.cmos[RTC_REG_B as int] & REG_B_SET) == 0 && (s.cmos[RTC_REG_A as int] & 0x70) <= 0x20
}

impl RTC {
    #[verifier::type_invariant]
    spec fn index_in_ram(self) -> bool {
        self.cur_index < 128
    }

    /// Construct function of RTC device.
    pub fn new() -> (rtc: RTC)
        ensures
            rtc@ == spec_initial_state(),
    {
        let mut rtc = RTC {
            cmos_data: [0u8; 128],
            cur_index: 0u8,
            res: SysRes { region_base: RTC_PORT_INDEX, region_size: 8, irq: RTC_IRQ as i32 },
        };
        // Set VRT bit in Register-D, indicates that RAM and time are valid.
        rtc.cmos_data[RTC_REG_D as usize] = 0x80;
        assert(rtc@.cmos =~= spec_initial_state().cmos);
        rtc
    }
}


impl RTC {
    /// Set memory info stored in RTC static RAM.
    ///
    /// # Arguments
    ///
    /// * `mem_size` - Guest memory size.
    /// * `gap_start` - The start address of gap on x86_64 platform.
    ///                 This value can be found in memory layout.
    pub fn set_memory(&mut self, mem_size: u64, gap_start: u64)
        requires
            mem_below_4g(mem_size, gap_start) >= 0x100_0000,
        ensures
            old(self)@.cmos.len() == 128,
            final(self)@.cmos.len() == 128,
            final(self)@.cmos == spec_memory_cmos(old(self)@.cmos, mem_size, gap_start),
            final(self)@.cur_index == old(self)@.cur_index,
            final(self)@.res == old(self)@.res,
            forall|i: int|
                0 <= i < 128 && !written_by_set_memory(i, mem_size, gap_start)
                    ==> #[trigger] final(self)@.cmos[i] == old(self)@.cmos[i],
            memory_layout_stored(final(self)@.cmos, mem_size, gap_start),
    {
        proof {
            use_type_invariant(&*self);
        }
        let (mem_below_4g, mem_above_4g) = if mem_size > gap_start {
            (gap_start, mem_size - gap_start)
        } else {
            (mem_size, 0u64)
        };

        let kb: u64 = 1024;
        let base_mem_kb: i32 = 640;
        assert((base_mem_kb as u8) == 0x80u8 && ((base_mem_kb >> 8u32) as u8) == 0x02u8)
            by (bit_vector)
            requires
                base_mem_kb == 640i32,
        ;
        self.cmos_data[CMOS_BASE_MEM_LOW as usize] = base_mem_kb as u8;
        self.cmos_data[CMOS_BASE_MEM_HIGH as usize] = (base_mem_kb >> 8u32) as u8;

        let ext_mem_kb: u64 = 63 * kb;
        assert((ext_mem_kb as u8) == 0u8 && ((ext_mem_kb >> 8u64) as u8) == 0xFCu8) by (bit_vector)
            requires
                ext_mem_kb == 64512u64,
        ;
        self.cmos_data[CMOS_EXT_MEM_LOW as usize] = ext_mem_kb as u8;
        self.cmos_data[CMOS_EXT_MEM_HIGH as usize] = (ext_mem_kb >> 8u64) as u8;
        self.cmos_data[CMOS_ACTUAL_EXT_MEM_LOW as usize] = ext_mem_kb as u8;
        self.cmos_data[CMOS_ACTUAL_EXT_MEM_HIGH as usize] = (ext_mem_kb >> 8u64) as u8;

        let mem_data: u64 = (mem_below_4g - 16 * kb * kb) / (64 * kb);
        assert((mem_data as u8) == (mem_data % 0x100) as u8 && ((mem_data >> 8u64) as u8) == ((
        mem_data / 0x100) % 0x100) as u8) by (bit_vector);
        self.cmos_data[CMOS_MEM_BELOW_4GB_LOW as usize] = mem_data as u8;
        self.cmos_data[CMOS_MEM_BELOW_4GB_HIGH as usize] = (mem_data >> 8u64) as u8;

        if mem_above_4g > 0 {
            let mem_data: u64 = mem_above_4g / (64 * kb);
            assert((mem_data as u8) == (mem_data % 0x100) as u8 && ((mem_data >> 8u64) as u8) == ((
            mem_data / 0x100) % 0x100) as u8 && ((mem_data >> 16u64) as u8) == ((mem_data
                / 0x1_0000) % 0x100) as u8) by (bit_vector);
            self.cmos_data[CMOS_MEM_ABOVE_4GB_LOW as usize] = mem_data as u8;
            self.cmos_data[CMOS_MEM_ABOVE_4GB_MID as usize] = (mem_data >> 8u64) as u8;
            self.cmos_data[CMOS_MEM_ABOVE_4GB_HIGH as usize] = (mem_data >> 16u64) as u8;
        }
        assert(self@.cmos =~= spec_memory_cmos(old(self)@.cmos, mem_size, gap_start));
        proof {
            lemma_set_memory_stores_layout(old(self)@.cmos, mem_size, gap_start);
        }
    }
}

fn reborrow(r: &mut SysRes) -> (out: &mut SysRes)
    ensures
        *out == *old(r),
        *final(r) == *final(out),
    no_unwind
{
    r
}

impl RTC {
    /// Reads the selected register into `data`, which must hold exactly one byte: a
    /// clock register reports the field of `now` it stands for in BCD, every other
    /// register the byte of CMOS RAM at its index.
    pub fn read_data(&self, data: &mut [u8], now: &UtcTime) -> (ok: bool)
        requires
            old(data)@.len() == 1 ==> read_defined(self@.cur_index, *now),
        ensures
            ok == (old(data)@.len() == 1),
            ok ==> final(data)@ == seq![spec_read_value(self@, *now)],
            ok ==> read_reports(self@.cur_index, *now, self@.cmos, final(data)@[0]),
            !ok ==> final(data)@ == old(data)@,
    {
        proof {
            use_type_invariant(self);
            lemma_read_reports(self@, *now);
        }
        if data.len() != 1 {
            return false;
        }
        let tm = now;
        match self.cur_index {
            RTC_SECONDS => {
                data[0] = bin_to_bcd(tm.tm_sec as u8);
            },
            RTC_MINUTES => {
                data[0] = bin_to_bcd(tm.tm_min as u8);
            },
            RTC_HOURS => {
                data[0] = bin_to_bcd(tm.tm_hour as u8);
            },
            RTC_DAY_OF_WEEK => {
                data[10] = bin_to_bcd((tm.tm_wday + 1) as u8);
            },
            RTC_DAY_OF_MONTH => {
                data[0] = bin_to_bcd(tm.tm_mday as u8);
            },
            RTC_MONTH => {
                data[0] = bin_to_bcd((tm.tm_mon + 1) as u8);
            },
            RTC_YEAR => {
                let year: i32 = tm.tm_year + 1900;
                data[0] = bin_to_bcd((year % 100) as u8);
            },
            RTC_CENTURY_BCD => {
                data[0] = bin_to_bcd(((tm.tm_year + 1900) % 100) as u8);
            },
            _ => {
                data[0] = self.cmos_data[self.cur_index as usize];
            },
        }
        assert(data@ =~= seq![spec_read_value(self@, *now)]);
        true
    }

    /// Writes `data`, which must hold exactly one byte, to the selected register. The
    /// alarm and clock registers schedule no timer yet; register A, register B and
    /// every other index accept the byte without storing it, so a data write never
    /// changes the device.
    pub fn write_data(&mut self, data: &[u8]) -> (ok: bool)
        ensures
            ok == (data@.len() == 1),
            final(self)@ == old(self)@,
    {
        if data.len() != 1 {
            return false;
        }
        match self.cur_index {
            RTC_SECONDS_ALARM | RTC_MINUTES_ALARM | RTC_HOURS_ALARM => {
                self.check_update_timer();
            },
            RTC_SECONDS | RTC_MINUTES | RTC_HOURS | RTC_MONTH | RTC_YEAR | RTC_DAY_OF_WEEK
            | RTC_DAY_OF_MONTH => {
                self.set_time();
                self.check_update_timer();
            },
            RTC_REG_A => {},
            _ => {},
        }
        true
    }

    /// Whether the clock is running: register B does not hold the SET bit and the
    /// divider bits of register A select a running divider.
    pub fn isrunning(&self) -> (r: bool)
        ensures
            r == spec_is_running(self@),
    {
        ((self.cmos_data[RTC_REG_B as usize] & REG_B_SET) == 0) && ((
        self.cmos_data[RTC_REG_A as usize] & 0x70) <= 0x20)
    }

    /// Takes over a new time written by the guest; the device keeps reporting the host's
    /// time, so nothing changes.
    fn set_time(&self) {
    }

    /// Reschedules the update and alarm interrupts; no interrupt is raised yet, so
    /// nothing changes.
    fn check_update_timer(&self) {
    }

    /// A read from the device's IO region: the index port (offset 0) cannot be read and
    /// answers 0xFF, the data port reads the selected register at the time `now`.
    pub fn read(&mut self, data: &mut [u8], _base: u64, offset: u64, now: &UtcTime) -> (ok: bool)
        requires
            offset == 0 ==> old(data)@.len() >= 1,
            offset != 0 && old(data)@.len() == 1 ==> read_defined(old(self)@.cur_index, *now),
        ensures
            final(self)@ == old(self)@,
            offset == 0 ==> !ok && final(data)@ == old(data)@.update(0, 0xFFu8),
            offset != 0 ==> ok == (old(data)@.len() == 1),
            offset != 0 && ok ==> final(data)@ == seq![spec_read_value(old(self)@, *now)],
            offset != 0 && ok ==> read_reports(
                old(self)@.cur_index,
                *now,
                old(self)@.cmos,
                final(data)@[0],
            ),
            offset != 0 && !ok ==> final(data)@ == old(data)@,
    {
        if offset == 0 {
            data[0] = 0xFF;
            false
        } else {
            self.read_data(data, now)
        }
    }

    /// A write to the device's IO region: a write to the index port (offset 0) selects
    /// the register given by the low seven bits of its first byte, a write to the data
    /// port goes to the selected register.
    pub fn write(&mut self, data: &[u8], _base: u64, offset: u64) -> (ok: bool)
        requires
            offset == 0 ==> data@.len() >= 1,
        ensures
            offset == 0 ==> ok && final(self)@ == spec_select(old(self)@, data@[0]),
            offset == 0 ==> final(self)@.cur_index == data@[0] % 128,
            offset != 0 ==> ok == (data@.len() == 1) && final(self)@ == old(self)@,
    {
        if offset == 0 {
            let first: u8 = data[0];
            let idx: u8 = first & 0x7F;
            assert(idx < 128 && idx == first % 128) by (bit_vector)
                requires
                    idx == first & 0x7Fu8,
            ;
            self.cur_index = idx;
            true
        } else {
            self.write_data(data)
        }
    }

    /// The bus resource of the device, for the bus to assign.
    pub fn get_sys_resource(&mut self) -> (r: Option<&mut SysRes>)
        ensures
            r matches Some(res) && *res == old(self)@.res && final(self)@ == (RtcState {
                res: *final(res),
                ..old(self)@
            }),
    {
        proof {
            use_type_invariant(&*self);
        }
        Some(reborrow(&mut self.res))
    }

    /// The resources the ACPI description of the device announces: the IO region, as
    /// sixteen-bit ports, and the interrupt line.
    pub fn aml_resource(&self) -> (r: AmlIoResource)
        ensures
            r.io_min == self@.res.region_base as u16,
            r.io_max == self@.res.region_base as u16,
            r.alignment == 1,
            r.io_len == self@.res.region_size as u8,
            r.irq == self@.res.irq as u8,
    {
        AmlIoResource {
            io_min: self.res.region_base as u16,
            io_max: self.res.region_base as u16,
            alignment: 0x01,
            io_len: self.res.region_size as u8,
            irq: self.res.irq as u8,
        }
    }
}

/// Whether a data read with `idx` selected is defined at the time `now`.
pub fn read_is_defined(idx: u8, now: &UtcTime) -> (r: bool)
    ensures
        r == read_defined(idx, *now),
{
    idx != RTC_DAY_OF_WEEK && (idx != RTC_MONTH || now.tm_mon < i32::MAX) && ((idx != RTC_YEAR
        && idx != RTC_CENTURY_BCD) || now.tm_year <= i32::MAX - 1900)
}

impl RTC {
    /// The index of the selected register.
    pub fn cur_index(&self) -> (r: u8)
        ensures
            r == self@.cur_index,
            r < 128,
            self@.cmos.len() == 128,
    {
        proof {
            use_type_invariant(self);
        }
        self.cur_index
    }
}

/// Selecting a register through the index port always selects a byte of the CMOS RAM:
/// the index is below 128 whatever byte the guest writes.
pub proof fn lemma_select_stays_in_ram(s: RtcState, b: u8)
    ensures
        spec_select(s, b).cur_index < 128,
        spec_select(s, b).cur_index == b % 128,
        b < 128 ==> spec_select(s, b).cur_index == b,
        b >= 128 ==> spec_select(s, b).cur_index == b - 128,
        spec_select(s, b).cmos == s.cmos,
        spec_select(s, b).res == s.res,
{
    assert((b & 0x7fu8) < 128 && (b & 0x7fu8) == b % 128) by (bit_vector);
}

/// After the guest selects a register that is not a clock register, a read from the
/// data port returns the byte of CMOS RAM at the selected index, whatever the time.
pub proof fn lemma_select_then_read(s: RtcState, b: u8, t: UtcTime)
    requires
        !is_clock_register(b & 0x7f),
    ensures
        spec_read_value(spec_select(s, b), t) == s.cmos[(b & 0x7f) as int],
{
}

/// A data read reports the time in BCD from the time registers and the byte of RAM
/// from every other register.
pub proof fn lemma_read_reports(s: RtcState, t: UtcTime)
    ensures
        read_reports(s.cur_index, t, s.cmos, spec_read_value(s, t)),
{
    let idx = s.cur_index;
    if is_clock_register(idx) {
        let v = clock_value(idx, t);
        if 0 <= v < 100 {
            let x = v as u8;
            assert(x == v);
            lemma_bcd_digits(x);
        }
        if idx == 0x09 || idx == 0x32 {
            assert(t.tm_year + 1900 >= 0 ==> v == (t.tm_year + 1900) % 100);
        }
    }
}

/// A clock register whose value is below one hundred reads as a valid BCD byte, and
/// decoding that byte gives the value back.
pub proof fn lemma_clock_read_decodes(s: RtcState, t: UtcTime)
    requires
        is_clock_register(s.cur_index),
        0 <= clock_value(s.cur_index, t) < 100,
    ensures
        is_bcd(spec_read_value(s, t)),
        spec_bin_from_bcd(spec_read_value(s, t)) == clock_value(s.cur_index, t),
{
    let v = clock_value(s.cur_index, t);
    let x = v as u8;
    assert(x == v);
    lemma_bcd_round_trip(x);
}

/// Two and three bytes read little-endian give the number modulo 2^16 and 2^24.
pub proof fn lemma_le_bytes(x: int)
    requires
        x >= 0,
    ensures
        x % 0x100 + 0x100 * ((x / 0x100) % 0x100) == x % 0x1_0000,
        x % 0x100 + 0x100 * ((x / 0x100) % 0x100) + 0x1_0000 * ((x / 0x1_0000) % 0x100) == x
            % 0x100_0000,
{
    lemma_mod_breakdown(x, 0x100, 0x100);
    lemma_mod_breakdown(x, 0x100, 0x1_0000);
    lemma_mod_breakdown(x / 0x100, 0x100, 0x100);
    lemma_div_denominator(x, 0x100, 0x100);
}

/// The little-endian number held by the two bytes of the CMOS RAM at `lo`.
pub open spec fn le16(cmos: Seq<u8>, lo: int) -> int {
    cmos[lo] + 0x100 * cmos[lo + 1]
}

/// The little-endian number held by the three bytes of the CMOS RAM at `lo`.
pub open spec fn le24(cmos: Seq<u8>, lo: int) -> int {
    cmos[lo] + 0x100 * cmos[lo + 1] + 0x1_0000 * cmos[lo + 2]
}

/// The RAM `cmos` holds the memory layout of a guest of `mem_size` bytes with its gap
/// at `gap_start`: 640 KiB of base memory at 0x15, 63 MiB of extended memory in KiB at
/// 0x17 and at 0x30, the 64 KiB units of memory between 16 MiB and the gap at 0x34,
/// and, where there is memory above the gap, its 64 KiB units at 0x5B, each number
/// little-endian and cut to its bytes.
pub open spec fn memory_layout_stored(cmos: Seq<u8>, mem_size: u64, gap_start: u64) -> bool {
    let below: int = if mem_size > gap_start {
        gap_start as int
    } else {
        mem_size as int
    };
    &&& le16(cmos, 0x15) == 640
    &&& le16(cmos, 0x17) == 63 * 1024
    &&& le16(cmos, 0x30) == 63 * 1024
    &&& le16(cmos, 0x34) == ((below - 16 * 1024 * 1024) / 0x1_0000int) % 0x1_0000
    &&& mem_size > gap_start ==> le24(cmos, 0x5B) == ((mem_size - gap_start) / 0x1_0000int)
        % 0x100_0000
}

/// `set_memory` stores the guest memory layout: every count it writes reads back,
/// little-endian, as the count cut to its bytes.
pub proof fn lemma_set_memory_stores_layout(cmos: Seq<u8>, mem_size: u64, gap_start: u64)
    requires
        cmos.len() == 128,
        mem_below_4g(mem_size, gap_start) >= 0x100_0000,
    ensures
        memory_layout_stored(spec_memory_cmos(cmos, mem_size, gap_start), mem_size, gap_start),
{
    let below = (mem_below_4g(mem_size, gap_start) - 0x100_0000) / 0x1_0000;
    let above = mem_above_4g(mem_size, gap_start) / 0x1_0000;
    lemma_le_bytes(below);
    lemma_le_bytes(above);
}

/// Storing the memory information leaves every byte of the CMOS RAM that it does not
/// write, the clock and status registers among them, as it was, and keeps the RAM's
/// length. The length of a device's RAM is 128 (`lemma_ram_len`).
pub proof fn lemma_set_memory_keeps_other_bytes(cmos: Seq<u8>, mem_size: u64, gap_start: u64, i: int)
    requires
        cmos.len() == 128,
        0 <= i < 128,
        !written_by_set_memory(i, mem_size, gap_start),
    ensures
        spec_memory_cmos(cmos, mem_size, gap_start).len() == 128,
        spec_memory_cmos(cmos, mem_size, gap_start)[i] == cmos[i],
{
}

/// Storing the memory information does not start or stop the clock.
pub proof fn lemma_set_memory_keeps_running(s: RtcState, mem_size: u64, gap_start: u64)
    requires
        s.cmos.len() == 128,
    ensures
        spec_is_running(RtcState { cmos: spec_memory_cmos(s.cmos, mem_size, gap_start), ..s })
            == spec_is_running(s),
{
    lemma_set_memory_keeps_other_bytes(s.cmos, mem_size, gap_start, RTC_REG_A as int);
    lemma_set_memory_keeps_other_bytes(s.cmos, mem_size, gap_start, RTC_REG_B as int);
}

/// Storing the same memory information twice leaves the CMOS RAM as storing it once.
pub proof fn lemma_set_memory_idempotent(cmos: Seq<u8>, mem_size: u64, gap_start: u64)
    requires
        cmos.len() == 128,
    ensures
        spec_memory_cmos(spec_memory_cmos(cmos, mem_size, gap_start), mem_size, gap_start)
            == spec_memory_cmos(cmos, mem_size, gap_start),
{
    let once = spec_memory_cmos(cmos, mem_size, gap_start);
    let twice = spec_memory_cmos(once, mem_size, gap_start);
    assert(twice =~= once);
}

} // verus!
