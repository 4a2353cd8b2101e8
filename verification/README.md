# cmos_rtc

A Verus-verified model of the MC146818-style CMOS real-time clock that a virtual
machine monitor emulates, together with two small helpers.

- `src/bcd.rs`: binary <-> BCD conversions and their round-trip lemmas.
- `src/rtc.rs`: the device state (128 bytes of CMOS RAM, the selected index, the bus
  resource), the index and data ports, the memory-size information, and the laws
  that relate them.
- `src/capitalize.rs`: capitalizing the first character of words.
- `src/factorial.rs`: the factorial as the product of `1..=n`.
- `app/`: the host side: reading the host clock through libc, creating the interrupt
  eventfd, and printing.
