use vstd::prelude::*;

use crate::sensors::{
    Reading, Sensors, CPU_CLOCK, CPU_FAN, CPU_POWER, CPU_TEMPERATURE, CPU_USAGE, GPU_CLOCK,
    GPU_POWER, GPU_TEMPERATURE, GPU_USAGE,
};
use crate::settings::{CpuDetail, Mode};

verus! {

/// The length of a HID report for the screen.
pub const PACKET_LEN: usize = 64;

/// The position of the checksum byte; it covers the bytes from 1 up to it.
pub const CHECKSUM_AT: usize = 40;

/// The position of the terminator byte, and its value.
pub const TERMINATOR_AT: usize = 41;

pub const TERMINATOR: u8 = 22;

/// The fixed opening bytes of every report.
pub open spec fn header_spec(i: int) -> u8 {
    if i == 0 {
        16
    } else if i == 1 {
        104
    } else if i == 2 {
        1
    } else if i == 3 {
        6
    } else if i == 4 {
        35
    } else {
        1
    }
}

/// A value rounded for the screen, zero when absent.
pub open spec fn word_of(value: Option<Reading>) -> u16 {
    match value {
        Some(r) => r.word,
        None => 0,
    }
}

/// A percentage for the screen, zero when absent.
pub open spec fn percent_of(value: Option<Reading>) -> u8 {
    match value {
        Some(r) => r.percent,
        None => 0,
    }
}

/// The bit pattern of a temperature for the screen, that of 0.0 when absent.
pub open spec fn bits_of(value: Option<Reading>) -> u32 {
    match value {
        Some(r) => r.bits,
        None => 0,
    }
}

/// Byte `k` (0 for the high one) of a 16-bit number in big-endian order.
pub open spec fn be16(w: u16, k: int) -> u8 {
    if k == 0 {
        (w / 256) as u8
    } else {
        (w % 256) as u8
    }
}

/// Byte `k` (0 for the highest one) of a 32-bit number in big-endian order.
pub open spec fn be32(b: u32, k: int) -> u8 {
    if k == 0 {
        (b / 0x100_0000) as u8
    } else if k == 1 {
        (b / 0x1_0000 % 256) as u8
    } else if k == 2 {
        (b / 256 % 256) as u8
    } else {
        (b % 256) as u8
    }
}

/// Byte `i` of the report body (bytes 0 to 39) for a page.
///
/// The GPU page (kind 4) carries power at 19, temperature at 21, usage at
/// 25 and clock at 26. The CPU page (kind 2 with the clock, 3 with the fan)
/// carries power at 7, temperature at 10, usage at 14, and the clock at 15
/// or the fan speed at 17. Every other body byte is zero.
pub open spec fn body_spec(values: Seq<Option<Reading>>, page: Mode, detail: CpuDetail, i: int) -> u8 {
    if i < 6 {
        header_spec(i)
    } else if page == Mode::Gpu {
        if i == 6 {
            4
        } else if 19 <= i < 21 {
            be16(word_of(values[GPU_POWER as int]), i - 19)
        } else if 21 <= i < 25 {
            be32(bits_of(values[GPU_TEMPERATURE as int]), i - 21)
        } else if i == 25 {
            percent_of(values[GPU_USAGE as int])
        } else if 26 <= i < 28 {
            be16(word_of(values[GPU_CLOCK as int]), i - 26)
        } else {
            0
        }
    } else {
        if i == 6 {
            if detail == CpuDetail::Clock {
                2
            } else {
                3
            }
        } else if 7 <= i < 9 {
            be16(word_of(values[CPU_POWER as int]), i - 7)
        } else if 10 <= i < 14 {
            be32(bits_of(values[CPU_TEMPERATURE as int]), i - 10)
        } else if i == 14 {
            percent_of(values[CPU_USAGE as int])
        } else if detail == CpuDetail::Clock && 15 <= i < 17 {
            be16(word_of(values[CPU_CLOCK as int]), i - 15)
        } else if detail != CpuDetail::Clock && 17 <= i < 19 {
            be16(word_of(values[CPU_FAN as int]), i - 17)
        } else {
            0
        }
    }
}

/// The sum of the bytes of `p` from 1 up to, not including, `end`.
pub open spec fn byte_sum(p: Seq<u8>, end: int) -> nat
    decreases end,
{
    if end <= 1 {
        0
    } else {
        byte_sum(p, end - 1) + p[end - 1] as nat
    }
}

/// What the screen accepts: the fixed header, the checksum of bytes 1 to
/// 39 at 40, the terminator at 41, and zeros after it.
pub open spec fn well_formed_packet(p: Seq<u8>) -> bool {
    &&& p.len() == PACKET_LEN
    &&& forall|i: int| 0 <= i < 6 ==> #[trigger] p[i] == header_spec(i)
    &&& p[CHECKSUM_AT as int] as nat == byte_sum(p, CHECKSUM_AT as int) % 256
    &&& p[TERMINATOR_AT as int] == TERMINATOR
    &&& forall|i: int| TERMINATOR_AT < i < PACKET_LEN ==> #[trigger] p[i] == 0
}

/// The report that shows `page` with the given values and CPU detail.
pub open spec fn packet_spec(values: Seq<Option<Reading>>, page: Mode, detail: CpuDetail) -> Seq<u8> {
    let body = Seq::new(CHECKSUM_AT as nat, |i: int| body_spec(values, page, detail, i));
    Seq::new(
        PACKET_LEN as nat,
        |i: int|
            if i < CHECKSUM_AT {
                body[i]
            } else if i == CHECKSUM_AT {
                (byte_sum(body, CHECKSUM_AT as int) % 256) as u8
            } else if i == TERMINATOR_AT {
                TERMINATOR
            } else {
                0
            },
    )
}

fn word(value: Option<Reading>) -> (w: u16)
    ensures
        w == word_of(value),
{
    match value {
        Some(r) => r.word,
        None => 0,
    }
}

fn percent(value: Option<Reading>) -> (p: u8)
    ensures
        p == percent_of(value),
{
    match value {
        Some(r) => r.percent,
        None => 0,
    }
}

fn bits(value: Option<Reading>) -> (b: u32)
    ensures
        b == bits_of(value),
{
    match value {
        Some(r) => r.bits,
        None => 0,
    }
}

fn put16(packet: &mut [u8; 64], at: usize, w: u16)
    requires
        at + 2 <= 40,
    ensures
        forall|i: int|
            0 <= i < 64 ==> #[trigger] final(packet)@[i] == if at <= i < at + 2 {
                be16(w, i - at)
            } else {
                old(packet)@[i]
            },
{
    packet[at] = (w / 256) as u8;
    packet[at + 1] = (w % 256) as u8;
}

fn put32(packet: &mut [u8; 64], at: usize, b: u32)
    requires
        at + 4 <= 40,
    ensures
        forall|i: int|
            0 <= i < 64 ==> #[trigger] final(packet)@[i] == if at <= i < at + 4 {
                be32(b, i - at)
            } else {
                old(packet)@[i]
            },
{
    packet[at] = (b / 0x100_0000) as u8;
    packet[at + 1] = (b / 0x1_0000 % 256) as u8;
    packet[at + 2] = (b / 256 % 256) as u8;
    packet[at + 3] = (b % 256) as u8;
}

/// The HID report that shows `page` with `values`; on the CPU page,
/// `cpu_detail` chooses between the clock and the fan speed.
pub fn display_packet(values: &Sensors, page: Mode, cpu_detail: CpuDetail) -> (packet: [u8; 64])
    ensures
        packet@ == packet_spec(values@, page, cpu_detail),
{
    let mut packet = [0u8; 64];
    packet[0] = 16;
    packet[1] = 104;
    packet[2] = 1;
    packet[3] = 6;
    packet[4] = 35;
    packet[5] = 1;
    if page == Mode::Gpu {
        packet[6] = 4;
        put16(&mut packet, 19, word(values[GPU_POWER]));
        put32(&mut packet, 21, bits(values[GPU_TEMPERATURE]));
        packet[25] = percent(values[GPU_USAGE]);
        put16(&mut packet, 26, word(values[GPU_CLOCK]));
    } else {
        packet[6] = if cpu_detail == CpuDetail::Clock {
            2
        } else {
            3
        };
        put16(&mut packet, 7, word(values[CPU_POWER]));
        put32(&mut packet, 10, bits(values[CPU_TEMPERATURE]));
        packet[14] = percent(values[CPU_USAGE]);
        if cpu_detail == CpuDetail::Clock {
            put16(&mut packet, 15, word(values[CPU_CLOCK]));
        } else {
            put16(&mut packet, 17, word(values[CPU_FAN]));
        }
    }
    let ghost body = Seq::new(CHECKSUM_AT as nat, |i: int| body_spec(values@, page, cpu_detail, i));
    assert(forall|i: int| 0 <= i < 64 ==> #[trigger] packet@[i] == if i < 40 {
        body[i]
    } else {
        0
    });
    let mut sum: u16 = 0;
    let mut i: usize = 1;
    while i < CHECKSUM_AT
        invariant
            1 <= i <= CHECKSUM_AT,
            sum as nat == byte_sum(body, i as int),
            sum as nat <= 255 * i,
            forall|j: int| 0 <= j < 64 ==> #[trigger] packet@[j] == if j < 40 {
                body[j]
            } else {
                0
            },
        decreases CHECKSUM_AT - i,
    {
        sum = sum + packet[i] as u16;
        i += 1;
    }
    packet[CHECKSUM_AT] = (sum % 256) as u8;
    packet[TERMINATOR_AT] = TERMINATOR;
    assert(packet@ =~= packet_spec(values@, page, cpu_detail));
    packet
}

/// Every report built for the screen is one that it accepts.
pub proof fn lemma_packets_well_formed(values: Seq<Option<Reading>>, page: Mode, detail: CpuDetail)
    ensures
        well_formed_packet(packet_spec(values, page, detail)),
{
    let p = packet_spec(values, page, detail);
    let body = Seq::new(CHECKSUM_AT as nat, |i: int| body_spec(values, page, detail, i));
    lemma_byte_sum_prefix(body, p, CHECKSUM_AT as int);
}

proof fn lemma_byte_sum_prefix(a: Seq<u8>, b: Seq<u8>, end: int)
    requires
        end <= a.len(),
        end <= b.len(),
        forall|i: int| 0 <= i < end ==> a[i] == b[i],
    ensures
        byte_sum(a, end) == byte_sum(b, end),
    decreases end,
{
    if end > 1 {
        lemma_byte_sum_prefix(a, b, end - 1);
    }
}

/// The 16-bit number that bytes `at` and `at + 1` of `p` hold, high byte first.
pub open spec fn big_endian_word(p: Seq<u8>, at: int) -> int {
    p[at] * 256 + p[at + 1]
}

/// The 32-bit number that bytes `at` to `at + 3` of `p` hold, high byte first.
pub open spec fn big_endian_u32(p: Seq<u8>, at: int) -> int {
    p[at] * 0x100_0000 + p[at + 1] * 0x1_0000 + p[at + 2] * 256 + p[at + 3]
}

proof fn lemma_be16(w: u16)
    ensures
        be16(w, 0) * 256 + be16(w, 1) == w,
{
    assert(w / 256 < 256);
}

proof fn lemma_be32(b: u32)
    ensures
        be32(b, 0) * 0x100_0000 + be32(b, 1) * 0x1_0000 + be32(b, 2) * 256 + be32(b, 3) == b,
{
    assert(b / 0x100_0000 < 256);
    assert(b / 0x100_0000 * 0x100_0000 + b / 0x1_0000 % 256 * 0x1_0000 + b / 256 % 256 * 256 + b
        % 256 == b) by (nonlinear_arith);
}

/// Each value reaches the screen at its place, as a big-endian number: on
/// the GPU page power at 19, temperature bits at 21, usage at 25 and clock
/// at 26; on the CPU page power at 7, temperature bits at 10, usage at 14,
/// and the clock at 15 or the fan speed at 17 (the other pair left zero).
/// An absent value is sent as zero. Byte 6 names the page: 4 for the GPU,
/// 2 for the CPU with the clock, 3 for the CPU with the fan.
pub proof fn lemma_packet_fields(values: Seq<Option<Reading>>, page: Mode, detail: CpuDetail)
    requires
        values.len() == 9,
    ensures
        ({
            let p = packet_spec(values, page, detail);
            &&& p[6] == (if page == Mode::Gpu {
                4u8
            } else if detail == CpuDetail::Clock {
                2u8
            } else {
                3u8
            })
            &&& page == Mode::Gpu ==> {
                &&& big_endian_word(p, 19) == word_of(values[GPU_POWER as int])
                &&& big_endian_u32(p, 21) == bits_of(values[GPU_TEMPERATURE as int])
                &&& p[25] == percent_of(values[GPU_USAGE as int])
                &&& big_endian_word(p, 26) == word_of(values[GPU_CLOCK as int])
            }
            &&& page != Mode::Gpu ==> {
                &&& big_endian_word(p, 7) == word_of(values[CPU_POWER as int])
                &&& big_endian_u32(p, 10) == bits_of(values[CPU_TEMPERATURE as int])
                &&& p[14] == percent_of(values[CPU_USAGE as int])
                &&& detail == CpuDetail::Clock ==> big_endian_word(p, 15) == word_of(
                    values[CPU_CLOCK as int],
                ) && p[17] == 0 && p[18] == 0
                &&& detail != CpuDetail::Clock ==> big_endian_word(p, 17) == word_of(
                    values[CPU_FAN as int],
                ) && p[15] == 0 && p[16] == 0
            }
        }),
{
    lemma_be16(word_of(values[GPU_POWER as int]));
    lemma_be16(word_of(values[GPU_CLOCK as int]));
    lemma_be16(word_of(values[CPU_POWER as int]));
    lemma_be16(word_of(values[CPU_CLOCK as int]));
    lemma_be16(word_of(values[CPU_FAN as int]));
    lemma_be32(bits_of(values[GPU_TEMPERATURE as int]));
    lemma_be32(bits_of(values[CPU_TEMPERATURE as int]));
}

/// Whether byte `i` of the body carries a value or the page kind on `page`.
pub open spec fn field_byte(page: Mode, detail: CpuDetail, i: int) -> bool {
    if page == Mode::Gpu {
        i == 6 || 19 <= i < 28
    } else {
        i == 6 || 7 <= i < 9 || 10 <= i < 15 || (detail == CpuDetail::Clock && 15 <= i < 17) || (
        detail != CpuDetail::Clock && 17 <= i < 19)
    }
}

/// Outside the header and the value fields, the body is all zeros.
pub proof fn lemma_packet_gaps_are_zero(values: Seq<Option<Reading>>, page: Mode, detail: CpuDetail)
    ensures
        forall|i: int|
            6 <= i < CHECKSUM_AT && !field_byte(page, detail, i) ==> #[trigger] packet_spec(
                values,
                page,
                detail,
            )[i] == 0,
{
}

} // verus!
