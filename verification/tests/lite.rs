use deepcool_lite::packet::display_packet;
use deepcool_lite::schedule::{detail_for, page_for};
use deepcool_lite::sensors::{gpu_available, parse_info, sample_fields, Reading, Sensors};
use deepcool_lite::settings::{CpuDetail, Mode};

/// A bridge value as the screen uses it: its bit pattern, and the number
/// rounded and clamped into a word and into a percentage.
fn reading(value: f32) -> Reading {
    Reading {
        bits: value.to_bits(),
        word: value.round().clamp(0.0, u16::MAX as f32) as u16,
        percent: value.round().clamp(0.0, 100.0) as u8,
    }
}

/// A sensor line read as the worker reads it.
fn parse_values(line: &str) -> Result<Sensors, &'static str> {
    let fields = sample_fields(line).ok_or("expected nine sensor values")?;
    let mut values: Sensors = [None; 9];
    for (slot, field) in values.iter_mut().zip(fields) {
        *slot = field.parse::<f32>().ok().map(reading);
    }
    Ok(values)
}

#[test]
fn packets_cover_cpu_and_gpu() {
    let values = parse_values("51,34.9,2.8,836,37,150,10,1845,5200").unwrap();
    let cpu = display_packet(&values, Mode::Cpu, CpuDetail::Fan);
    let clock = display_packet(&values, Mode::Cpu, CpuDetail::Clock);
    let gpu = display_packet(&values, Mode::Gpu, CpuDetail::Fan);
    assert_eq!(
        (cpu[6], cpu[14], u16::from_be_bytes([cpu[17], cpu[18]])),
        (3, 3, 836)
    );
    assert_eq!(
        (clock[6], u16::from_be_bytes([clock[15], clock[16]])),
        (2, 5200)
    );
    assert_eq!(
        (gpu[6], gpu[25], u16::from_be_bytes([gpu[26], gpu[27]])),
        (4, 10, 1845)
    );
    assert_eq!(
        gpu[40],
        gpu[1..=39].iter().map(|&v| v as u16).sum::<u16>() as u8
    );
}

#[test]
fn machine_info_header_is_not_a_sensor_sample() {
    assert_eq!(
        parse_info("INFO\tIntel Core i7\tNVIDIA RTX\t32 GB"),
        Some(("Intel Core i7", "NVIDIA RTX", "32 GB"))
    );
    assert_eq!(parse_info("51,34.9,2.8,836,37,150,10,1845"), None);
}

#[test]
fn mix_and_cpu_detail_follow_selected_interval() {
    for interval in [5, 7] {
        let interval = interval as u64;
        assert_eq!(page_for(Mode::Mix, interval - 1, interval as u8), Mode::Cpu);
        assert_eq!(page_for(Mode::Mix, interval, interval as u8), Mode::Gpu);
        assert_eq!(page_for(Mode::Mix, interval * 2, interval as u8), Mode::Cpu);
        assert_eq!(
            detail_for(Mode::Mix, CpuDetail::Auto, interval * 2, interval as u8),
            CpuDetail::Clock
        );
        assert_eq!(
            detail_for(Mode::Mix, CpuDetail::Auto, interval * 4, interval as u8),
            CpuDetail::Fan
        );
    }
    assert_eq!(detail_for(Mode::Cpu, CpuDetail::Auto, 4, 7), CpuDetail::Fan);
    assert_eq!(
        detail_for(Mode::Cpu, CpuDetail::Auto, 5, 7),
        CpuDetail::Clock
    );
}

#[test]
fn gpu_page_uses_zero_only_when_power_is_unavailable() {
    let values = parse_values("51,34.9,2.8,836,35.1,missing,8,1815,5200").unwrap();
    assert!(gpu_available(&values));
    let packet = display_packet(&values, Mode::Gpu, CpuDetail::Fan);
    assert_eq!(packet[6], 4);
    assert_eq!(u16::from_be_bytes([packet[19], packet[20]]), 0);
    assert_eq!(f32::from_be_bytes(packet[21..25].try_into().unwrap()), 35.1);
    assert_eq!(packet[25], 8);
    assert_eq!(u16::from_be_bytes([packet[26], packet[27]]), 1815);
}
