use deepcool_lite::packet::{display_packet, CHECKSUM_AT, PACKET_LEN, TERMINATOR, TERMINATOR_AT};
use deepcool_lite::schedule::{detail_for, page_for};
use deepcool_lite::sensors::{
    machine_info_from_output, sample_fields, MachineInfo, Reading, Sensors, GPU_POWER,
};
use deepcool_lite::session::{
    classify_line, plan_frame, session_continues, set_status, worker_step, Frame, SensorLine,
    SessionState, Settings, Status, WorkerAction,
};
use deepcool_lite::settings::{interval_from_setting, interval_setting, CpuDetail, Mode};
use deepcool_lite::system::{change_task_args, query_task_args, task_outcome, title_bar_style};
use deepcool_lite::text::{split_on, trim, trim_end};

fn reading(bits: u32, word: u16, percent: u8) -> Option<Reading> {
    Some(Reading { bits, word, percent })
}

fn full_sample() -> Sensors {
    [
        reading(0x424c_0000, 51, 51),
        reading(0x420b_999a, 35, 35),
        reading(0x4033_3333, 3, 3),
        reading(0x4451_0000, 836, 100),
        reading(0x4214_0000, 37, 37),
        reading(0x4316_0000, 150, 100),
        reading(0x4120_0000, 10, 10),
        reading(0x44e6_a000, 1845, 100),
        reading(0x45a2_8000, 5200, 100),
    ]
}

#[test]
fn settings_survive_a_save_and_load() {
    for mode in [Mode::Cpu, Mode::Gpu, Mode::Mix] {
        assert_eq!(Mode::from_setting(mode.label()), mode);
        assert_eq!(Mode::from_index(mode.index() as usize), mode);
    }
    for detail in [CpuDetail::Fan, CpuDetail::Clock, CpuDetail::Auto] {
        assert_eq!(CpuDetail::from_setting(detail.label()), detail);
        assert_eq!(CpuDetail::from_index(detail.index() as usize), detail);
    }
    for seconds in [5u8, 7] {
        assert_eq!(interval_from_setting(&interval_setting(seconds)), seconds);
    }
    assert_eq!(interval_from_setting(&interval_setting(3)), 5);
}

#[test]
fn unknown_settings_fall_back() {
    assert_eq!(Mode::from_setting("gpu"), Mode::Cpu);
    assert_eq!(Mode::from_setting(" GPU"), Mode::Cpu);
    assert_eq!(Mode::from_setting(""), Mode::Cpu);
    assert_eq!(Mode::from_setting("MIX"), Mode::Mix);
    assert_eq!(Mode::from_index(9), Mode::Cpu);
    assert_eq!(CpuDetail::from_setting("CLOCK\n"), CpuDetail::Fan);
    assert_eq!(CpuDetail::from_setting("AUTO"), CpuDetail::Auto);
    assert_eq!(CpuDetail::from_index(7), CpuDetail::Fan);
    assert_eq!(interval_from_setting(" 7\r\n"), 7);
    assert_eq!(interval_from_setting("77"), 5);
    assert_eq!(interval_from_setting(""), 5);
}

#[test]
fn labels_and_names() {
    assert_eq!(Mode::Gpu.label(), "GPU");
    assert_eq!(Mode::Mix.name(), "Mix");
    assert_eq!(CpuDetail::Clock.label(), "CLOCK");
    assert_eq!(CpuDetail::Fan.name(), "Fan");
    assert_eq!(interval_setting(0), "0");
    assert_eq!(interval_setting(42), "42");
    assert_eq!(interval_setting(255), "255");
}

#[test]
fn trimming_and_splitting() {
    assert_eq!(trim("\u{3000} a b \t\n"), "a b");
    assert_eq!(trim("   "), "");
    assert_eq!(trim_end(" x \r\n"), " x");
    assert_eq!(split_on("a,,b", ','), vec!["a", "", "b"]);
    assert_eq!(split_on("", ','), vec![""]);
    assert_eq!(split_on(",", ','), vec!["", ""]);
}

#[test]
fn sample_lines_need_nine_fields() {
    assert_eq!(
        sample_fields(" 1,2,3,4,5,6,7,8,9\n"),
        Some(vec!["1", "2", "3", "4", "5", "6", "7", "8", "9"])
    );
    assert_eq!(sample_fields("1,2,3,4,5,6,7,8"), None);
    assert_eq!(sample_fields("1,2,3,4,5,6,7,8,9,10"), None);
    assert_eq!(sample_fields(",,,,,,,,").map(|f| f.len()), Some(9));
}

#[test]
fn lines_are_sorted() {
    match classify_line("INFO\tRyzen\tRadeon\t64 GB") {
        SensorLine::Info(info) => {
            assert_eq!(info.cpu, "Ryzen");
            assert_eq!(info.gpu, "Radeon");
            assert_eq!(info.memory, "64 GB");
        }
        _ => panic!("expected machine information"),
    }
    assert!(matches!(classify_line("INFO\ta\tb"), SensorLine::Malformed));
    assert!(matches!(classify_line("INFO\ta\tb\tc\td"), SensorLine::Malformed));
    match classify_line("51,34.9,2.8,836,37,150,10,1845,5200") {
        SensorLine::Sample(fields) => assert_eq!(fields[8], "5200"),
        _ => panic!("expected a sample"),
    }
    assert!(matches!(classify_line("51,34.9"), SensorLine::Malformed));
}

#[test]
fn machine_info_comes_from_the_info_line() {
    let info = machine_info_from_output("INFO\tIntel Core i7\tNVIDIA RTX\t32 GB\r\n");
    assert_eq!(
        (info.cpu.as_str(), info.gpu.as_str(), info.memory.as_str()),
        ("Intel Core i7", "NVIDIA RTX", "32 GB")
    );
    let missing = machine_info_from_output("error: no sensors");
    assert_eq!(missing.cpu, "Unavailable");
    assert_eq!(missing.gpu, "Unavailable");
    assert_eq!(missing.memory, "Unavailable");
    let default = MachineInfo::default();
    assert_eq!(default.memory, "Unavailable");
}

#[test]
fn pages_rotate_only_in_mix() {
    for t in [0u64, 4, 5, 100] {
        assert_eq!(page_for(Mode::Cpu, t, 5), Mode::Cpu);
        assert_eq!(page_for(Mode::Gpu, t, 5), Mode::Gpu);
        assert_eq!(detail_for(Mode::Mix, CpuDetail::Clock, t, 5), CpuDetail::Clock);
    }
    assert_eq!(page_for(Mode::Cpu, 3, 0), Mode::Cpu);
    assert_eq!(page_for(Mode::Mix, 13, 7), Mode::Gpu);
    assert_eq!(page_for(Mode::Mix, 20, 7), Mode::Cpu);
    assert_eq!(detail_for(Mode::Gpu, CpuDetail::Auto, 10, 7), CpuDetail::Fan);
    assert_eq!(detail_for(Mode::Gpu, CpuDetail::Auto, 15, 7), CpuDetail::Clock);
    assert_eq!(detail_for(Mode::Mix, CpuDetail::Auto, 9, 5), CpuDetail::Fan);
}

#[test]
fn reports_are_framed_and_checksummed() {
    let empty: Sensors = [None; 9];
    for (page, detail, kind) in [
        (Mode::Cpu, CpuDetail::Fan, 3u8),
        (Mode::Cpu, CpuDetail::Clock, 2),
        (Mode::Gpu, CpuDetail::Clock, 4),
    ] {
        let packet = display_packet(&empty, page, detail);
        assert_eq!(packet.len(), PACKET_LEN);
        assert_eq!(&packet[..7], &[16, 104, 1, 6, 35, 1, kind]);
        assert!(packet[7..40].iter().all(|&b| b == 0));
        assert_eq!(packet[CHECKSUM_AT], (16u16 + 104 + 1 + 6 + 35 + 1 + kind as u16 - 16) as u8);
        assert_eq!(packet[TERMINATOR_AT], TERMINATOR);
        assert!(packet[42..].iter().all(|&b| b == 0));
    }
    let packet = display_packet(&full_sample(), Mode::Cpu, CpuDetail::Fan);
    assert_eq!(&packet[10..14], &0x424c_0000u32.to_be_bytes());
    assert_eq!(u16::from_be_bytes([packet[7], packet[8]]), 35);
    assert_eq!(packet[15..17], [0, 0]);
    let sum: u32 = packet[1..40].iter().map(|&b| b as u32).sum();
    assert_eq!(packet[40], (sum % 256) as u8);
}

#[test]
fn status_lines_read_as_before() {
    assert_eq!(Status::Connecting.message(), "Connecting to case display...");
    assert_eq!(
        Status::ServiceRunning.message(),
        "Stop the official DeepCool service to use the screen"
    );
    assert_eq!(
        Status::DisplayUnavailable("sensor bridge stopped".to_string()).message(),
        "Display unavailable: sensor bridge stopped"
    );
    assert_eq!(
        Status::GpuSensorUnavailable.message(),
        "GPU sensor unavailable (temperature, usage or clock)"
    );
    assert_eq!(
        Status::CpuSensorUnavailable(CpuDetail::Clock).message(),
        "CPU sensor unavailable (Clock)"
    );
    assert_eq!(
        Status::GpuPowerUnavailable { selected: Mode::Mix, page: Mode::Cpu }.message(),
        "Mix \u{b7} Cpu page \u{b7} GPU power unavailable (0 W shown)"
    );
    assert_eq!(
        Status::Connected { selected: Mode::Gpu, page: Mode::Gpu }.message(),
        "Connected \u{b7} Gpu \u{b7} showing Gpu"
    );
}

#[test]
fn frames_need_the_values_they_show() {
    let gpu = Settings { mode: Mode::Gpu, interval: 5, detail: CpuDetail::Fan };
    let cpu_clock = Settings { mode: Mode::Cpu, interval: 5, detail: CpuDetail::Clock };
    let mut values = full_sample();
    values[7] = None;
    match plan_frame(&values, gpu, 0) {
        Frame::Skip(status) => assert!(matches!(status, Status::GpuSensorUnavailable)),
        Frame::Send { .. } => panic!("the GPU clock is missing"),
    }
    match plan_frame(&values, cpu_clock, 0) {
        Frame::Send { packet, status } => {
            assert_eq!(packet, display_packet(&values, Mode::Cpu, CpuDetail::Clock));
            assert_eq!(status.message(), "Connected \u{b7} Cpu \u{b7} showing Cpu");
        }
        Frame::Skip(_) => panic!("the CPU page has its values"),
    }
    values[8] = None;
    match plan_frame(&values, cpu_clock, 0) {
        Frame::Skip(status) => {
            assert_eq!(status.message(), "CPU sensor unavailable (Clock)")
        }
        Frame::Send { .. } => panic!("the CPU clock is missing"),
    }
    let mut values = full_sample();
    values[GPU_POWER] = None;
    let mix = Settings { mode: Mode::Mix, interval: 7, detail: CpuDetail::Auto };
    match plan_frame(&values, mix, 7) {
        Frame::Send { packet, status } => {
            assert_eq!(packet[6], 4);
            assert_eq!(
                status.message(),
                "Mix \u{b7} Gpu page \u{b7} GPU power unavailable (0 W shown)"
            );
        }
        Frame::Skip(_) => panic!("the GPU page has its values"),
    }
}

#[test]
fn settings_changes_restart_the_rotation() {
    let first = Settings::from_raw(2, 5, 2);
    assert_eq!(first, Settings { mode: Mode::Mix, interval: 5, detail: CpuDetail::Auto });
    let mut state = SessionState::new(first);
    assert!(!state.observe(first));
    let second = Settings::from_raw(2, 7, 2);
    assert!(state.observe(second));
    assert_eq!(state.last, second);
    assert!(!state.observe(second));
}

#[test]
fn startup_task_commands() {
    assert_eq!(query_task_args(), vec!["/Query", "/TN", "DeepCoolDigitalLite"]);
    assert_eq!(
        change_task_args(true, "C:\\Apps\\lite.exe"),
        vec![
            "/Create",
            "/F",
            "/SC",
            "ONLOGON",
            "/RL",
            "HIGHEST",
            "/TN",
            "DeepCoolDigitalLite",
            "/TR",
            "\"C:\\Apps\\lite.exe\" --minimized",
        ]
    );
    assert_eq!(
        change_task_args(false, "ignored"),
        vec!["/Delete", "/F", "/TN", "DeepCoolDigitalLite"]
    );
    assert_eq!(task_outcome(true, "noise"), Ok(()));
    assert_eq!(
        task_outcome(false, "  ERROR: Access is denied.\r\n"),
        Err("ERROR: Access is denied.".to_string())
    );
}

#[test]
fn title_bar_follows_the_theme() {
    let dark = title_bar_style(Some(0));
    assert!(dark.dark);
    assert_eq!((dark.dark_mode, dark.caption_color), (1, 0x001c1c1c));
    for setting in [Some(1), None] {
        let light = title_bar_style(setting);
        assert!(!light.dark);
        assert_eq!((light.dark_mode, light.caption_color), (0, 0x00fafafa));
    }
}

#[test]
fn status_line_is_replaced() {
    let mut current = Status::Connecting.message();
    set_status(&mut current, Status::ServiceRunning.message());
    assert_eq!(current, "Stop the official DeepCool service to use the screen");
}

#[test]
fn worker_waits_for_the_vendor_service() {
    match worker_step(true) {
        WorkerAction::Wait(status) => assert_eq!(
            status.message(),
            "Stop the official DeepCool service to use the screen"
        ),
        WorkerAction::RunSession => panic!("the vendor service holds the screen"),
    }
    assert!(matches!(worker_step(false), WorkerAction::RunSession));
    assert!(session_continues(true, false));
    assert!(!session_continues(true, true));
    assert!(!session_continues(false, false));
}
