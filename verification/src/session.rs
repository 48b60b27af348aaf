use vstd::prelude::*;

use crate::packet::{display_packet, lemma_packets_well_formed, packet_spec, well_formed_packet};
use crate::schedule::{detail_for, detail_spec, page_for, page_spec};
use crate::sensors::{
    gpu_available, gpu_available_spec, info_fields_spec, parse_info, sample_fields,
    sample_fields_spec, MachineInfo, Reading, Sensors, CPU_CLOCK, CPU_FAN, CPU_POWER,
    CPU_TEMPERATURE, CPU_USAGE, GPU_CLOCK, GPU_POWER, GPU_TEMPERATURE, GPU_USAGE, SENSOR_COUNT,
};
use crate::settings::{CpuDetail, Mode};
use crate::text::views;

verus! {

broadcast use vstd::string::group_string_axioms;

/// The line shown in the settings window about the screen.
pub enum Status {
    /// The worker has not reached the screen yet.
    Connecting,
    /// The vendor's own display service holds the screen.
    ServiceRunning,
    /// A display session ended with this error.
    DisplayUnavailable(String),
    /// The GPU page lacks its temperature, usage or clock.
    GpuSensorUnavailable,
    /// The CPU page lacks a value it shows with this detail.
    CpuSensorUnavailable(CpuDetail),
    /// A report went out, but without the GPU power, shown as 0 W.
    GpuPowerUnavailable { selected: Mode, page: Mode },
    /// A report went out with every value it shows.
    Connected { selected: Mode, page: Mode },
}

impl Status {
    /// The text of a status line.
    pub open spec fn message_spec(&self) -> Seq<char> {
        match self {
            Status::Connecting => "Connecting to case display..."@,
            Status::ServiceRunning => "Stop the official DeepCool service to use the screen"@,
            Status::DisplayUnavailable(error) => "Display unavailable: "@ + error@,
            Status::GpuSensorUnavailable => "GPU sensor unavailable (temperature, usage or clock)"@,
            Status::CpuSensorUnavailable(detail) => "CPU sensor unavailable ("@ + detail.name_spec()
                + ")"@,
            Status::GpuPowerUnavailable { selected, page } => selected.name_spec() + " \u{b7} "@
                + page.name_spec() + " page \u{b7} GPU power unavailable (0 W shown)"@,
            Status::Connected { selected, page } => "Connected \u{b7} "@ + selected.name_spec()
                + " \u{b7} showing "@ + page.name_spec(),
        }
    }

    pub fn message(&self) -> (text: String)
        ensures
            text@ == self.message_spec(),
    {
        match self {
            Status::Connecting => "Connecting to case display...".to_owned(),
            Status::ServiceRunning => "Stop the official DeepCool service to use the screen".to_owned(),
            Status::DisplayUnavailable(error) => {
                let mut text = "Display unavailable: ".to_owned();
                text.append(error.as_str());
                text
            },
            Status::GpuSensorUnavailable => "GPU sensor unavailable (temperature, usage or clock)".to_owned(),
            Status::CpuSensorUnavailable(detail) => {
                let mut text = "CPU sensor unavailable (".to_owned();
                text.append(detail.name());
                text.append(")");
                text
            },
            Status::GpuPowerUnavailable { selected, page } => {
                let mut text = selected.name().to_owned();
                text.append(" \u{b7} ");
                text.append(page.name());
                text.append(" page \u{b7} GPU power unavailable (0 W shown)");
                text
            },
            Status::Connected { selected, page } => {
                let mut text = "Connected \u{b7} ".to_owned();
                text.append(selected.name());
                text.append(" \u{b7} showing ");
                text.append(page.name());
                text
            },
        }
    }
}

/// The settings that the worker reads before each sensor line.
#[derive(Clone, Copy, Debug, PartialEq, Eq, Structural)]
pub struct Settings {
    pub mode: Mode,
    pub interval: u8,
    pub detail: CpuDetail,
}

impl Settings {
    /// The settings that the shared selector positions stand for.
    pub fn from_raw(mode: u8, interval: u8, detail: u8) -> (settings: Settings)
        ensures
            settings.mode == Mode::from_index_spec(mode as int),
            settings.interval == interval,
            settings.detail == CpuDetail::from_index_spec(detail as int),
    {
        Settings {
            mode: Mode::from_index(mode as usize),
            interval,
            detail: CpuDetail::from_index(detail as usize),
        }
    }
}

/// What a display session remembers between sensor lines: the settings
/// that its page rotation started with.
pub struct SessionState {
    pub last: Settings,
}

impl SessionState {
    pub fn new(settings: Settings) -> (state: SessionState)
        ensures
            state.last == settings,
    {
        SessionState { last: settings }
    }

    /// Takes in the current settings; true when they differ from the
    /// remembered ones, in which case the rotation clock starts over.
    pub fn observe(&mut self, current: Settings) -> (changed: bool)
        ensures
            changed == (old(self).last != current),
            final(self).last == current,
    {
        let changed = current != self.last;
        self.last = current;
        changed
    }
}

/// What one line from the sensor bridge is.
pub enum SensorLine<'a> {
    /// The machine's names.
    Info(MachineInfo),
    /// The nine value fields of a sensor sample.
    Sample(Vec<&'a str>),
    /// Neither: the session cannot go on.
    Malformed,
}

/// Sorts a line from the sensor bridge: machine information first, then a
/// sample of exactly nine values.
pub fn classify_line<'a>(line: &'a str) -> (kind: SensorLine<'a>)
    ensures
        match kind {
            SensorLine::Info(info) => info_fields_spec(line@) == Some(
                (info.cpu@, info.gpu@, info.memory@),
            ),
            SensorLine::Sample(fields) => {
                &&& info_fields_spec(line@) is None
                &&& sample_fields_spec(line@).len() == SENSOR_COUNT
                &&& views(fields@) == sample_fields_spec(line@)
            },
            SensorLine::Malformed => {
                &&& info_fields_spec(line@) is None
                &&& sample_fields_spec(line@).len() != SENSOR_COUNT
            },
        },
{
    if let Some((cpu, gpu, memory)) = parse_info(line) {
        return SensorLine::Info(
            MachineInfo { cpu: cpu.to_owned(), gpu: gpu.to_owned(), memory: memory.to_owned() },
        );
    }
    match sample_fields(line) {
        Some(fields) => SensorLine::Sample(fields),
        None => SensorLine::Malformed,
    }
}

/// What the screen gets for one sensor sample.
pub enum Frame {
    /// Nothing: the page lacks values it shows; the status says which.
    Skip(Status),
    /// This report, and the status to show after it went out.
    Send { packet: [u8; 64], status: Status },
}

/// Whether the CPU page has what it shows with `detail`: temperature,
/// power and usage, and the fan speed or the clock.
pub open spec fn cpu_page_ready_spec(values: Seq<Option<Reading>>, detail: CpuDetail) -> bool {
    &&& values[CPU_TEMPERATURE as int] is Some
    &&& values[CPU_POWER as int] is Some
    &&& values[CPU_USAGE as int] is Some
    &&& detail == CpuDetail::Fan ==> values[CPU_FAN as int] is Some
    &&& detail == CpuDetail::Clock ==> values[CPU_CLOCK as int] is Some
}

/// The settings under which the rotation needs no interval: MIX divides by it.
pub open spec fn interval_usable(settings: Settings) -> bool {
    settings.mode == Mode::Mix ==> settings.interval > 0
}

/// The frame for a sensor sample, `elapsed` seconds after the settings
/// last changed.
pub open spec fn frame_ok_spec(
    frame: Frame,
    values: Seq<Option<Reading>>,
    settings: Settings,
    elapsed: nat,
) -> bool {
    let page = page_spec(settings.mode, elapsed, settings.interval as nat);
    let detail = detail_spec(settings.mode, settings.detail, elapsed, settings.interval as nat);
    if page == Mode::Gpu && !gpu_available_spec(values) {
        frame == Frame::Skip(Status::GpuSensorUnavailable)
    } else if page == Mode::Cpu && !cpu_page_ready_spec(values, detail) {
        frame == Frame::Skip(Status::CpuSensorUnavailable(detail))
    } else {
        &&& frame matches Frame::Send { packet, status }
        &&& packet@ == packet_spec(values, page, detail)
        &&& status == if settings.mode != Mode::Cpu && values[GPU_POWER as int] is None {
            Status::GpuPowerUnavailable { selected: settings.mode, page }
        } else {
            Status::Connected { selected: settings.mode, page }
        }
    }
}

fn cpu_page_ready(values: &Sensors, detail: CpuDetail) -> (ready: bool)
    ensures
        ready == cpu_page_ready_spec(values@, detail),
{
    values[CPU_TEMPERATURE].is_some() && values[CPU_POWER].is_some() && values[CPU_USAGE].is_some()
        && !(detail == CpuDetail::Fan && values[CPU_FAN].is_none()) && !(detail == CpuDetail::Clock
        && values[CPU_CLOCK].is_none())
}

/// Decides what the screen shows for one sensor sample, `elapsed_secs`
/// seconds after the settings last changed.
pub fn plan_frame(values: &Sensors, settings: Settings, elapsed_secs: u64) -> (frame: Frame)
    requires
        interval_usable(settings),
    ensures
        frame_ok_spec(frame, values@, settings, elapsed_secs as nat),
{
    let page = page_for(settings.mode, elapsed_secs, settings.interval);
    let cpu_detail = detail_for(settings.mode, settings.detail, elapsed_secs, settings.interval);
    if page == Mode::Gpu && !gpu_available(values) {
        return Frame::Skip(Status::GpuSensorUnavailable);
    }
    if page == Mode::Cpu && !cpu_page_ready(values, cpu_detail) {
        return Frame::Skip(Status::CpuSensorUnavailable(cpu_detail));
    }
    let packet = display_packet(values, page, cpu_detail);
    let status = if settings.mode != Mode::Cpu && values[GPU_POWER].is_none() {
        Status::GpuPowerUnavailable { selected: settings.mode, page }
    } else {
        Status::Connected { selected: settings.mode, page }
    };
    Frame::Send { packet, status }
}

/// Whatever a session sends to the screen is a report that it accepts.
pub proof fn lemma_sent_frames_well_formed(
    frame: Frame,
    values: Seq<Option<Reading>>,
    settings: Settings,
    elapsed: nat,
)
    requires
        frame_ok_spec(frame, values, settings, elapsed),
    ensures
        frame matches Frame::Send { packet, .. } ==> well_formed_packet(packet@),
{
    let page = page_spec(settings.mode, elapsed, settings.interval as nat);
    let detail = detail_spec(settings.mode, settings.detail, elapsed, settings.interval as nat);
    lemma_packets_well_formed(values, page, detail);
}

/// A report goes out only when the page it shows has every value it needs:
/// the GPU page its temperature, usage and clock, the CPU page its
/// temperature, power, usage and the chosen detail.
pub proof fn lemma_sent_frames_have_their_values(
    frame: Frame,
    values: Seq<Option<Reading>>,
    settings: Settings,
    elapsed: nat,
)
    requires
        frame_ok_spec(frame, values, settings, elapsed),
        frame is Send,
    ensures
        page_spec(settings.mode, elapsed, settings.interval as nat) == Mode::Gpu
            ==> gpu_available_spec(values),
        page_spec(settings.mode, elapsed, settings.interval as nat) == Mode::Cpu
            ==> cpu_page_ready_spec(
            values,
            detail_spec(settings.mode, settings.detail, elapsed, settings.interval as nat),
        ),
{
}

/// A sample is skipped only for a value that its page shows and lacks: the
/// GPU page for its temperature, usage or clock, the CPU page for its
/// temperature, power or usage, or for the fan speed when it shows the fan
/// and the clock when it shows the clock.
pub proof fn lemma_skips_name_a_missing_value(
    frame: Frame,
    values: Seq<Option<Reading>>,
    settings: Settings,
    elapsed: nat,
)
    requires
        frame_ok_spec(frame, values, settings, elapsed),
        values.len() == SENSOR_COUNT,
    ensures
        frame == Frame::Skip(Status::GpuSensorUnavailable) ==> {
            ||| values[GPU_TEMPERATURE as int] is None
            ||| values[GPU_USAGE as int] is None
            ||| values[GPU_CLOCK as int] is None
        },
        forall|detail: CpuDetail|
            frame == Frame::Skip(Status::CpuSensorUnavailable(detail)) ==> {
                ||| values[CPU_TEMPERATURE as int] is None
                ||| values[CPU_POWER as int] is None
                ||| values[CPU_USAGE as int] is None
                ||| detail == CpuDetail::Fan && values[CPU_FAN as int] is None
                ||| detail == CpuDetail::Clock && values[CPU_CLOCK as int] is None
            },
{
}

/// With the CPU page and a fixed detail chosen, a sample that holds the
/// CPU temperature, power and usage and the chosen detail's value is sent,
/// whatever else is missing.
pub proof fn lemma_complete_cpu_samples_are_sent(
    frame: Frame,
    values: Seq<Option<Reading>>,
    settings: Settings,
    elapsed: nat,
)
    requires
        frame_ok_spec(frame, values, settings, elapsed),
        values.len() == SENSOR_COUNT,
        settings.mode == Mode::Cpu,
        settings.detail != CpuDetail::Auto,
        values[CPU_TEMPERATURE as int] is Some,
        values[CPU_POWER as int] is Some,
        values[CPU_USAGE as int] is Some,
        settings.detail == CpuDetail::Fan ==> values[CPU_FAN as int] is Some,
        settings.detail == CpuDetail::Clock ==> values[CPU_CLOCK as int] is Some,
    ensures
        frame is Send,
{
}

/// With the GPU page chosen, a sample that holds the GPU temperature, usage
/// and clock is sent, whatever else is missing.
pub proof fn lemma_complete_gpu_samples_are_sent(
    frame: Frame,
    values: Seq<Option<Reading>>,
    settings: Settings,
    elapsed: nat,
)
    requires
        frame_ok_spec(frame, values, settings, elapsed),
        values.len() == SENSOR_COUNT,
        settings.mode == Mode::Gpu,
        values[GPU_TEMPERATURE as int] is Some,
        values[GPU_USAGE as int] is Some,
        values[GPU_CLOCK as int] is Some,
    ensures
        frame is Send,
{
}

/// The status lines after a report name the selected mode first and the
/// shown page second, by the modes' names "Cpu", "Gpu" and "Mix".
pub proof fn lemma_sent_status_text(selected: Mode, page: Mode)
    ensures
        (Status::Connected { selected, page }).message_spec() == "Connected \u{b7} "@
            + selected.name_spec() + " \u{b7} showing "@ + page.name_spec(),
        (Status::GpuPowerUnavailable { selected, page }).message_spec() == selected.name_spec()
            + " \u{b7} "@ + page.name_spec() + " page \u{b7} GPU power unavailable (0 W shown)"@,
        Mode::Cpu.name_spec() == "Cpu"@,
        Mode::Gpu.name_spec() == "Gpu"@,
        Mode::Mix.name_spec() == "Mix"@,
{
}

/// After a report goes out, the status names the selected mode and the
/// page shown, and reports the GPU power missing exactly when the mode is
/// not CPU and the power is absent.
pub proof fn lemma_sent_status(
    frame: Frame,
    values: Seq<Option<Reading>>,
    settings: Settings,
    elapsed: nat,
)
    requires
        frame_ok_spec(frame, values, settings, elapsed),
        values.len() == SENSOR_COUNT,
    ensures
        frame matches Frame::Send { status, .. } ==> {
            let page = page_spec(settings.mode, elapsed, settings.interval as nat);
            &&& page != Mode::Mix
            &&& settings.mode != Mode::Mix ==> page == settings.mode
            &&& (settings.mode != Mode::Cpu && values[GPU_POWER as int] is None) ==> status
                == Status::GpuPowerUnavailable { selected: settings.mode, page }
            &&& !(settings.mode != Mode::Cpu && values[GPU_POWER as int] is None) ==> status
                == Status::Connected { selected: settings.mode, page }
        },
{
}

/// Replaces the status line that the settings window shows.
pub fn set_status(current: &mut String, message: String)
    ensures
        *final(current) == message,
{
    *current = message;
}

/// How long, in seconds, the worker waits before it tries the screen again.
pub const RETRY_DELAY_SECS: u64 = 2;

/// What the worker does next.
pub enum WorkerAction {
    /// Show this status, wait, and look again.
    Wait(Status),
    /// Open the screen and the sensor bridge and run a display session.
    RunSession,
}

/// The worker's next step: while the vendor's display service holds the
/// screen it waits and says so; otherwise it runs a session.
pub fn worker_step(service_running: bool) -> (action: WorkerAction)
    ensures
        service_running ==> action == WorkerAction::Wait(Status::ServiceRunning),
        !service_running ==> action == WorkerAction::RunSession,
{
    if service_running {
        WorkerAction::Wait(Status::ServiceRunning)
    } else {
        WorkerAction::RunSession
    }
}

/// Whether a display session reads another sensor line: only while the
/// utility runs and the vendor's service stays off.
pub fn session_continues(running: bool, service_running: bool) -> (go_on: bool)
    ensures
        go_on == (running && !service_running),
{
    running && !service_running
}

} // verus!
