use vstd::prelude::*;

use crate::text::{
    decimal_spec, digit_spec, is_whitespace_spec, str_eq, trim, trim_spec, trim_start_spec,
};

verus! {

broadcast use vstd::string::group_string_axioms;

/// Which page the case screen shows: the CPU page, the GPU page, or both in turn.
#[derive(Clone, Copy, Debug, PartialEq, Eq, Structural)]
pub enum Mode {
    Cpu,
    Gpu,
    Mix,
}

/// The secondary CPU metric: fan speed, clock, or both in turn.
#[derive(Clone, Copy, Debug, PartialEq, Eq, Structural)]
pub enum CpuDetail {
    Fan,
    Clock,
    Auto,
}

/// The refresh interval that a settings file without a valid entry gives.
pub const DEFAULT_INTERVAL: u8 = 5;

/// The other refresh interval that the settings file can hold.
pub const LONG_INTERVAL: u8 = 7;

impl Mode {
    /// The mode that a selector position stands for; unknown positions mean CPU.
    pub open spec fn from_index_spec(index: int) -> Mode {
        if index == 1 {
            Mode::Gpu
        } else if index == 2 {
            Mode::Mix
        } else {
            Mode::Cpu
        }
    }

    /// The selector position of a mode.
    pub open spec fn index_spec(self) -> u8 {
        match self {
            Mode::Cpu => 0,
            Mode::Gpu => 1,
            Mode::Mix => 2,
        }
    }

    /// The text that the settings file holds for a mode.
    pub open spec fn label_spec(self) -> Seq<char> {
        match self {
            Mode::Cpu => "CPU"@,
            Mode::Gpu => "GPU"@,
            Mode::Mix => "MIX"@,
        }
    }

    /// The name of a mode in status messages.
    pub open spec fn name_spec(self) -> Seq<char> {
        match self {
            Mode::Cpu => "Cpu"@,
            Mode::Gpu => "Gpu"@,
            Mode::Mix => "Mix"@,
        }
    }

    /// The mode that the settings file's text stands for; anything else means CPU.
    pub open spec fn from_setting_spec(text: Seq<char>) -> Mode {
        if text == "GPU"@ {
            Mode::Gpu
        } else if text == "MIX"@ {
            Mode::Mix
        } else {
            Mode::Cpu
        }
    }

    pub fn from_index(index: usize) -> (mode: Mode)
        ensures
            mode == Mode::from_index_spec(index as int),
    {
        match index {
            1 => Mode::Gpu,
            2 => Mode::Mix,
            _ => Mode::Cpu,
        }
    }

    pub fn index(self) -> (index: u8)
        ensures
            index == self.index_spec(),
    {
        match self {
            Mode::Cpu => 0,
            Mode::Gpu => 1,
            Mode::Mix => 2,
        }
    }

    pub fn label(self) -> (label: &'static str)
        ensures
            label@ == self.label_spec(),
    {
        match self {
            Mode::Cpu => "CPU",
            Mode::Gpu => "GPU",
            Mode::Mix => "MIX",
        }
    }

    pub fn name(self) -> (name: &'static str)
        ensures
            name@ == self.name_spec(),
    {
        match self {
            Mode::Cpu => "Cpu",
            Mode::Gpu => "Gpu",
            Mode::Mix => "Mix",
        }
    }

    /// The mode that the settings file's contents select.
    pub fn from_setting(text: &str) -> (mode: Mode)
        ensures
            mode == Mode::from_setting_spec(text@),
    {
        if str_eq(text, "GPU") {
            Mode::Gpu
        } else if str_eq(text, "MIX") {
            Mode::Mix
        } else {
            Mode::Cpu
        }
    }
}

impl CpuDetail {
    /// The detail that a selector position stands for; unknown positions mean the fan.
    pub open spec fn from_index_spec(index: int) -> CpuDetail {
        if index == 1 {
            CpuDetail::Clock
        } else if index == 2 {
            CpuDetail::Auto
        } else {
            CpuDetail::Fan
        }
    }

    /// The selector position of a detail.
    pub open spec fn index_spec(self) -> u8 {
        match self {
            CpuDetail::Fan => 0,
            CpuDetail::Clock => 1,
            CpuDetail::Auto => 2,
        }
    }

    /// The text that the settings file holds for a detail.
    pub open spec fn label_spec(self) -> Seq<char> {
        match self {
            CpuDetail::Fan => "FAN"@,
            CpuDetail::Clock => "CLOCK"@,
            CpuDetail::Auto => "AUTO"@,
        }
    }

    /// The name of a detail in status messages.
    pub open spec fn name_spec(self) -> Seq<char> {
        match self {
            CpuDetail::Fan => "Fan"@,
            CpuDetail::Clock => "Clock"@,
            CpuDetail::Auto => "Auto"@,
        }
    }

    /// The detail that the settings file's text stands for; anything else means the fan.
    pub open spec fn from_setting_spec(text: Seq<char>) -> CpuDetail {
        if text == "CLOCK"@ {
            CpuDetail::Clock
        } else if text == "AUTO"@ {
            CpuDetail::Auto
        } else {
            CpuDetail::Fan
        }
    }

    pub fn from_index(index: usize) -> (detail: CpuDetail)
        ensures
            detail == CpuDetail::from_index_spec(index as int),
    {
        match index {
            1 => CpuDetail::Clock,
            2 => CpuDetail::Auto,
            _ => CpuDetail::Fan,
        }
    }

    pub fn index(self) -> (index: u8)
        ensures
            index == self.index_spec(),
    {
        match self {
            CpuDetail::Fan => 0,
            CpuDetail::Clock => 1,
            CpuDetail::Auto => 2,
        }
    }

    pub fn label(self) -> (label: &'static str)
        ensures
            label@ == self.label_spec(),
    {
        match self {
            CpuDetail::Fan => "FAN",
            CpuDetail::Clock => "CLOCK",
            CpuDetail::Auto => "AUTO",
        }
    }

    pub fn name(self) -> (name: &'static str)
        ensures
            name@ == self.name_spec(),
    {
        match self {
            CpuDetail::Fan => "Fan",
            CpuDetail::Clock => "Clock",
            CpuDetail::Auto => "Auto",
        }
    }

    /// The detail that the settings file's contents select.
    pub fn from_setting(text: &str) -> (detail: CpuDetail)
        ensures
            detail == CpuDetail::from_setting_spec(text@),
    {
        if str_eq(text, "CLOCK") {
            CpuDetail::Clock
        } else if str_eq(text, "AUTO") {
            CpuDetail::Auto
        } else {
            CpuDetail::Fan
        }
    }
}

/// The interval that the settings file's text selects: the long interval
/// when the text is its number, surrounded by whitespace or not, and the
/// default one otherwise.
pub open spec fn interval_from_setting_spec(text: Seq<char>) -> u8 {
    if trim_spec(text) == "7"@ {
        LONG_INTERVAL
    } else {
        DEFAULT_INTERVAL
    }
}

/// The refresh interval, in seconds, that the settings file's contents select.
pub fn interval_from_setting(text: &str) -> (seconds: u8)
    ensures
        seconds == interval_from_setting_spec(text@),
{
    if str_eq(trim(text), "7") {
        LONG_INTERVAL
    } else {
        DEFAULT_INTERVAL
    }
}

fn digit_text(d: u8) -> (text: &'static str)
    requires
        d < 10,
    ensures
        text@ == seq![digit_spec(d as nat)],
{
    proof {
        reveal_strlit("0");
        reveal_strlit("1");
        reveal_strlit("2");
        reveal_strlit("3");
        reveal_strlit("4");
        reveal_strlit("5");
        reveal_strlit("6");
        reveal_strlit("7");
        reveal_strlit("8");
        reveal_strlit("9");
    }
    let text = match d {
        0 => "0",
        1 => "1",
        2 => "2",
        3 => "3",
        4 => "4",
        5 => "5",
        6 => "6",
        7 => "7",
        8 => "8",
        _ => "9",
    };
    assert(text@ =~= seq![digit_spec(d as nat)]);
    text
}

/// The text that the settings file holds for an interval: its decimal number.
pub fn interval_setting(seconds: u8) -> (text: String)
    ensures
        text@ == decimal_spec(seconds as nat),
{
    let mut text = String::new();
    if seconds >= 100 {
        text.append(digit_text(seconds / 100));
    }
    if seconds >= 10 {
        text.append(digit_text(seconds / 10 % 10));
    }
    text.append(digit_text(seconds % 10));
    proof {
        let n: nat = seconds as nat;
        if n >= 100 {
            assert(decimal_spec(n / 10 / 10) == seq![digit_spec(n / 100)]);
        }
        if n >= 10 {
            assert(decimal_spec(n) == decimal_spec(n / 10).push(digit_spec(n % 10)));
        }
    }
    assert(text@ =~= decimal_spec(seconds as nat));
    text
}

proof fn lemma_decimal_digits(n: nat)
    ensures
        decimal_spec(n).len() >= 1,
        n >= 10 ==> decimal_spec(n).len() >= 2,
        forall|i: int|
            0 <= i < decimal_spec(n).len() ==> '0' <= #[trigger] decimal_spec(n)[i] <= '9',
    decreases n,
{
    if n >= 10 {
        lemma_decimal_digits(n / 10);
    }
}

/// A mode survives the trip through a selector position: the worker reads
/// back the very mode that the settings window stored.
pub proof fn lemma_mode_index_round_trip(mode: Mode)
    ensures
        Mode::from_index_spec(mode.index_spec() as int) == mode,
{
}

/// A CPU detail survives the trip through a selector position.
pub proof fn lemma_detail_index_round_trip(detail: CpuDetail)
    ensures
        CpuDetail::from_index_spec(detail.index_spec() as int) == detail,
{
}

/// Loading the mode setting gives back the mode that was saved.
pub proof fn lemma_mode_setting_round_trip(mode: Mode)
    ensures
        Mode::from_setting_spec(mode.label_spec()) == mode,
{
    reveal_strlit("CPU");
    reveal_strlit("GPU");
    reveal_strlit("MIX");
    assert("CPU"@[0] != "GPU"@[0]);
    assert("CPU"@[0] != "MIX"@[0]);
    assert("GPU"@[0] != "MIX"@[0]);
}

/// Loading the CPU detail setting gives back the detail that was saved.
pub proof fn lemma_detail_setting_round_trip(detail: CpuDetail)
    ensures
        CpuDetail::from_setting_spec(detail.label_spec()) == detail,
{
    reveal_strlit("FAN");
    reveal_strlit("CLOCK");
    reveal_strlit("AUTO");
    assert("FAN"@.len() != "CLOCK"@.len());
    assert("FAN"@.len() != "AUTO"@.len());
    assert("CLOCK"@.len() != "AUTO"@.len());
}

/// Loading the interval setting gives back the interval that was saved
/// when it is one of the two intervals the screen offers; any other saved
/// interval loads as the default one.
pub proof fn lemma_interval_setting_round_trip(seconds: u8)
    ensures
        interval_from_setting_spec(decimal_spec(seconds as nat)) == (if seconds == LONG_INTERVAL {
            LONG_INTERVAL
        } else {
            DEFAULT_INTERVAL
        }),
        seconds == DEFAULT_INTERVAL || seconds == LONG_INTERVAL ==> interval_from_setting_spec(
            decimal_spec(seconds as nat),
        ) == seconds,
{
    let text = decimal_spec(seconds as nat);
    lemma_decimal_digits(seconds as nat);
    assert(!is_whitespace_spec(text[0]));
    assert(!is_whitespace_spec(text.last()));
    assert(trim_start_spec(text) == text);
    assert(trim_spec(text) == text);
    reveal_strlit("7");
    if seconds < 10 {
        assert(text =~= seq![digit_spec(seconds as nat)]);
        if seconds != 7 {
            assert(text[0] != "7"@[0]);
        } else {
            assert(text =~= "7"@);
        }
    } else {
        assert(text.len() != "7"@.len());
    }
}

/// The selector lists the modes in the order CPU, GPU, MIX: position `i`
/// stands for the `i`-th of them, any other position for CPU, and each
/// mode's position is where it stands in that list.
pub proof fn lemma_mode_selector_positions(index: int, mode: Mode)
    ensures
        0 <= index < 3 ==> Mode::from_index_spec(index) == seq![Mode::Cpu, Mode::Gpu, Mode::Mix][index],
        !(0 <= index < 3) ==> Mode::from_index_spec(index) == Mode::Cpu,
        mode.index_spec() < 3,
        seq![Mode::Cpu, Mode::Gpu, Mode::Mix][mode.index_spec() as int] == mode,
{
}

/// The selector lists the CPU details in the order FAN, CLOCK, AUTO:
/// position `i` stands for the `i`-th of them, any other position for the
/// fan, and each detail's position is where it stands in that list.
pub proof fn lemma_detail_selector_positions(index: int, detail: CpuDetail)
    ensures
        0 <= index < 3 ==> CpuDetail::from_index_spec(index) == seq![
            CpuDetail::Fan,
            CpuDetail::Clock,
            CpuDetail::Auto,
        ][index],
        !(0 <= index < 3) ==> CpuDetail::from_index_spec(index) == CpuDetail::Fan,
        detail.index_spec() < 3,
        seq![CpuDetail::Fan, CpuDetail::Clock, CpuDetail::Auto][detail.index_spec() as int] == detail,
{
}

/// The settings files spell the modes "CPU", "GPU" and "MIX" and the
/// details "FAN", "CLOCK" and "AUTO", exactly; a mode file holding any other
/// text selects CPU and a detail file holding any other text the fan.
pub proof fn lemma_setting_texts(text: Seq<char>)
    ensures
        Mode::Cpu.label_spec() == "CPU"@,
        Mode::Gpu.label_spec() == "GPU"@,
        Mode::Mix.label_spec() == "MIX"@,
        CpuDetail::Fan.label_spec() == "FAN"@,
        CpuDetail::Clock.label_spec() == "CLOCK"@,
        CpuDetail::Auto.label_spec() == "AUTO"@,
        text == "GPU"@ ==> Mode::from_setting_spec(text) == Mode::Gpu,
        text == "MIX"@ ==> Mode::from_setting_spec(text) == Mode::Mix,
        text != "GPU"@ && text != "MIX"@ ==> Mode::from_setting_spec(text) == Mode::Cpu,
        text == "CLOCK"@ ==> CpuDetail::from_setting_spec(text) == CpuDetail::Clock,
        text == "AUTO"@ ==> CpuDetail::from_setting_spec(text) == CpuDetail::Auto,
        text != "CLOCK"@ && text != "AUTO"@ ==> CpuDetail::from_setting_spec(text)
            == CpuDetail::Fan,
{
    reveal_strlit("GPU");
    reveal_strlit("MIX");
    reveal_strlit("CLOCK");
    reveal_strlit("AUTO");
    assert("GPU"@[0] != "MIX"@[0]);
    assert("CLOCK"@.len() != "AUTO"@.len());
}

} // verus!
