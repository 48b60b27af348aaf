use vstd::prelude::*;

use crate::settings::{CpuDetail, Mode};

verus! {

/// How long, in seconds, each CPU detail stays on screen when the detail
/// rotates outside the MIX mode.
pub const DETAIL_PERIOD: u64 = 5;

/// The page shown `elapsed` seconds after the settings last changed: MIX
/// starts on the CPU page and switches page every `interval` seconds; the
/// other modes show their own page.
pub open spec fn page_spec(selected: Mode, elapsed: nat, interval: nat) -> Mode {
    match selected {
        Mode::Mix => if (elapsed / interval) % 2 == 1 {
            Mode::Gpu
        } else {
            Mode::Cpu
        },
        other => other,
    }
}

/// The CPU detail shown `elapsed` seconds after the settings last changed.
/// A fixed detail is shown as chosen. AUTO starts with the fan and switches
/// at each CPU page in MIX, and every few seconds otherwise.
pub open spec fn detail_spec(mode: Mode, selected: CpuDetail, elapsed: nat, interval: nat) -> CpuDetail {
    if selected != CpuDetail::Auto {
        selected
    } else {
        let slot: nat = elapsed / (if mode == Mode::Mix {
            interval
        } else {
            DETAIL_PERIOD as nat
        });
        let cpu_turn: nat = if mode == Mode::Mix {
            slot / 2
        } else {
            slot
        };
        if cpu_turn % 2 == 0 {
            CpuDetail::Fan
        } else {
            CpuDetail::Clock
        }
    }
}

/// The page to show `elapsed_secs` seconds after the settings last changed.
pub fn page_for(selected: Mode, elapsed_secs: u64, interval: u8) -> (page: Mode)
    requires
        selected == Mode::Mix ==> interval > 0,
    ensures
        page == page_spec(selected, elapsed_secs as nat, interval as nat),
{
    match selected {
        Mode::Mix => {
            if (elapsed_secs / interval as u64) % 2 == 1 {
                Mode::Gpu
            } else {
                Mode::Cpu
            }
        },
        other => other,
    }
}

/// The CPU detail to show `elapsed_secs` seconds after the settings last changed.
pub fn detail_for(mode: Mode, selected: CpuDetail, elapsed_secs: u64, interval: u8) -> (detail:
    CpuDetail)
    requires
        selected == CpuDetail::Auto && mode == Mode::Mix ==> interval > 0,
    ensures
        detail == detail_spec(mode, selected, elapsed_secs as nat, interval as nat),
{
    if selected != CpuDetail::Auto {
        return selected;
    }
    let slot: u64 = elapsed_secs / if mode == Mode::Mix {
        interval as u64
    } else {
        DETAIL_PERIOD
    };
    let cpu_turn: u64 = if mode == Mode::Mix {
        slot / 2
    } else {
        slot
    };
    if cpu_turn % 2 == 0 {
        CpuDetail::Fan
    } else {
        CpuDetail::Clock
    }
}

/// The screen never shows a MIX page: MIX only chooses between the CPU and
/// GPU pages, and the other modes keep their own page.
pub proof fn lemma_page_is_cpu_or_gpu(selected: Mode, elapsed: nat, interval: nat)
    ensures
        page_spec(selected, elapsed, interval) != Mode::Mix,
        selected != Mode::Mix ==> page_spec(selected, elapsed, interval) == selected,
{
}

/// In MIX the page changes every `interval` seconds: each page is followed
/// by the other one, and the rotation repeats every two intervals.
pub proof fn lemma_mix_pages_alternate(elapsed: nat, interval: nat)
    requires
        interval > 0,
    ensures
        page_spec(Mode::Mix, elapsed + interval, interval) != page_spec(
            Mode::Mix,
            elapsed,
            interval,
        ),
        page_spec(Mode::Mix, elapsed + 2 * interval, interval) == page_spec(
            Mode::Mix,
            elapsed,
            interval,
        ),
{
    vstd::arithmetic::div_mod::lemma_div_plus_one(elapsed as int, interval as int);
    vstd::arithmetic::div_mod::lemma_div_plus_one((elapsed + interval) as int, interval as int);
    assert(elapsed + 2 * interval == interval + (elapsed + interval));
}

/// AUTO never shows as such: it always resolves to the fan or the clock.
pub proof fn lemma_auto_resolves(mode: Mode, elapsed: nat, interval: nat)
    ensures
        detail_spec(mode, CpuDetail::Auto, elapsed, interval) != CpuDetail::Auto,
{
}

/// In MIX with AUTO, consecutive CPU pages show different details: the
/// detail stays put while the GPU page is up and switches at the next CPU page.
pub proof fn lemma_mix_auto_alternates_per_cpu_page(elapsed: nat, interval: nat)
    requires
        interval > 0,
        page_spec(Mode::Mix, elapsed, interval) == Mode::Cpu,
    ensures
        page_spec(Mode::Mix, elapsed + 2 * interval, interval) == Mode::Cpu,
        detail_spec(Mode::Mix, CpuDetail::Auto, elapsed + 2 * interval, interval) != detail_spec(
            Mode::Mix,
            CpuDetail::Auto,
            elapsed,
            interval,
        ),
        detail_spec(Mode::Mix, CpuDetail::Auto, elapsed + interval, interval) == detail_spec(
            Mode::Mix,
            CpuDetail::Auto,
            elapsed,
            interval,
        ),
{
    let slot: nat = elapsed / interval;
    vstd::arithmetic::div_mod::lemma_div_plus_one(elapsed as int, interval as int);
    vstd::arithmetic::div_mod::lemma_div_plus_one((elapsed + interval) as int, interval as int);
    assert(elapsed + 2 * interval == interval + (elapsed + interval));
    assert(slot % 2 == 0);
    assert((slot + 1) / 2 == slot / 2);
    assert((slot + 2) / 2 == slot / 2 + 1);
}

/// Outside MIX, AUTO switches between the fan and the clock every few seconds.
pub proof fn lemma_auto_alternates_outside_mix(mode: Mode, elapsed: nat, interval: nat)
    requires
        mode != Mode::Mix,
    ensures
        detail_spec(mode, CpuDetail::Auto, elapsed + DETAIL_PERIOD as nat, interval) != detail_spec(
            mode,
            CpuDetail::Auto,
            elapsed,
            interval,
        ),
{
    vstd::arithmetic::div_mod::lemma_div_plus_one(elapsed as int, DETAIL_PERIOD as int);
}

/// A detail chosen as the fan or the clock is shown as chosen, in every
/// mode and at every moment; only AUTO rotates.
pub proof fn lemma_fixed_detail_is_kept(
    mode: Mode,
    selected: CpuDetail,
    elapsed: nat,
    interval: nat,
)
    requires
        selected != CpuDetail::Auto,
    ensures
        detail_spec(mode, selected, elapsed, interval) == selected,
{
}

/// MIX opens on the CPU page: for the first interval after the settings
/// change the CPU page is up, and the GPU page for the second.
pub proof fn lemma_mix_opens_on_cpu(elapsed: nat, interval: nat)
    requires
        interval > 0,
    ensures
        elapsed < interval ==> page_spec(Mode::Mix, elapsed, interval) == Mode::Cpu,
        interval <= elapsed < 2 * interval ==> page_spec(Mode::Mix, elapsed, interval) == Mode::Gpu,
{
    if elapsed < interval {
        assert(elapsed / interval == 0) by (nonlinear_arith)
            requires
                elapsed < interval,
        ;
    }
    if interval <= elapsed < 2 * interval {
        assert(elapsed / interval == 1) by (nonlinear_arith)
            requires
                interval <= elapsed < 2 * interval,
        ;
    }
}

/// AUTO opens with the fan: on the first CPU page of MIX, and for the
/// first few seconds in the other modes.
pub proof fn lemma_auto_opens_with_fan(mode: Mode, elapsed: nat, interval: nat)
    ensures
        mode == Mode::Mix && elapsed < interval ==> detail_spec(
            mode,
            CpuDetail::Auto,
            elapsed,
            interval,
        ) == CpuDetail::Fan,
        mode != Mode::Mix && elapsed < DETAIL_PERIOD ==> detail_spec(
            mode,
            CpuDetail::Auto,
            elapsed,
            interval,
        ) == CpuDetail::Fan,
        mode != Mode::Mix && DETAIL_PERIOD <= elapsed < 2 * DETAIL_PERIOD ==> detail_spec(
            mode,
            CpuDetail::Auto,
            elapsed,
            interval,
        ) == CpuDetail::Clock,
{
    if elapsed < interval {
        assert(elapsed / interval == 0) by (nonlinear_arith)
            requires
                elapsed < interval,
        ;
    }
}

} // verus!
