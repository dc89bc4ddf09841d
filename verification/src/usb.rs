//! Controller-level decisions of the DWC3 device driver: core identification,
//! event decoding, DMA address translation, power events, probe build
//! switches, and the host-visible readout codes.

use vstd::prelude::*;
use crate::bytes::{unsigned_digits, decimal_value, parse_u32_decimal, parse_u64_decimal, parses_decimal};
use crate::mmio::{
    DCTL_RUN_STOP, DEVICE_EVENT_KIND_MASK, DEVICE_EVENT_KIND_SHIFT, DSTS_DEVCTRLHLT,
    DSTS_SUPERSPEED, DWC31_IP, DWC32_IP, DWC3_IP, GSI_EVENT_ADDR_INDEX_SHIFT,
    GSI_TRB_ADDR_BIT_53, GSI_TRB_ADDR_BIT_55, PWR_EVENT_LPM_OUT_L1, PWR_EVENT_POWERDOWN_IN_P3,
    PWR_EVENT_POWERDOWN_OUT_P3,
};

verus! {

/// Whether GSNPSID carries a known Synopsys USB core prefix (DWC_usb3's
/// 0x5532/0x5533, DWC_usb31's 0x3331, DWC_usb32's 0x3332).
pub open spec fn spec_known_dwc_core_ip(snpsid: u32) -> bool {
    let ip = snpsid >> 16u32;
    ip == 0x5532 || ip == DWC3_IP || ip == DWC31_IP || ip == DWC32_IP
}

/// Whether a GSNPSID read names a known Synopsys USB core.
pub fn known_dwc_core_ip(snpsid: u32) -> (known: bool)
    ensures
        known == spec_known_dwc_core_ip(snpsid),
{
    let ip = snpsid >> 16;
    ip == 0x5532 || ip == DWC3_IP || ip == DWC31_IP || ip == DWC32_IP
}

/// GCTL.RAMCLKSEL (bits 7:6).
pub fn gctl_ramclksel(gctl: u32) -> (select: u32)
    ensures
        select == (gctl >> 6u32) & 3,
        select <= 3,
{
    let select = (gctl >> 6) & 3;
    assert(select <= 3) by (bit_vector)
        requires
            select == (gctl >> 6u32) & 3,
    ;
    select
}

/// The GCTL write that restores a captured RAMCLKSEL, or `None` when no
/// select was captured or GCTL already carries it.
pub fn reapplied_ramclksel(gctl: u32, captured: Option<u32>) -> (r: Option<u32>)
    requires
        captured matches Some(c) ==> c <= 3,
    ensures
        match captured {
            Some(c) => {
                let updated = (gctl & !0xc0u32) | (c << 6u32);
                r == if updated != gctl {
                    Some(updated)
                } else {
                    None::<u32>
                }
            },
            None => r is None,
        },
{
    match captured {
        None => None,
        Some(c) => {
            let updated = (gctl & !0xc0u32) | (c << 6);
            if updated != gctl {
                Some(updated)
            } else {
                None
            }
        },
    }
}

/// The EP0 TRB slot used for a control transfer on `endpoint`: slot 1 for
/// the IN direction only in the separate-direction-TRB build, slot 0 otherwise.
pub fn ep0_trb_index(endpoint: usize, direction_trbs: bool) -> (index: usize)
    ensures
        index == if direction_trbs && endpoint == 1 {
            1usize
        } else {
            0usize
        },
{
    if direction_trbs && endpoint == 1 {
        1
    } else {
        0
    }
}

/// The clock-stabilisation delay (microseconds) from its build setting: the
/// setting's decimal value, or 0 when absent or not a 32-bit number.
pub fn usb_clock_stable_delay_us(setting: Option<&[u8]>) -> (delay: u32)
    ensures
        delay == match setting {
            Some(s) => if parses_decimal(s@, u32::MAX as nat) {
                decimal_value(unsigned_digits(s@)) as u32
            } else {
                0u32
            },
            None => 0u32,
        },
{
    match setting {
        Some(s) => match parse_u32_decimal(s) {
            Some(v) => v,
            None => 0,
        },
        None => 0,
    }
}

/// The stop-after checkpoint of the bare pull-up probe, from its build
/// setting: its decimal value, or `None` when absent or not a 32-bit number.
pub fn bare_pullup_stop_after(setting: Option<&[u8]>) -> (stop: Option<u32>)
    ensures
        stop == match setting {
            Some(s) => if parses_decimal(s@, u32::MAX as nat) {
                Some(decimal_value(unsigned_digits(s@)) as u32)
            } else {
                None::<u32>
            },
            None => None::<u32>,
        },
{
    match setting {
        Some(s) => parse_u32_decimal(s),
        None => None,
    }
}

/// The counter value `secs` seconds after `counter`, saturating; with an
/// unknown (zero) counter frequency there is no deadline.
pub open spec fn spec_deadline(secs: u64, counter: u64, frequency: u64) -> u64 {
    if frequency == 0 {
        u64::MAX
    } else if counter + frequency * secs > u64::MAX {
        u64::MAX
    } else {
        (counter + frequency * secs) as u64
    }
}

/// Deadline in architectural-counter ticks for a readout window of `secs`
/// seconds starting at `counter`.
pub fn window_deadline_ticks(secs: u64, counter: u64, frequency: u64) -> (deadline: u64)
    ensures
        deadline == spec_deadline(secs, counter, frequency),
{
    if frequency == 0 {
        return u64::MAX;
    }
    match frequency.checked_mul(secs) {
        Some(span) => match counter.checked_add(span) {
            Some(d) => d,
            None => u64::MAX,
        },
        None => {
            assert(frequency * secs > u64::MAX);
            assert(counter + frequency * secs > u64::MAX);
            u64::MAX
        },
    }
}

/// Whether the quiet window has passed: a positive quiet time was configured,
/// Run/Stop has been recorded, the counter frequency is known, and at least
/// that many seconds of counter ticks have elapsed.
pub open spec fn spec_quiet_active(
    quiet_secs: Option<u64>,
    run_stop_tick: u64,
    counter: u64,
    frequency: u64,
) -> bool {
    match quiet_secs {
        Some(secs) => {
            let elapsed = if counter >= run_stop_tick {
                counter - run_stop_tick
            } else {
                0
            };
            let window = if frequency * secs > u64::MAX {
                u64::MAX as int
            } else {
                frequency * secs
            };
            secs > 0 && run_stop_tick != 0 && frequency != 0 && elapsed >= window
        },
        None => false,
    }
}

/// Whether all MMIO must stop for the diagnostic quiet window.
pub fn mmio_quiet_active(setting: Option<&[u8]>, run_stop_tick: u64, counter: u64, frequency: u64) -> (quiet:
    bool)
    ensures
        quiet == spec_quiet_active(
            match setting {
                Some(s) => if parses_decimal(s@, u64::MAX as nat) {
                    Some(decimal_value(unsigned_digits(s@)) as u64)
                } else {
                    None::<u64>
                },
                None => None::<u64>,
            },
            run_stop_tick,
            counter,
            frequency,
        ),
{
    let secs = match setting {
        Some(s) => match parse_u64_decimal(s) {
            Some(v) => v,
            None => return false,
        },
        None => return false,
    };
    if secs == 0 || run_stop_tick == 0 || frequency == 0 {
        return false;
    }
    let elapsed = if counter >= run_stop_tick {
        counter - run_stop_tick
    } else {
        0
    };
    let window = match frequency.checked_mul(secs) {
        Some(w) => w,
        None => u64::MAX,
    };
    elapsed >= window
}

/// Build switches that stop the gadget handoff probe after a numbered stage:
/// bit `n` set selects stage `n` (1..=29).
pub open spec fn stage_selected(stop_stages: u32, stage: u32) -> bool {
    1 <= stage <= 29 && (stop_stages >> stage) & 1 == 1
}

/// Whether the probe stops after `stage`.
pub fn gadget_handoff_stop_selected(stop_stages: u32, stage: u32) -> (selected: bool)
    ensures
        selected == stage_selected(stop_stages, stage),
{
    1 <= stage && stage <= 29 && (stop_stages >> stage) & 1 == 1
}

/// Whether any selected stage lies in `first..=29`.
fn any_stage_selected_from(stop_stages: u32, first: u32) -> (found: bool)
    requires
        1 <= first <= 29,
    ensures
        found == exists|stage: u32| first <= stage && #[trigger] stage_selected(stop_stages, stage),
{
    let mut stage: u32 = first;
    while stage <= 29
        invariant
            first <= stage <= 30,
            forall|s: u32| first <= s < stage ==> !#[trigger] stage_selected(stop_stages, s),
        decreases 30 - stage,
    {
        if gadget_handoff_stop_selected(stop_stages, stage) {
            return true;
        }
        stage += 1;
    }
    assert forall|s: u32| first <= s implies !#[trigger] stage_selected(stop_stages, s) by {
        if s < stage {
        }
    }
    false
}

/// Whether any stage probe was selected.
pub fn gadget_handoff_stage_probe_enabled(stop_stages: u32) -> (enabled: bool)
    ensures
        enabled == exists|stage: u32| #[trigger] stage_selected(stop_stages, stage),
{
    let enabled = any_stage_selected_from(stop_stages, 1);
    assert(forall|stage: u32| #[trigger] stage_selected(stop_stages, stage) ==> 1 <= stage);
    enabled
}

/// Whether a stage probe after endpoint initialisation (stages 25..=29) was
/// selected.
pub fn gadget_handoff_post_init_stage_probe_enabled(stop_stages: u32) -> (enabled: bool)
    ensures
        enabled == exists|stage: u32| 25 <= stage && #[trigger] stage_selected(stop_stages, stage),
{
    any_stage_selected_from(stop_stages, 25)
}

/// The Qualcomm GSI wrapper's doorbell words for a TRB: the event-buffer
/// index with both address marker bits, and the TRB address. Only event
/// buffers 1..=count exist, and the TRB must be 64-byte aligned.
pub fn gsi_transfer_params(event_buffer: u32, trb: usize, event_buffer_count: u32) -> (r: Option<
    (u32, u32),
>)
    ensures
        match r {
            Some((high, low)) => {
                &&& 1 <= event_buffer <= event_buffer_count
                &&& trb % 64 == 0
                &&& high == GSI_TRB_ADDR_BIT_53 | GSI_TRB_ADDR_BIT_55 | (event_buffer
                    << GSI_EVENT_ADDR_INDEX_SHIFT)
                &&& low == trb as u32
            },
            None => event_buffer == 0 || event_buffer > event_buffer_count || trb % 64 != 0,
        },
{
    let misaligned = trb & 0x3f != 0;
    assert(misaligned == (trb % 64 != 0)) by (bit_vector)
        requires
            misaligned == (trb & 0x3f != 0),
    ;
    if event_buffer == 0 || event_buffer > event_buffer_count || misaligned {
        return None;
    }
    Some(
        (
            GSI_TRB_ADDR_BIT_53 | GSI_TRB_ADDR_BIT_55 | (event_buffer << GSI_EVENT_ADDR_INDEX_SHIFT),
            trb as u32,
        ),
    )
}

/// The 2 MiB-aligned window that covers the valid linker sections (the DMA
/// and the trace sections), if either is valid.
pub open spec fn uncached_window(
    dma_start: usize,
    dma_end: usize,
    trace_start: usize,
    trace_end: usize,
) -> Option<(int, int)> {
    let dma_valid = dma_start != 0 && dma_end > dma_start;
    let trace_valid = trace_start != 0 && trace_end > trace_start;
    let section = if dma_valid && trace_valid {
        Some(
            (
                if dma_start < trace_start {
                    dma_start
                } else {
                    trace_start
                },
                if dma_end > trace_end {
                    dma_end
                } else {
                    trace_end
                },
            ),
        )
    } else if dma_valid {
        Some((dma_start, dma_end))
    } else if trace_valid {
        Some((trace_start, trace_end))
    } else {
        None
    };
    match section {
        Some((start, end)) => Some(
            (
                (start - start % 0x20_0000) as int,
                ((end - 1) - (end - 1) % 0x20_0000 + 0x20_0000) as int,
            ),
        ),
        None => None,
    }
}

/// Whether an address lies in the uncached block that holds the DMA and
/// trace sections (cache maintenance is skipped there). A section counts
/// when it starts above zero and is not empty; a counted section must end
/// below the last 2 MiB block, whose top the address space cannot hold.
pub fn in_uncached_dma_window(
    address: usize,
    dma_start: usize,
    dma_end: usize,
    trace_start: usize,
    trace_end: usize,
) -> (inside: bool)
    requires
        dma_start != 0 && dma_end > dma_start ==> dma_end <= usize::MAX - 0x1f_ffff,
        trace_start != 0 && trace_end > trace_start ==> trace_end <= usize::MAX - 0x1f_ffff,
    ensures
        inside == match uncached_window(dma_start, dma_end, trace_start, trace_end) {
            Some((base, top)) => base <= address < top,
            None => false,
        },
{
    let dma_valid = dma_start != 0 && dma_end > dma_start;
    let trace_valid = trace_start != 0 && trace_end > trace_start;
    let (section_start, section_end) = if dma_valid && trace_valid {
        (
            if dma_start < trace_start {
                dma_start
            } else {
                trace_start
            },
            if dma_end > trace_end {
                dma_end
            } else {
                trace_end
            },
        )
    } else if dma_valid {
        (dma_start, dma_end)
    } else if trace_valid {
        (trace_start, trace_end)
    } else {
        return false;
    };
    let block_base = section_start & !0x1f_ffffusize;
    let last = section_end - 1;
    let block_last = last & !0x1f_ffffusize;
    assert(block_base == section_start - section_start % 0x20_0000 && block_last == last - last
        % 0x20_0000) by (bit_vector)
        requires
            block_base == section_start & !0x1f_ffffusize,
            block_last == last & !0x1f_ffffusize,
    ;
    let block_top = block_last + 0x20_0000;
    address >= block_base && address < block_top
}

/// The glue power-event bits written back to clear them: P3 entry/exit and
/// L1 exit (L2 exit stays set as an indication).
pub fn power_event_clear_mask(status: u32) -> (mask: u32)
    ensures
        mask == status & (PWR_EVENT_POWERDOWN_IN_P3 | PWR_EVENT_POWERDOWN_OUT_P3
            | PWR_EVENT_LPM_OUT_L1),
{
    status & (PWR_EVENT_POWERDOWN_IN_P3 | PWR_EVENT_POWERDOWN_OUT_P3 | PWR_EVENT_LPM_OUT_L1)
}

/// Whether a power event asks for a controller resume (L1 exit).
pub fn power_event_requests_resume(status: u32) -> (resume: bool)
    ensures
        resume == (status & PWR_EVENT_LPM_OUT_L1 != 0),
{
    status & PWR_EVENT_LPM_OUT_L1 != 0
}

/// The P3 state after a power event: entered or left when exactly one of
/// the two bits is reported, unchanged when both or neither are.
pub fn p3_state_after(in_p3: bool, status: u32) -> (next: bool)
    ensures
        next == {
            let p3_in = status & PWR_EVENT_POWERDOWN_IN_P3 != 0;
            let p3_out = status & PWR_EVENT_POWERDOWN_OUT_P3 != 0;
            if p3_in && !p3_out {
                true
            } else if p3_out && !p3_in {
                false
            } else {
                in_p3
            }
        },
{
    let p3_in = status & PWR_EVENT_POWERDOWN_IN_P3 != 0;
    let p3_out = status & PWR_EVENT_POWERDOWN_OUT_P3 != 0;
    if p3_in && !p3_out {
        true
    } else if p3_out && !p3_in {
        false
    } else {
        in_p3
    }
}

/// A page the Apps-SMMU context already maps, adopted for EP0 DMA: the CPU
/// addresses it at `cpu`, the controller at `iova`.
#[derive(Clone, Copy)]
pub struct AdoptedMapping {
    pub cpu: usize,
    pub iova: u64,
}

/// The address the controller must be given for a CPU address: translated
/// into the adopted page's IOVA, or the CPU address itself.
pub fn dma_iova_for(cpu: usize, adopted: Option<AdoptedMapping>) -> (iova: u64)
    requires
        adopted matches Some(m) ==> m.cpu <= cpu && m.iova + (cpu - m.cpu) <= u64::MAX,
    ensures
        iova == match adopted {
            Some(m) => (m.iova + (cpu - m.cpu)) as u64,
            None => cpu as u64,
        },
{
    match adopted {
        Some(m) => m.iova + (cpu - m.cpu) as u64,
        None => cpu as u64,
    }
}

/// A word from the DWC3 event ring.
pub enum Dwc3Event {
    /// A device event of the given type (disconnect, reset, connect done, ...).
    Device { kind: u32 },
    /// An endpoint event: physical endpoint, event type and status.
    Endpoint { endpoint: u32, event: u32, status: u32 },
}

/// Decode an event word: bit 0 clear is an endpoint event (endpoint in bits
/// 5:1, type in 9:6, status in 15:12); set is a device event (type in 11:8).
pub fn decode_event(raw: u32) -> (e: Dwc3Event)
    ensures
        e == if raw & 1 == 0 {
            Dwc3Event::Endpoint {
                endpoint: (raw >> 1u32) & 0x1f,
                event: (raw >> 6u32) & 0xf,
                status: (raw >> 12u32) & 0xf,
            }
        } else {
            Dwc3Event::Device { kind: (raw >> DEVICE_EVENT_KIND_SHIFT) & DEVICE_EVENT_KIND_MASK }
        },
{
    if raw & 1 == 0 {
        Dwc3Event::Endpoint {
            endpoint: (raw >> 1) & 0x1f,
            event: (raw >> 6) & 0xf,
            status: (raw >> 12) & 0xf,
        }
    } else {
        Dwc3Event::Device { kind: (raw >> DEVICE_EVENT_KIND_SHIFT) & DEVICE_EVENT_KIND_MASK }
    }
}

/// EP0's maximum packet after Connect Done: 512 bytes at SuperSpeed, 64 otherwise.
pub fn connect_done_max_packet(speed: u32) -> (max_packet: u32)
    ensures
        max_packet == if speed == DSTS_SUPERSPEED {
            512u32
        } else {
            64u32
        },
{
    if speed == DSTS_SUPERSPEED {
        512
    } else {
        64
    }
}

/// The event-ring read offset after acknowledging `count` bytes.
pub fn event_offset_after_ack(offset: usize, count: u32, size: usize) -> (next: usize)
    requires
        size > 0,
        offset + count <= usize::MAX,
    ensures
        next == (offset + count) % (size as int),
        next < size,
{
    (offset + count as usize) % size
}

} // verus!
