//! Decisions of the controller start sequence: which reset the core gets,
//! the post-reset global, speed and PIPE values, the event-ring address
//! words, the device event enables, the EP0 packet size, the Fastboot event-ring reuse check, the
//! failure marker and retry of a stage probe, and the one-bit gates that
//! suppress the pull-up.

use vstd::prelude::*;
use vstd::string::StringSliceAdditionalSpecFns;
use crate::bytes::{ascii, bytes_equal, decimal_value, literal, parse_u32_decimal, parses_decimal, unsigned_digits};
use crate::mmio::{
    DCFG_DEVADDR_MASK, DCFG_HIGHSPEED, DCFG_SPEED_MASK, DCFG_SUPERSPEED, DEVTEN_CMD_COMPLETE,
    DEVTEN_CONNECT_DONE, DEVTEN_DISCONNECT, DEVTEN_ERRATIC_ERROR, DEVTEN_HIBERNATION_REQUEST,
    DEVTEN_LINK_STATUS_CHANGE, DEVTEN_OVERFLOW, DEVTEN_SUSPEND, DEVTEN_USB_RESET, DEVTEN_WAKEUP,
    GCTL_DISSCRAMBLE, GCTL_DSBLCLKGTNG, GCTL_PRTCAPDIR_MASK, GCTL_PRTCAP_DEVICE,
    GCTL_SCALEDOWN_MASK, GUCTL1_L1_SUSP_THRLD_EN_FOR_HOST, GUSB3PIPECTL_SUSPHY,
    INITIAL_EP0_MAX_PACKET_SIZE,
};
use crate::usb::{gadget_handoff_stop_selected, stage_selected};

verus! {

/// The reset the core gets before it is reprogrammed.
#[derive(Clone, Copy, PartialEq, Eq, Debug)]
pub enum HandoffReset {
    /// No reset: the running session is only stopped.
    Keep,
    /// The full core soft reset, with the USB3 PHY reset when it is ready.
    CoreSoftReset { with_usb3_phy: bool },
    /// Only the device soft reset (DCTL.CSFTRST).
    DeviceSoftReset,
}

/// Which reset the handoff issues: a cold platform start resets the core
/// and, with a ready QMP PHY, the USB3 PHY; a USB2 handoff resets the core
/// alone; a SuperSpeed handoff resets only the device.
pub fn handoff_core_reset(reset_core: bool, reset_platform: bool, super_speed: bool, qmp_ready: bool) -> (r: HandoffReset)
    ensures
        r == if !reset_core {
            HandoffReset::Keep
        } else if reset_platform {
            HandoffReset::CoreSoftReset { with_usb3_phy: qmp_ready }
        } else if !super_speed {
            HandoffReset::CoreSoftReset { with_usb3_phy: false }
        } else {
            HandoffReset::DeviceSoftReset
        },
{
    if !reset_core {
        HandoffReset::Keep
    } else if reset_platform {
        HandoffReset::CoreSoftReset { with_usb3_phy: qmp_ready }
    } else if !super_speed {
        HandoffReset::CoreSoftReset { with_usb3_phy: false }
    } else {
        HandoffReset::DeviceSoftReset
    }
}

/// GCTL after the reset: device capability, clock gating off, no scale-down
/// and scrambling on; every other bit kept.
pub fn handoff_gctl(gctl: u32) -> (value: u32)
    ensures
        value == (gctl & !(GCTL_PRTCAPDIR_MASK | GCTL_SCALEDOWN_MASK | GCTL_DISSCRAMBLE))
            | GCTL_PRTCAP_DEVICE | GCTL_DSBLCLKGTNG,
{
    (gctl & !(GCTL_PRTCAPDIR_MASK | GCTL_SCALEDOWN_MASK | GCTL_DISSCRAMBLE)) | GCTL_PRTCAP_DEVICE
        | GCTL_DSBLCLKGTNG
}

/// GUCTL1 with the host-side L1 suspend threshold disabled.
pub fn handoff_guctl1(guctl1: u32) -> (value: u32)
    ensures
        value == guctl1 & !GUCTL1_L1_SUSP_THRLD_EN_FOR_HOST,
{
    guctl1 & !GUCTL1_L1_SUSP_THRLD_EN_FOR_HOST
}

/// GUSB3PIPECTL: the PIPE PHY may suspend only when SuperSpeed is not
/// available, so the USB2 gadget stays usable without it.
pub fn handoff_pipe_ctl(usb3: u32, qmp_ready: bool) -> (value: u32)
    ensures
        value == if qmp_ready {
            usb3 & !GUSB3PIPECTL_SUSPHY
        } else {
            usb3 | GUSB3PIPECTL_SUSPHY
        },
{
    if qmp_ready {
        usb3 & !GUSB3PIPECTL_SUSPHY
    } else {
        usb3 | GUSB3PIPECTL_SUSPHY
    }
}

/// DCFG with the Fastboot address cleared and the speed set to one the
/// transfer engine can use: SuperSpeed only with a ready QMP PHY.
pub fn handoff_dcfg(dcfg: u32, qmp_ready: bool) -> (value: u32)
    ensures
        value == (dcfg & !(DCFG_SPEED_MASK | DCFG_DEVADDR_MASK)) | if qmp_ready {
            DCFG_SUPERSPEED
        } else {
            DCFG_HIGHSPEED
        },
{
    let cleared = dcfg & !(DCFG_SPEED_MASK | DCFG_DEVADDR_MASK);
    cleared | if qmp_ready {
        DCFG_SUPERSPEED
    } else {
        DCFG_HIGHSPEED
    }
}

/// The low and high words of an event-ring address (GEVNTADRLO/HI).
pub fn event_ring_address_words(address: u64) -> (r: (u32, u32))
    ensures
        r.0 == address % 0x1_0000_0000,
        r.1 == address / 0x1_0000_0000,
        r.1 as u64 * 0x1_0000_0000 + r.0 as u64 == address,
{
    let lo = (address % 0x1_0000_0000) as u32;
    let hi = (address / 0x1_0000_0000) as u32;
    (lo, hi)
}

/// The device events a start enables.
#[derive(Clone, Copy, PartialEq, Eq, Debug)]
pub enum DeviceEventSet {
    /// The boot firmware's own set: disconnect, reset, connect done and
    /// suspend.
    Firmware,
    /// The lifecycle set: the firmware set with link changes, wakeup and
    /// hibernation requests.
    Lifecycle,
    /// The lifecycle set with erratic errors, command completions and
    /// overflow.
    Full,
}

/// The DEVTEN value of an event set.
pub open spec fn spec_device_event_enables(set: DeviceEventSet) -> u32 {
    let firmware = DEVTEN_DISCONNECT | DEVTEN_USB_RESET | DEVTEN_CONNECT_DONE | DEVTEN_SUSPEND;
    let lifecycle = firmware | DEVTEN_LINK_STATUS_CHANGE | DEVTEN_WAKEUP
        | DEVTEN_HIBERNATION_REQUEST;
    match set {
        DeviceEventSet::Firmware => firmware,
        DeviceEventSet::Lifecycle => lifecycle,
        DeviceEventSet::Full => lifecycle | DEVTEN_ERRATIC_ERROR | DEVTEN_CMD_COMPLETE
            | DEVTEN_OVERFLOW,
    }
}

/// The DEVTEN value of an event set.
pub fn device_event_enables(set: DeviceEventSet) -> (value: u32)
    ensures
        value == spec_device_event_enables(set),
{
    let firmware = DEVTEN_DISCONNECT | DEVTEN_USB_RESET | DEVTEN_CONNECT_DONE | DEVTEN_SUSPEND;
    let lifecycle = firmware | DEVTEN_LINK_STATUS_CHANGE | DEVTEN_WAKEUP
        | DEVTEN_HIBERNATION_REQUEST;
    match set {
        DeviceEventSet::Firmware => firmware,
        DeviceEventSet::Lifecycle => lifecycle,
        DeviceEventSet::Full => lifecycle | DEVTEN_ERRATIC_ERROR | DEVTEN_CMD_COMPLETE
            | DEVTEN_OVERFLOW,
    }
}

/// EP0's packet size before Connect Done: the SuperSpeed size when
/// SuperSpeed is available or explicitly requested, else the USB2 64.
pub fn initial_ep0_packet_size(request_512: bool, qmp_ready: bool) -> (size: u32)
    ensures
        size == if request_512 || qmp_ready {
            INITIAL_EP0_MAX_PACKET_SIZE
        } else {
            64
        },
{
    if request_512 || qmp_ready {
        INITIAL_EP0_MAX_PACKET_SIZE
    } else {
        64
    }
}

/// Whether the event-ring address Fastboot programmed can be reused:
/// nonzero, not all ones, 16-byte aligned and addressable.
pub open spec fn reusable_event_address(address: int) -> bool {
    &&& address != 0
    &&& address != 0xffff_ffff_ffff_ffff
    &&& address % 16 == 0
    &&& address <= usize::MAX
}

/// The Fastboot event-ring address from GEVNTADRHI/LO, if it can be reused.
pub fn fastboot_event_address(hi: u32, lo: u32) -> (r: Option<u64>)
    ensures
        match r {
            Some(address) => address == hi * 0x1_0000_0000 + lo && reusable_event_address(address as int),
            None => !reusable_event_address(hi * 0x1_0000_0000 + lo),
        },
{
    let address: u64 = hi as u64 * 0x1_0000_0000 + lo as u64;
    if address == 0 || address == u64::MAX || address % 16 != 0 || address as u128 > usize::MAX as u128 {
        None
    } else {
        Some(address)
    }
}

/// What a failed stage probe does next.
#[derive(Clone, Copy, PartialEq, Eq, Debug)]
pub enum FailureRetry {
    /// Nothing: the stage was not selected.
    Nothing,
    /// Repeat the controller-side Run/Stop boundary (EP0 already armed).
    RunStopBoundary,
    /// Fall back to the bare pull-up.
    BarePullup,
}

/// The failure marker ("FA" and the stage) and the retry of a failed stage.
pub fn handoff_failure(stop_stages: u32, stage: u32) -> (r: (u32, FailureRetry))
    ensures
        r.0 == 0x4641_0000u32 | (stage & 0xff),
        r.1 == if !stage_selected(stop_stages, stage) {
            FailureRetry::Nothing
        } else if stage >= 6 {
            FailureRetry::RunStopBoundary
        } else {
            FailureRetry::BarePullup
        },
{
    let marker = 0x4641_0000u32 | (stage & 0xff);
    let retry = if !gadget_handoff_stop_selected(stop_stages, stage) {
        FailureRetry::Nothing
    } else if stage >= 6 {
        FailureRetry::RunStopBoundary
    } else {
        FailureRetry::BarePullup
    };
    (marker, retry)
}

/// The RAM-clock gate: with a decimal setting, a captured RAMCLKSEL other
/// than the setting suppresses the pull-up with a marker ("RCG" and the
/// low byte). `None` lets the start go on.
pub open spec fn spec_ramclk_gate(setting: Option<Seq<u8>>, captured: u32) -> Option<u32> {
    match setting {
        Some(s) => if parses_decimal(s, u32::MAX as nat) && captured != decimal_value(
            unsigned_digits(s),
        ) {
            Some(0x5243_4700u32 | (captured & 0xff))
        } else {
            None
        },
        None => None,
    }
}

/// Apply the RAM-clock gate.
pub fn ramclk_gate(setting: Option<&str>, captured: u32) -> (r: Option<u32>)
    ensures
        r == spec_ramclk_gate(
            match setting {
                Some(s) => Some(s.spec_bytes()),
                None => None,
            },
            captured,
        ),
{
    match setting {
        Some(s) => match parse_u32_decimal(s.as_bytes()) {
            Some(value) => if captured != value {
                Some(0x5243_4700u32 | (captured & 0xff))
            } else {
                None
            },
            None => None,
        },
        None => None,
    }
}

/// The word the RAM readback test writes at word `index`.
pub open spec fn ram_pattern(index: int) -> u32 {
    let k = index % 4;
    if k == 0 {
        0xA55A_5AA5u32
    } else if k == 1 {
        0x1234_5678u32
    } else if k == 2 {
        0xDEAD_BEEFu32
    } else {
        0x0BAD_C0DEu32
    }
}

/// The word the RAM readback test writes at word `index`.
pub fn ram_pattern_word(index: usize) -> (w: u32)
    ensures
        w == ram_pattern(index as int),
{
    let k = index % 4;
    if k == 0 {
        0xA55A_5AA5
    } else if k == 1 {
        0x1234_5678
    } else if k == 2 {
        0xDEAD_BEEF
    } else {
        0x0BAD_C0DE
    }
}

/// Whether a readback of a DMA object shows every pattern word intact.
pub fn ram_readback_ok(words: &[u32]) -> (ok: bool)
    ensures
        ok == forall|i: int| 0 <= i < words@.len() ==> #[trigger] words@[i] == ram_pattern(i),
{
    let mut i: usize = 0;
    while i < words.len()
        invariant
            i <= words@.len(),
            forall|j: int| 0 <= j < i ==> #[trigger] words@[j] == ram_pattern(j),
        decreases words.len() - i,
    {
        if words[i] != ram_pattern_word(i) {
            return false;
        }
        i += 1;
    }
    true
}

/// The event-data gate of the DMA probe: setting "1" wants the event word
/// to have landed, "2" wants the slot to have stayed zero; a mismatch
/// suppresses the pull-up with the marker "EVD0" or "EVD1".
pub open spec fn spec_event_data_gate(setting: Option<Seq<u8>>, event_word: u32) -> Option<u32> {
    match setting {
        Some(s) => if s == ascii("1"@) && event_word == 0 {
            Some(0x4556_4430u32)
        } else if s == ascii("2"@) && event_word != 0 {
            Some(0x4556_4431u32)
        } else {
            None
        },
        None => None,
    }
}

/// Apply the event-data gate.
pub fn event_data_gate(setting: Option<&str>, event_word: u32) -> (r: Option<u32>)
    ensures
        r == spec_event_data_gate(
            match setting {
                Some(s) => Some(s.spec_bytes()),
                None => None,
            },
            event_word,
        ),
{
    proof {
        reveal_strlit("1");
        reveal_strlit("2");
    }
    match setting {
        Some(s) => {
            let b = s.as_bytes();
            if bytes_equal(b, literal("1")) && event_word == 0 {
                Some(0x4556_4430u32)
            } else if bytes_equal(b, literal("2")) && event_word != 0 {
                Some(0x4556_4431u32)
            } else {
                None
            }
        },
        None => None,
    }
}

/// The fault gate of the DMA probe: setting "1" wants the SMMU to have
/// recorded a fault, "2" wants it not to; a mismatch suppresses the pull-up
/// with the marker "FSR" and the status's low byte.
pub open spec fn spec_fault_gate(setting: Option<Seq<u8>>, fsr: u32) -> Option<u32> {
    match setting {
        Some(s) => if s == ascii("1"@) || s == ascii("2"@) {
            let faulted = fsr != 0xffff_ffffu32 && fsr != 0;
            let wanted = s == ascii("1"@);
            if faulted != wanted {
                Some(0x4653_5200u32 | (fsr & 0xff))
            } else {
                None
            }
        } else {
            None
        },
        None => None,
    }
}

/// Apply the fault gate.
pub fn fault_gate(setting: Option<&str>, fsr: u32) -> (r: Option<u32>)
    ensures
        r == spec_fault_gate(
            match setting {
                Some(s) => Some(s.spec_bytes()),
                None => None,
            },
            fsr,
        ),
{
    proof {
        reveal_strlit("1");
        reveal_strlit("2");
    }
    match setting {
        Some(s) => {
            let b = s.as_bytes();
            let one = bytes_equal(b, literal("1"));
            if one || bytes_equal(b, literal("2")) {
                let faulted = fsr != u32::MAX && fsr != 0;
                if faulted != one {
                    Some(0x4653_5200u32 | (fsr & 0xff))
                } else {
                    None
                }
            } else {
                None
            }
        },
        None => None,
    }
}

/// The ring slot an event should have landed in: the current offset within
/// the ring, rounded down to a whole word.
pub fn event_slot(offset: usize, size: usize) -> (slot: usize)
    requires
        size > 0,
    ensures
        slot % 4 == 0,
        slot <= offset % size < size,
        offset % size - slot < 4,
{
    let within = offset % size;
    let slot = within - within % 4;
    assert(slot % 4 == 0) by (nonlinear_arith)
        requires
            slot == within - within % 4,
            within >= 0,
    ;
    slot
}

/// The resource an event-DMA probe's End Transfer names: the started
/// transfer's resource (at least 1), else 1.
pub fn dma_probe_end_resource(started: bool, resource: u32) -> (r: u32)
    ensures
        r == if started && resource > 1 {
            resource
        } else {
            1
        },
        r >= 1,
{
    if started && resource > 1 {
        resource
    } else {
        1
    }
}

} // verus!
