use fullerene_usb::endpoint::BulkSlots;
use fullerene_usb::ep0::{
    on_xfer_not_ready,
    device_reaction, finish_data_stage, finish_halt, finish_status_stage, note_endpoints_configured,
    on_bus_reset, on_connect_done, on_disconnect, on_transfer_complete, CompletionRoute,
    ConnectDonePlan, ControlState, DataEndpoints, DeviceReaction, DisconnectPlan, NotReadyWork, Ep0Stage, GadgetAnswer,
    ResetPlan, StageWork,
};

fn running() -> ControlState {
    ControlState {
        stage: Ep0Stage::Setup,
        setup_armed: true,
        endpoints_ready: true,
        configured: true,
        data_endpoints_ready: true,
        function_bound: true,
        control_in: true,
        control_has_data: true,
        pending_setup_arm: false,
        resource_out: 1,
        resource_in: 0,
    }
}

#[test]
fn device_events_are_classified() {
    assert_eq!(device_reaction(0, false), DeviceReaction::Disconnect);
    assert_eq!(device_reaction(1, false), DeviceReaction::BusReset);
    assert_eq!(device_reaction(2, false), DeviceReaction::ConnectDone);
    assert_eq!(device_reaction(3, false), DeviceReaction::LinkStatus);
    assert_eq!(device_reaction(4, false), DeviceReaction::Wakeup);
    assert_eq!(device_reaction(5, false), DeviceReaction::Hibernation);
    assert_eq!(device_reaction(6, false), DeviceReaction::Suspend { record: false });
    assert_eq!(device_reaction(6, true), DeviceReaction::Suspend { record: true });
    assert_eq!(device_reaction(9, false), DeviceReaction::DeviceError);
    assert_eq!(device_reaction(10, false), DeviceReaction::DeviceError);
    assert_eq!(device_reaction(11, false), DeviceReaction::DeviceError);
    assert_eq!(device_reaction(7, false), DeviceReaction::Ignore);
}

#[test]
fn disconnect_ends_live_transfers_and_forgets_everything() {
    let mut s = running();
    let mut data = DataEndpoints {
        resource_out: 2,
        resource_in: 0,
        slots: BulkSlots { out_slot: Some(4), in_slot: Some(1) },
    };
    let p = on_disconnect(&mut s, &mut data);
    assert_eq!(
        p,
        DisconnectPlan {
            end_out: true,
            end_in: false,
            unbind_function: true,
            teardown_data: true,
            end_data_out: true,
            end_data_in: false,
            dalepena: 0,
        }
    );
    assert_eq!(s, ControlState::initial());
    assert_eq!(data, DataEndpoints { resource_out: 0, resource_in: 0, slots: BulkSlots { out_slot: None, in_slot: None } });
    // Unconfigured data endpoints are not torn down, but their state is
    // still forgotten.
    let mut s = ControlState { data_endpoints_ready: false, function_bound: false, ..running() };
    let mut data = DataEndpoints { resource_out: 3, resource_in: 3, slots: BulkSlots { out_slot: Some(0), in_slot: None } };
    let p = on_disconnect(&mut s, &mut data);
    assert!(!p.teardown_data && !p.end_data_out && !p.end_data_in && !p.unbind_function);
    assert_eq!(data.slots.out_slot, None);
    assert_eq!(data.resource_out, 0);
}

#[test]
fn bus_reset_keeps_an_armed_setup() {
    let mut s = running();
    let p = on_bus_reset(&mut s, 0x0080_0000 | (5 << 3) | 4, 4);
    assert_eq!(p, ResetPlan::Keep { dcfg: 0x0080_0000 | 4 });
    assert!(s.setup_armed && s.endpoints_ready);
    assert_eq!(s.resource_out, 1);
    assert!(!s.configured && !s.function_bound && !s.control_in);
}

#[test]
fn bus_reset_rebuilds_otherwise() {
    let mut s = running();
    s.stage = Ep0Stage::Data;
    let p = on_bus_reset(&mut s, 0x0080_0000 | (5 << 3) | 4, 0);
    assert_eq!(
        p,
        ResetPlan::Rebuild { dcfg: 0x0080_0000, max_packet: 64, configure_endpoints: false }
    );
    assert_eq!(s.stage, Ep0Stage::Setup);
    assert!(!s.setup_armed && s.pending_setup_arm);
    assert_eq!((s.resource_out, s.resource_in), (0, 0));

    let mut s = ControlState::initial();
    let p = on_bus_reset(&mut s, 0, 4);
    assert_eq!(p, ResetPlan::Rebuild { dcfg: 4, max_packet: 512, configure_endpoints: true });
    note_endpoints_configured(&mut s, true);
    assert!(s.endpoints_ready);
}

#[test]
fn connect_done_plans() {
    let mut s = ControlState::initial();
    assert_eq!(on_connect_done(&mut s, 0), ConnectDonePlan::Configure { max_packet: 64, modify: false });
    assert!(s.pending_setup_arm);
    let mut s = running();
    assert_eq!(on_connect_done(&mut s, 4), ConnectDonePlan::Modify { max_packet: 512 });
    let mut s = running();
    s.setup_armed = false;
    assert_eq!(on_connect_done(&mut s, 0), ConnectDonePlan::Configure { max_packet: 64, modify: true });
}

#[test]
fn transfer_completion_routes() {
    let mut s = running();
    assert_eq!(on_transfer_complete(&mut s, 2, false), CompletionRoute::Bulk);
    assert_eq!(s, running());
    assert_eq!(on_transfer_complete(&mut s, 0, false), CompletionRoute::Setup);
    assert!(!s.setup_armed);
    assert_eq!(s.resource_out, 0);
    s.stage = Ep0Stage::Data;
    s.resource_in = 3;
    assert_eq!(on_transfer_complete(&mut s, 1, false), CompletionRoute::DataDone);
    assert_eq!(s.resource_in, 0);
    s.stage = Ep0Stage::Status;
    assert_eq!(on_transfer_complete(&mut s, 0, false), CompletionRoute::StatusDone);
    // A fresh SETUP packet overrides the stage.
    assert_eq!(on_transfer_complete(&mut s, 0, true), CompletionRoute::Setup);
    assert_eq!(s.stage, Ep0Stage::Setup);
}

#[test]
fn stage_endings() {
    let mut s = running();
    s.stage = Ep0Stage::Data;
    assert_eq!(finish_data_stage(&mut s, GadgetAnswer::StatusOut), StageWork::StartStatus { direction: 0 });
    assert_eq!(s.stage, Ep0Stage::Status);
    assert_eq!(finish_data_stage(&mut s, GadgetAnswer::StatusIn), StageWork::StartStatus { direction: 1 });
    assert_eq!(finish_data_stage(&mut s, GadgetAnswer::Setup), StageWork::Stall { direction: 1 });

    assert_eq!(finish_status_stage(&mut s, GadgetAnswer::SetHalt { address: 0x81 }), StageWork::Halt { endpoint: 1, set: true });
    assert_eq!(s.stage, Ep0Stage::Status);
    assert_eq!(finish_status_stage(&mut s, GadgetAnswer::ClearHalt { address: 0x02 }), StageWork::Halt { endpoint: 2, set: false });
    assert_eq!(finish_halt(&mut s, false), StageWork::Stall { direction: 1 });
    assert_eq!(s.stage, Ep0Stage::Status);
    assert_eq!(finish_halt(&mut s, true), StageWork::Rearm);
    assert_eq!(s.stage, Ep0Stage::Setup);
    s.stage = Ep0Stage::Status;
    assert_eq!(finish_status_stage(&mut s, GadgetAnswer::Setup), StageWork::Rearm);
    assert_eq!(s.stage, Ep0Stage::Setup);
    s.control_in = false;
    assert_eq!(finish_status_stage(&mut s, GadgetAnswer::Other), StageWork::Stall { direction: 0 });
}

use fullerene_usb::ep0::{
    armalive_probe, fresh_setup, on_setup, parse_setup, setup_delay, SetupAnswer, SetupPacket,
    SetupWork,
};

#[test]
fn setup_packets_are_decoded() {
    let p = parse_setup(&[0x80, 6, 0x00, 0x01, 0x00, 0x00, 0x40, 0x00]);
    assert_eq!(p, SetupPacket { request_type: 0x80, request: 6, value: 0x100, index: 0, length: 64 });
    assert!(fresh_setup(&[0, 0, 0, 0, 0, 0, 1, 0]));
    assert!(!fresh_setup(&[0; 8]));
    assert_eq!(armalive_probe(true, &[0; 8]), 1);
    assert_eq!(armalive_probe(false, &[0, 5, 0, 0, 0, 0, 0, 0]), 2);
    assert_eq!(armalive_probe(true, &[9; 8]), 3);
}

#[test]
fn setup_delay_is_recorded_once() {
    assert_eq!(setup_delay(0xffff, 100, 100 + 3 * 19_200_000, 19_200_000), 3);
    assert_eq!(setup_delay(5, 100, 10_000_000_000, 1), 5);
    assert_eq!(setup_delay(0xffff, 0, 100, 1), 0xffff);
    assert_eq!(setup_delay(0xffff, 100, 200, 0), 0xffff);
    assert_eq!(setup_delay(0xffff, 100, 50, 1), 0);
    assert_eq!(setup_delay(0xffff, 1, u64::MAX, 1), 0xfffe);
}

#[test]
fn setup_answers_advance_the_stage() {
    let mut s = ControlState::initial();
    let get = SetupPacket { request_type: 0x80, request: 6, value: 0x100, index: 0, length: 18 };
    assert_eq!(on_setup(&mut s, get, SetupAnswer::DataIn { length: 18 }), SetupWork::StartData { length: 18 });
    assert_eq!(s.stage, Ep0Stage::Data);
    assert!(s.control_in && s.control_has_data);
    let mut s = ControlState::initial();
    let set = SetupPacket { request_type: 0, request: 5, value: 7, index: 0, length: 0 };
    assert_eq!(on_setup(&mut s, set, SetupAnswer::StatusIn), SetupWork::AwaitStatus);
    assert_eq!(s.stage, Ep0Stage::Status);
    assert!(!s.control_in && !s.control_has_data);
    let mut s = ControlState::initial();
    assert_eq!(on_setup(&mut s, get, SetupAnswer::Stall), SetupWork::Stall { direction: 1 });
    assert_eq!(s.stage, Ep0Stage::Setup);
    assert_eq!(on_setup(&mut s, set, SetupAnswer::Invalid), SetupWork::Stall { direction: 0 });
}

#[test]
fn xfer_not_ready_starts_deferred_stages() {
    let data = ControlState { stage: Ep0Stage::Data, ..running() };
    assert_eq!(on_xfer_not_ready(&data, 1, 1, Some(18)), NotReadyWork::StartDataIn { length: 18 });
    assert_eq!(on_xfer_not_ready(&data, 1, 1, None), NotReadyWork::Nothing);
    assert_eq!(on_xfer_not_ready(&data, 0, 1, Some(18)), NotReadyWork::Nothing);
    assert_eq!(on_xfer_not_ready(&data, 1, 2, Some(18)), NotReadyWork::Nothing);
    let status_after_in = ControlState { stage: Ep0Stage::Status, control_in: true, control_has_data: true, ..running() };
    assert_eq!(on_xfer_not_ready(&status_after_in, 0, 2, None), NotReadyWork::StartStatus { endpoint: 0 });
    let status_no_data = ControlState { stage: Ep0Stage::Status, control_in: true, control_has_data: false, ..running() };
    assert_eq!(on_xfer_not_ready(&status_no_data, 1, 2, None), NotReadyWork::StartStatus { endpoint: 1 });
    let setup = ControlState { stage: Ep0Stage::Setup, ..running() };
    assert_eq!(on_xfer_not_ready(&setup, 1, 2, None), NotReadyWork::Nothing);
}
