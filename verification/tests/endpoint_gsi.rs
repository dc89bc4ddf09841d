use fullerene_usb::endpoint::{ep_command_issue, ep_command_poll, usb2_after_command, EpCommandStep};
use fullerene_usb::endpoint::{
    bulk_admission, bulk_complete, bulk_started, command_completion, command_usb2_guard,
    config_allocates_resource, end_transfer_command, endpoint_config, ep_command_writes,
    prepare_trb, resource_slot, retry_deadline, start_transfer_params, trb_hardware_owned,
    BulkCompletion, BulkRefusal, BulkSlots, EpCommandWrites, ResourceSlot, Trb,
};
use fullerene_usb::events::{event_size_words, pending_event_bytes, snapshot_events};
use fullerene_usb::gsi::{
    configure_gsi_channel_with_buffers, gsi_doorbell, gsi_end_plan, gsi_event,
    gsi_queue_check, gsi_request_started, gsi_transfer_ended, gsi_transfer_updated,
    gsi_update_plan, prepare_gsi_ring, reset_gsi_channels, GsiChannel, GsiChannels,
    GsiCompletion, GsiRingShape, GsiTeardown, GsiUpdate,
};

const IN_SHAPE: GsiRingShape = GsiRingShape { num_trbs: 10, data_trbs: 4, first_buffer_trb: 5 };
const OUT_SHAPE: GsiRingShape = GsiRingShape { num_trbs: 6, data_trbs: 4, first_buffer_trb: 1 };

#[test]
fn endpoint_command_words() {
    assert_eq!(
        ep_command_writes(6, 1, 2, 3),
        EpCommandWrites { par0: 1, par1: 2, par2: 3, depcmd: 6 | 0x400 }
    );
    // High speed with both low-power bits set: both are cleared around it.
    assert_eq!(command_usb2_guard(6, 0, 0x140 | 7), Some((0x140, 7)));
    // SuperSpeed: only End Transfer is guarded.
    assert_eq!(command_usb2_guard(6, 4, 0x140), None);
    assert_eq!(command_usb2_guard(8, 4, 0x40), Some((0x40, 0)));
    assert_eq!(command_usb2_guard(6, 0, 0x7), None);
}

#[test]
fn endpoint_command_completion() {
    assert_eq!(command_completion(0x400), None);
    assert_eq!(command_completion(0x0001_0006), Some(Some(1)));
    assert_eq!(command_completion(0x007f_0000), Some(Some(0x7f)));
    assert_eq!(command_completion(0x0000_1006), Some(None));
}

#[test]
fn endpoint_configuration_parameters() {
    // EP0 OUT, 512 bytes, control, fresh.
    assert_eq!(endpoint_config(0, 512, 0, false, 0), (512 << 3, 0x100 | 0x400, 0));
    // EP0 IN as a MODIFY for 64 bytes.
    assert_eq!(endpoint_config(1, 64, 0, true, 0), (0x8000_0000 | (64 << 3), 0x100 | 0x400 | (1 << 25), 0));
    // A bulk endpoint on interrupter 2.
    assert_eq!(endpoint_config(3, 1024, 4, false, 2), (4 | (1024 << 3), 0x200 | 2 | (3 << 25), 0));
    assert!(config_allocates_resource(false));
    assert!(!config_allocates_resource(true));
}

#[test]
fn transfer_parameters_and_trbs() {
    assert_eq!(start_transfer_params(0x1_2345_6780), (1, 0x2345_6780));
    assert_eq!(resource_slot(1), ResourceSlot::Control { index: 1 });
    assert_eq!(resource_slot(3), ResourceSlot::Data { index: 1 });
    assert_eq!(resource_slot(4), ResourceSlot::Untracked);
    assert_eq!(retry_deadline(1000, 19_200_000, 2500), 1000 + 48_000_000);
    assert_eq!(retry_deadline(u64::MAX - 1, 1000, 5000), u64::MAX);
    assert_eq!(
        prepare_trb(0x2_0000_1000, 64, 0x50),
        Trb { bpl: 0x1000, bph: 2, size: 64, ctrl: 0x50 | 1 | 2 | 0x800 | 0x400 }
    );
    assert!(trb_hardware_owned(0xc53));
    assert!(!trb_hardware_owned(0xc52));
    assert_eq!(end_transfer_command(0), 8 | 0x100 | 0x800 | (1 << 16));
    assert_eq!(end_transfer_command(3), 8 | 0x100 | 0x800 | (3 << 16));
}

#[test]
fn bulk_requests_complete_once() {
    let mut slots = BulkSlots { out_slot: None, in_slot: None };
    assert_eq!(bulk_admission(false, 2, 64, &slots), Err(BulkRefusal::NotReady));
    assert_eq!(bulk_admission(true, 4, 64, &slots), Err(BulkRefusal::BadRequest));
    assert_eq!(bulk_admission(true, 2, 0, &slots), Err(BulkRefusal::BadRequest));
    assert_eq!(bulk_admission(true, 2, 64, &slots), Ok(0x02));
    assert_eq!(bulk_admission(true, 3, 64, &slots), Ok(0x83));
    bulk_started(&mut slots, 2, 7);
    assert_eq!(bulk_admission(true, 2, 64, &slots), Err(BulkRefusal::Busy));
    let done = bulk_complete(&mut slots, 2, 0, 512, 0x0000_0100, true, true).unwrap();
    assert_eq!(
        done,
        BulkCompletion { address: 0x02, slot: 7, actual: 256, error: false, requeue_out: true }
    );
    assert_eq!(slots, BulkSlots { out_slot: None, in_slot: None });
    assert_eq!(bulk_complete(&mut slots, 2, 0, 512, 0, true, true), None);
    bulk_started(&mut slots, 3, 1);
    let done = bulk_complete(&mut slots, 3, 1, 10, 0xff00_0020, true, true).unwrap();
    assert_eq!(done.actual, 0);
    assert!(done.error);
    assert!(!done.requeue_out);
}

#[test]
fn event_ring_batches() {
    assert_eq!(pending_event_bytes(0x8000_000b), 8);
    assert_eq!(event_size_words(4096), (0x8000_1000, 0x1000));
    let mut ring = vec![0u8; 16];
    for (i, word) in [0x11u32, 0x22, 0x33, 0x44].iter().enumerate() {
        ring[4 * i..4 * i + 4].copy_from_slice(&word.to_le_bytes());
    }
    let b = snapshot_events(&ring, 8, 12);
    assert_eq!(b.events, vec![0x33, 0x44, 0x11]);
    assert_eq!(b.next_offset, 4);
    let b = snapshot_events(&ring, 0, 0);
    assert!(b.events.is_empty());
    assert_eq!(b.next_offset, 0);
}

#[test]
fn gsi_in_ring_layout() {
    let ring = prepare_gsi_ring(1, 3, 0x9000_0400, 0x9001_0000, 0x200, IN_SHAPE, true, true).unwrap();
    assert_eq!(ring.len(), 10);
    assert_eq!(ring[0], Trb { bpl: 0, bph: 0, size: 0, ctrl: 0x10 | 0x800 });
    assert_eq!(ring[5], Trb { bpl: 0x9001_0000, bph: 0, size: 0, ctrl: 0x10 | 0x800 });
    assert_eq!(ring[8].bpl, 0x9001_0600);
    assert_eq!(ring[9], Trb { bpl: 0x9000_0400, bph: 0x20_0000 | 0x80_0000 | (2 << 16), size: 0, ctrl: 0x80 | 1 });
}

#[test]
fn gsi_out_ring_layout() {
    let ring = prepare_gsi_ring(0, 2, 0x9000_0000, 0x9002_0000, 0x400, OUT_SHAPE, true, true).unwrap();
    assert_eq!(ring[0], Trb { bpl: 0x9000_0010, bph: 0, size: 0, ctrl: 0x80 });
    assert_eq!(ring[2], Trb { bpl: 0x9002_0400, bph: 0, size: 0x400, ctrl: 0x10 | 0x800 | 8 | 0x400 });
    assert_eq!(ring[5].ctrl, 0x80 | 1);
    assert!(prepare_gsi_ring(0, 2, 0x9000_0000, 0x9002_0000, 0, OUT_SHAPE, true, true).is_none());
    assert!(prepare_gsi_ring(0, 2, 0x9000_0000, 0x9002_0000, 8, OUT_SHAPE, false, true).is_none());
    let big = GsiRingShape { num_trbs: 11, data_trbs: 4, first_buffer_trb: 1 };
    assert!(prepare_gsi_ring(0, 2, 0x9000_0000, 0x9002_0000, 8, big, true, true).is_none());
}

#[test]
fn gsi_channel_lifecycle() {
    let mut c = GsiChannels::new();
    // Validation: endpoint, event buffer, ring and doorbell alignment.
    assert!(configure_gsi_channel_with_buffers(&mut c, 3, 1, 1, 0x9000_0000, 0x1000, 0x9002_0000, 0x400, OUT_SHAPE, true, true).is_none());
    assert!(configure_gsi_channel_with_buffers(&mut c, 3, 2, 4, 0x9000_0000, 0x1000, 0x9002_0000, 0x400, OUT_SHAPE, true, true).is_none());
    assert!(configure_gsi_channel_with_buffers(&mut c, 3, 2, 1, 0x9000_0100, 0x1000, 0x9002_0000, 0x400, OUT_SHAPE, true, true).is_none());
    assert!(configure_gsi_channel_with_buffers(&mut c, 3, 2, 1, 0x9000_0000, 0x1_0000_1000, 0x9002_0000, 0x400, OUT_SHAPE, true, true).is_none());
    assert_eq!(c.channels[0], GsiChannel::empty());

    let setup = configure_gsi_channel_with_buffers(&mut c, 3, 2, 1, 0x9000_0000, 0x1000, 0x9002_0000, 0x400, OUT_SHAPE, true, true).unwrap();
    assert_eq!(setup.index, 0);
    assert_eq!(setup.ring.len(), 6);
    assert_eq!(setup.words.ring_low, 0x9000_0000);
    assert_eq!(setup.words.doorbell_low, 0x1000);
    assert!(c.channels[0].ready);

    // No resource yet: the update only hands the buffers to the hardware.
    assert_eq!(gsi_update_plan(&c, 3, 2, 1, Some(OUT_SHAPE)), GsiUpdate::MarkOnly { first: 1, end: 5 });
    assert_eq!(gsi_end_plan(&c, 3, 2, 1), None);
    assert!(gsi_queue_check(&c, 3, 2, 1, 0x9002_0000, 0x400, true));
    assert!(!gsi_queue_check(&c, 3, 2, 1, 0x9002_0000, 0x200, true));
    gsi_request_started(&mut c, 0, 5, 4);
    assert!(!gsi_queue_check(&c, 3, 2, 1, 0x9002_0000, 0x400, true));
    assert_eq!(
        gsi_update_plan(&c, 3, 2, 1, Some(OUT_SHAPE)),
        GsiUpdate::Issue { first: 1, end: 5, command: 7 | (4 << 16) }
    );
    gsi_transfer_updated(&mut c, 0);
    assert_eq!(gsi_update_plan(&c, 3, 2, 1, Some(OUT_SHAPE)), GsiUpdate::Refused);
    assert_eq!(gsi_doorbell(&c, 0, true), Some((0x1000, 0x9000_0050)));
    assert_eq!(gsi_doorbell(&c, 0, false), None);
    assert_eq!(gsi_doorbell(&c, 1, true), None);
    assert_eq!(gsi_end_plan(&c, 3, 2, 1), Some(8 | 0x800 | (4 << 16)));

    let done = gsi_event(&mut c, 0, 0x0000_1000, Some(0x400), 0x100).unwrap();
    assert_eq!(done, GsiCompletion { address: 0x02, slot: 5, actual: 0x300, error: true });
    assert!(!c.channels[0].pending && !c.channels[0].ring_active);
    assert_eq!(gsi_event(&mut c, 0, 0, Some(0x400), 0), None);

    gsi_request_started(&mut c, 0, 6, 4);
    gsi_transfer_ended(&mut c, 0);
    assert_eq!(c.channels[0].request_slot, None);

    gsi_request_started(&mut c, 0, 9, 4);
    gsi_transfer_updated(&mut c, 0);
    let teardown = reset_gsi_channels(&mut c);
    assert_eq!(
        teardown[0],
        GsiTeardown { end_transfer: true, release: Some((0x02, 9)), disable_endpoint: Some(2) }
    );
    assert_eq!(teardown[1], GsiTeardown { end_transfer: false, release: None, disable_endpoint: None });
    assert_eq!(c.channels[0], GsiChannel::empty());
}

#[test]
fn endpoint_command_issue_and_poll() {
    // High speed (DSTS speed 0), SUSPHY and ENBLSLPM set: both are cleared
    // for the command and set again afterwards.
    let issue = ep_command_issue(6, 1, 2, 3, 0, 0x140 | 0x8);
    assert_eq!(issue.usb2_write, Some(0x8));
    assert_eq!(issue.writes.depcmd, 6 | 0x400);
    assert_eq!((issue.writes.par0, issue.writes.par1, issue.writes.par2), (1, 2, 3));
    assert_eq!(issue.poll.polls_left, 50_000);
    assert_eq!(issue.poll.saved_usb2, 0x140);
    let mut p = issue.poll;
    assert_eq!(ep_command_poll(&mut p, 0x400), EpCommandStep::Wait);
    assert_eq!(p.polls_left, 49_999);
    assert_eq!(
        ep_command_poll(&mut p, 0x0002_0006),
        EpCommandStep::Done { result: Some(2), timed_out: false, restore_usb2: 0x140 }
    );
    assert_eq!(usb2_after_command(0x8, 0x140), 0x148);
    // SuperSpeed and not End Transfer: no guard.
    let issue = ep_command_issue(6, 0, 0, 0, 4, 0x140);
    assert_eq!(issue.usb2_write, None);
    assert_eq!(issue.poll.saved_usb2, 0);
    // A failure status.
    let mut p = issue.poll;
    assert_eq!(
        ep_command_poll(&mut p, 0x1000),
        EpCommandStep::Done { result: None, timed_out: false, restore_usb2: 0 }
    );
    // The budget runs out after exactly 50,000 active reads.
    let mut p = ep_command_issue(8, 0, 0, 0, 4, 0x40).poll;
    assert_eq!(p.saved_usb2, 0x40);
    let mut reads = 0u32;
    loop {
        reads += 1;
        match ep_command_poll(&mut p, 0x400) {
            EpCommandStep::Wait => {}
            done => {
                assert_eq!(done, EpCommandStep::Done { result: None, timed_out: true, restore_usb2: 0x40 });
                break;
            }
        }
    }
    assert_eq!(reads, 50_000);
}
