use drone_updater::firmware::{find_matched_firmware_file, FirmwareImage, Version};
use drone_updater::protocol::{
    probe_device_type, request_frame, request_payload, update_frame, update_payload, Information,
    ModeUpdate, Reply,
};
use drone_updater::updater::{Sequence, Updater};

const MODEL: u32 = 0x0010_1000;

fn image(model_number: u32, len: usize) -> FirmwareImage {
    let data: Vec<u8> = (0..len).map(|i| (i % 251) as u8).collect();
    FirmwareImage::new(model_number, Version { major: 22, minor: 6, build: 2 }, data)
}

fn info(model_number: u32, mode_update: ModeUpdate) -> Reply {
    Reply::Information {
        from: 0x10,
        information: Information {
            mode_update,
            model_number,
            version: Version { major: 21, minor: 1, build: 7 },
        },
    }
}

fn connected(files: Vec<FirmwareImage>) -> Updater {
    let mut u = Updater::new(files, vec![], 0);
    let port = u.run_look_up_new_device(Some(vec!["ttyUSB0".to_string()]));
    assert_eq!(port, Some("ttyUSB0".to_string()));
    u.on_port_open(true, vec![], 0);
    assert_eq!(*u.get_sequence(), Sequence::CheckDeviceInformation);
    u
}

fn transferring(index_block_next: u16) -> Updater {
    let mut u = connected(vec![image(MODEL, 160)]);
    u.run_check_device_information(10, false, 0, info(MODEL, ModeUpdate::Ready));
    assert_eq!(*u.get_sequence(), Sequence::CheckUpdateLocation);
    u.run_check_update_location(20, false, Reply::UpdateLocation { index_block_next });
    assert_eq!(*u.get_sequence(), Sequence::FirmwareUpdate);
    u
}

#[test]
fn no_firmware_files_stop_the_session() {
    let mut u = Updater::new(vec![], vec![], 0);
    assert_eq!(*u.get_sequence(), Sequence::NoFirmwareFile);
    assert_eq!(u.get_message_status(), "No Firmware File");
    let step = u.run(5000, info(MODEL, ModeUpdate::Ready));
    assert!(step.frame.is_none());
    assert_eq!(u.run_look_up_new_device(Some(vec!["ttyUSB0".to_string()])), None);
    assert_eq!(*u.get_sequence(), Sequence::NoFirmwareFile);
}

#[test]
fn new_port_is_tried_once_per_appearance() {
    let mut u = Updater::new(vec![image(MODEL, 64)], vec!["ttyS0".to_string()], 0);
    assert_eq!(*u.get_sequence(), Sequence::LookUpNewDevice);
    let now = vec!["ttyS0".to_string(), "ttyUSB0".to_string(), "ttyUSB1".to_string()];
    assert_eq!(u.run_look_up_new_device(Some(now.clone())), Some("ttyUSB0".to_string()));
    u.on_port_open(false, now.clone(), 5);
    assert_eq!(*u.get_sequence(), Sequence::LookUpNewDevice);
    assert_eq!(u.run_look_up_new_device(Some(now.clone())), None);
    assert_eq!(u.run_look_up_new_device(Some(vec!["ttyS0".to_string()])), None);
    assert_eq!(u.run_look_up_new_device(Some(now)), Some("ttyUSB0".to_string()));
}

#[test]
fn replaced_port_is_opened() {
    let mut u = Updater::new(vec![image(MODEL, 64)], vec!["a".to_string(), "b".to_string()], 0);
    assert_eq!(u.run_look_up_new_device(Some(vec!["c".to_string()])), Some("c".to_string()));
    assert_eq!(u.run_look_up_new_device(Some(vec!["c".to_string(), "d".to_string()])), Some("d".to_string()));
    assert_eq!(u.run_look_up_new_device(Some(vec!["d".to_string()])), None);
}

#[test]
fn failed_listing_keeps_the_snapshot() {
    let mut u = Updater::new(vec![image(MODEL, 64)], vec!["a".to_string()], 0);
    assert_eq!(u.run_look_up_new_device(None), None);
    assert_eq!(u.run_look_up_new_device(Some(vec!["a".to_string()])), None);
    assert_eq!(u.run_look_up_new_device(Some(vec!["a".to_string(), "b".to_string()])), Some("b".to_string()));
}

#[test]
fn unmatched_model_stops_the_session() {
    let mut u = connected(vec![image(MODEL, 64)]);
    let step = u.run_check_device_information(10, false, 0, info(MODEL + 1, ModeUpdate::Ready));
    assert!(!step.refresh_ports);
    assert_eq!(*u.get_sequence(), Sequence::NoMatchedFirmwareFile);
    assert_eq!(u.get_message_status(), "Can't find matched firmware file");
    assert_eq!(u.get_message_version(), "");
}

#[test]
fn matching_image_is_the_first_with_the_model() {
    let files = vec![image(MODEL + 1, 32), image(MODEL, 64), image(MODEL, 96)];
    assert_eq!(find_matched_firmware_file(&files, MODEL), Some(1));
    assert_eq!(find_matched_firmware_file(&files, MODEL + 2), None);
    let mut u = connected(files);
    u.run_check_device_information(10, false, 0, info(MODEL, ModeUpdate::Update));
    assert_eq!(*u.get_sequence(), Sequence::CheckUpdateLocation);
    assert_eq!(u.get_message_version(), "21.1.7 -> 22.6.2");
}

#[test]
fn application_mode_asks_for_bootloader() {
    let mut u = connected(vec![image(MODEL, 64)]);
    u.run_check_device_information(10, false, 0, info(MODEL, ModeUpdate::RunApplication));
    assert_eq!(*u.get_sequence(), Sequence::ApplicationMode);
    assert_eq!(u.get_message_status(), "Reconnect with bootloader mode");
}

#[test]
fn finished_device_completes_the_session() {
    let mut u = connected(vec![image(MODEL, 64)]);
    u.run_check_device_information(10, false, 0, info(MODEL, ModeUpdate::Complete));
    assert_eq!(*u.get_sequence(), Sequence::UpdateComplete);
    assert_eq!(u.get_message_status(), "Update Complete");
}

#[test]
fn reply_without_model_is_ignored() {
    let mut u = connected(vec![image(MODEL, 64)]);
    u.run_check_device_information(10, false, 0, info(0, ModeUpdate::Ready));
    assert_eq!(*u.get_sequence(), Sequence::CheckDeviceInformation);
    u.run_check_device_information(20, false, 0, info(MODEL, ModeUpdate::Failed));
    assert_eq!(*u.get_sequence(), Sequence::CheckDeviceInformation);
}

#[test]
fn handshake_timeout_returns_to_discovery() {
    let mut u = connected(vec![image(MODEL, 64)]);
    let step = u.run_check_device_information(1200, true, 3, Reply::Nothing);
    assert!(step.frame.is_some());
    assert!(!step.refresh_ports);
    assert_eq!(*u.get_sequence(), Sequence::CheckDeviceInformation);
    let step = u.run_check_device_information(1201, false, 3, Reply::Nothing);
    assert!(step.frame.is_none());
    assert!(step.refresh_ports);
    assert_eq!(*u.get_sequence(), Sequence::LookUpNewDevice);
    u.create_port_list(vec!["ttyUSB0".to_string()]);
    assert_eq!(u.run_look_up_new_device(Some(vec!["ttyUSB0".to_string()])), None);
}

#[test]
fn location_handshake_times_out() {
    let mut u = connected(vec![image(MODEL, 64)]);
    u.run_check_device_information(100, false, 0, info(MODEL, ModeUpdate::Ready));
    let step = u.run_check_update_location(1300, true, Reply::Nothing);
    assert!(step.frame.is_some());
    assert_eq!(*u.get_sequence(), Sequence::CheckUpdateLocation);
    let step = u.run_check_update_location(1301, false, Reply::Nothing);
    assert!(step.refresh_ports);
    assert_eq!(*u.get_sequence(), Sequence::LookUpNewDevice);
}

#[test]
fn probing_cycles_through_eight_device_types() {
    let expected = [0x10u8, 0x20, 0x30, 0x31, 0x32, 0x33, 0xA0, 0xA1];
    for k in 0..16u128 {
        assert_eq!(probe_device_type(k), expected[(k % 8) as usize]);
    }
    let mut u = connected(vec![image(MODEL, 64)]);
    let step = u.run_check_device_information(10, true, 5, Reply::Nothing);
    assert_eq!(step.frame, Some(request_frame(0x33, 0x07)));
}

#[test]
fn frames_wrap_payloads() {
    assert_eq!(request_payload(0x07), vec![0x07]);
    let f = request_frame(0x10, 0x07);
    assert_eq!(f.len(), 9);
    assert_eq!(&f[0..7], &[0x0A, 0x55, 0x04, 0x01, 0x70, 0x10, 0x07]);
    let payload = update_payload(0x0102, &vec![9, 8, 7]);
    assert_eq!(payload, vec![0x02, 0x01, 9, 8, 7]);
    let f = update_frame(0x20, 0x0102, &vec![9, 8, 7]);
    assert_eq!(f.len(), 13);
    assert_eq!(&f[0..11], &[0x0A, 0x55, 0x08, 0x05, 0x70, 0x20, 0x02, 0x01, 9, 8, 7]);
}

#[test]
fn blocks_are_cut_at_the_end_of_the_image() {
    let img = image(MODEL, 40);
    assert_eq!(img.block_count(), 2);
    assert_eq!(img.get_data_block(0, 2), Some((0..32).map(|i| i as u8).collect::<Vec<u8>>()));
    assert_eq!(img.get_data_block(2, 2), Some((32..40).map(|i| i as u8).collect::<Vec<u8>>()));
    assert_eq!(img.get_data_block(3, 2), None);
    assert!(img.matches(MODEL));
    assert!(!img.matches(MODEL + 1));
}

#[test]
fn transfer_sends_the_blocks_at_the_device_position() {
    let mut u = transferring(1);
    let step = u.run_firmware_update(30, false, Reply::Nothing);
    let blocks: Vec<u8> = (16..48).map(|i| i as u8).collect();
    assert_eq!(step.frame, Some(update_frame(0x10, 1, &blocks)));
    let t = u.get_transfer();
    assert_eq!((t.index_sent, t.index_next, t.count_error, t.success), (1, 1, 0, false));
}

#[test]
fn failures_count_and_acknowledgement_resets() {
    let mut u = transferring(1);
    u.run_firmware_update(30, false, Reply::Nothing);
    let step = u.run_firmware_update(40, false, Reply::Nothing);
    assert!(step.frame.is_none());
    assert_eq!(u.get_transfer().count_error, 0);
    u.run_firmware_update(50, true, Reply::Nothing);
    assert_eq!(u.get_transfer().count_error, 1);
    u.run_firmware_update(60, true, Reply::UpdateLocation { index_block_next: 1 });
    assert_eq!(u.get_transfer().count_error, 2);
    u.run_firmware_update(70, false, Reply::UpdateLocation { index_block_next: 3 });
    let t = u.get_transfer();
    assert_eq!((t.count_error, t.success, t.index_next), (0, true, 3));
}

#[test]
fn thirty_one_unacknowledged_sends_give_no_answer() {
    let mut u = transferring(1);
    u.run_firmware_update(30, false, Reply::Nothing);
    for k in 0..30u64 {
        u.run_firmware_update(40 + k, true, Reply::Nothing);
    }
    assert_eq!(u.get_transfer().count_error, 30);
    assert_eq!(*u.get_sequence(), Sequence::FirmwareUpdate);
    u.run_firmware_update(100, true, Reply::Nothing);
    assert_eq!(*u.get_sequence(), Sequence::NoAnswer);
    let step = u.run(110, Reply::UpdateLocation { index_block_next: 5 });
    assert!(step.frame.is_none());
    assert_eq!(*u.get_sequence(), Sequence::NoAnswer);
}

#[test]
fn reads_past_the_end_still_count_failures() {
    let mut u = transferring(10);
    let step = u.run_firmware_update(30, false, Reply::Nothing);
    assert!(step.frame.is_none());
    for k in 0..31u64 {
        u.run_firmware_update(40 + k, true, Reply::Nothing);
    }
    assert_eq!(*u.get_sequence(), Sequence::NoAnswer);
}

#[test]
fn device_report_completes_the_transfer() {
    let mut u = transferring(1);
    u.run_firmware_update(30, false, info(MODEL, ModeUpdate::Complete));
    assert_eq!(*u.get_sequence(), Sequence::UpdateComplete);
    assert_eq!(u.get_message_status(), "Update Complete");
}

#[test]
fn transfer_timeout_prevails() {
    let mut u = transferring(1);
    u.run_firmware_update(300020, false, Reply::Nothing);
    assert_eq!(*u.get_sequence(), Sequence::FirmwareUpdate);
    u.run_firmware_update(300021, false, info(MODEL, ModeUpdate::Complete));
    assert_eq!(*u.get_sequence(), Sequence::UpdateTimeOver);
}

#[test]
fn progress_is_reported_only_while_transferring() {
    let mut u = transferring(0);
    assert_eq!(u.get_update_information(20), (0, 0, 0, 0));
    u.run_firmware_update(30, false, Reply::UpdateLocation { index_block_next: 5 });
    u.run_firmware_update(1020, false, Reply::Nothing);
    assert_eq!(u.get_transfer().index_sent, 5);
    assert_eq!(u.get_update_information(1020), (2000, 1000, 1000, 50));
    u.run_firmware_update(1030, false, Reply::UpdateLocation { index_block_next: 9 });
    u.run_firmware_update(2020, false, Reply::Nothing);
    assert_eq!(u.get_transfer().index_sent, 9);
    assert_eq!(u.get_update_information(2020), (2222, 2000, 222, 90));
    let idle = Updater::new(vec![image(MODEL, 64)], vec![], 0);
    assert_eq!(idle.get_update_information(500), (0, 0, 0, 0));
}

#[test]
fn block_count_keeps_sixteen_bits() {
    let img = image(MODEL, 16 * 65537);
    assert_eq!(img.block_count(), 1);
    assert_eq!(image(MODEL, 15).block_count(), 0);
}

#[test]
fn progress_of_an_image_without_whole_blocks_is_zero() {
    let mut u = connected(vec![image(MODEL, 8)]);
    u.run_check_device_information(10, false, 0, info(MODEL, ModeUpdate::Ready));
    u.run_check_update_location(20, false, Reply::UpdateLocation { index_block_next: 0 });
    let step = u.run_firmware_update(30, false, Reply::Nothing);
    assert!(step.frame.is_some());
    assert_eq!(u.get_update_information(530), (0, 510, 0, 0));
}

#[test]
fn resumed_transfer_projects_from_the_block_sent() {
    let mut u = transferring(3);
    u.run_firmware_update(30, false, Reply::Nothing);
    assert_eq!(u.get_update_information(1020), (3333, 1000, 2333, 30));
}

#[test]
fn progress_reaches_one_hundred_at_the_block_count() {
    let mut u = connected(vec![image(MODEL, 168)]);
    u.run_check_device_information(10, false, 0, info(MODEL, ModeUpdate::Ready));
    u.run_check_update_location(20, false, Reply::UpdateLocation { index_block_next: 8 });
    u.run_firmware_update(30, false, Reply::UpdateLocation { index_block_next: 10 });
    let step = u.run_firmware_update(40, false, Reply::Nothing);
    assert_eq!(step.frame, Some(update_frame(0x10, 10, &(160..168).map(|i| i as u8).collect())));
    assert_eq!(u.get_update_information(1020).3, 100);
}
