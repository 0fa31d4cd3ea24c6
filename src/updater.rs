use vstd::prelude::*;
use cellaxon_base::tool::ticker::Ticker;
use crate::firmware::{FirmwareImage, block_range, find_matched_firmware_file};
use crate::ports::{lookup_new_device, names, new_port};
use crate::protocol::{
    DATA_INFORMATION, DATA_UPDATE, DATA_UPDATE_LOCATION, DEVICE_BASE, Information, ModeUpdate,
    Reply, frame_of, probe_device_type, probe_target, request_frame, update_frame,
};
use crate::text::{version_change_spec, version_change_text};

verus! {

/// cellaxon_base's fixed-interval timer, carried as an opaque value.
#[verifier::external_type_specification]
#[verifier::external_body]
pub struct ExTicker(Ticker);

/// Relies on cellaxon_base's `Ticker::new`: a timer started now.
pub assume_specification[ Ticker::new ](time_interval: u32) -> Ticker;

/// Relies on cellaxon_base's `Ticker::check`: whether the next interval has
/// run out, which depends on the clock; nothing is promised of it.
pub assume_specification[ Ticker::check ](t: &mut Ticker) -> bool;

/// Milliseconds between two requests of the handshakes, and between two
/// sends of the same blocks.
pub const REQUEST_INTERVAL_MS: u32 = 200;
/// How long a handshake may wait for its answer.
pub const HANDSHAKE_TIMEOUT_MS: u64 = 1200;
/// How long the whole transfer may take.
pub const TRANSFER_TIMEOUT_MS: u64 = 300000;
/// Sends in a row without an acknowledgement that the transfer tolerates.
pub const MAX_FAILURES: u32 = 30;
/// Blocks carried by one update frame.
pub const BLOCKS_PER_SEND: u16 = 2;
/// Baud rate of the serial link.
pub const BAUD_RATE: u32 = 57600;

/// The phase of an update session.
#[derive(Clone, Copy, Debug, PartialEq, Eq, Structural)]
pub enum Sequence {
    /// Waiting for a new serial port to appear.
    LookUpNewDevice,
    /// Asking the device who it is.
    CheckDeviceInformation,
    /// Asking the device where the update stands.
    CheckUpdateLocation,
    /// Sending the firmware blocks.
    FirmwareUpdate,
    UpdateComplete,
    /// No firmware image was loaded.
    NoFirmwareFile,
    /// Too many sends went unacknowledged.
    NoAnswer,
    /// No image is built for the device's model.
    NoMatchedFirmwareFile,
    /// The device runs its application, not its bootloader.
    ApplicationMode,
    /// The transfer ran out of time.
    UpdateTimeOver,
}

/// Whether a session in `s` has stopped for good.
pub open spec fn is_terminal(s: Sequence) -> bool {
    match s {
        Sequence::LookUpNewDevice | Sequence::CheckDeviceInformation | Sequence::CheckUpdateLocation
        | Sequence::FirmwareUpdate => false,
        _ => true,
    }
}

/// The status text that entering `s` sets, if it sets one.
pub open spec fn entry_status(s: Sequence) -> Option<Seq<char>> {
    match s {
        Sequence::UpdateComplete => Some("Update Complete"@),
        Sequence::NoFirmwareFile => Some("No Firmware File"@),
        Sequence::NoMatchedFirmwareFile => Some("Can't find matched firmware file"@),
        Sequence::ApplicationMode => Some("Reconnect with bootloader mode"@),
        _ => None,
    }
}

/// Milliseconds from `start` to `now`; zero if the clock went backwards.
pub open spec fn elapsed(now: u64, start: u64) -> nat {
    if now > start {
        (now - start) as nat
    } else {
        0
    }
}

/// The bookkeeping of the block transfer.
#[derive(Clone, Copy, Debug, PartialEq, Eq, Structural)]
pub struct Transfer {
    /// The block index of the last update frame sent.
    pub index_sent: u16,
    /// The next block that the device last said it expects.
    pub index_next: u16,
    /// Sends in a row that went unacknowledged.
    pub count_error: u32,
    /// Whether the last send was acknowledged.
    pub success: bool,
}

/// The transfer bookkeeping on entry to the transfer, from the device's
/// reported position.
pub open spec fn transfer_start(index_next: u16) -> Transfer {
    Transfer { index_sent: 0, index_next, count_error: 0, success: true }
}

/// The fire count after a timer check that `fired` or not.
pub open spec fn next_count(count: u128, fired: bool) -> u128 {
    if !fired {
        count
    } else if count == u128::MAX {
        0
    } else {
        (count + 1) as u128
    }
}

/// Whether a step with the trigger in state `fired` sends blocks.
pub open spec fn send_due(t: Transfer, fired: bool) -> bool {
    t.success || fired
}

/// The bookkeeping after the send phase of a step; `readable` says whether
/// the blocks at the device's position could be read.
pub open spec fn after_send(t: Transfer, fired: bool, readable: bool) -> Transfer {
    if send_due(t, fired) {
        Transfer {
            index_sent: if readable { t.index_next } else { t.index_sent },
            index_next: t.index_next,
            count_error: if t.success { t.count_error } else { (t.count_error + 1) as u32 },
            success: false,
        }
    } else {
        t
    }
}

/// Whether `reply` acknowledges the last send: a position other than the
/// one last sent.
pub open spec fn is_ack(t: Transfer, reply: Reply) -> bool {
    match reply {
        Reply::UpdateLocation { index_block_next } => index_block_next != t.index_sent,
        _ => false,
    }
}

/// The bookkeeping after the receive phase of a step.
pub open spec fn after_reply(t: Transfer, reply: Reply) -> Transfer {
    match reply {
        Reply::UpdateLocation { index_block_next } => if index_block_next != t.index_sent {
            Transfer {
                index_sent: t.index_sent,
                index_next: index_block_next,
                count_error: 0,
                success: true,
            }
        } else {
            t
        },
        _ => t,
    }
}

/// Whether `reply` reports that the device finished its update.
pub open spec fn reports_complete(reply: Reply) -> bool {
    match reply {
        Reply::Information { from, information } => information.mode_update == ModeUpdate::Complete,
        _ => false,
    }
}

/// The phase after a transfer step whose bookkeeping ended as `t`, `ms`
/// milliseconds after the transfer began.
pub open spec fn transfer_outcome(t: Transfer, reply: Reply, ms: nat) -> Sequence {
    if ms > TRANSFER_TIMEOUT_MS {
        Sequence::UpdateTimeOver
    } else if t.count_error > MAX_FAILURES {
        Sequence::NoAnswer
    } else if reports_complete(reply) {
        Sequence::UpdateComplete
    } else {
        Sequence::FirmwareUpdate
    }
}

/// The phase after the device answered the identity request with `info`;
/// `matched` says whether an image is built for its model.
pub open spec fn identity_outcome(info: Information, matched: bool) -> Sequence {
    if info.model_number == 0 {
        Sequence::CheckDeviceInformation
    } else {
        match info.mode_update {
            ModeUpdate::Ready | ModeUpdate::Update => if matched {
                Sequence::CheckUpdateLocation
            } else {
                Sequence::NoMatchedFirmwareFile
            },
            ModeUpdate::Complete => Sequence::UpdateComplete,
            ModeUpdate::RunApplication => Sequence::ApplicationMode,
            _ => Sequence::CheckDeviceInformation,
        }
    }
}

/// Whether one of `files` is built for `model_number`.
pub open spec fn has_image(files: Seq<FirmwareImage>, model_number: u32) -> bool {
    exists|j: int| 0 <= j < files.len() && #[trigger] files[j].model_number == model_number
}

/// The phase that `reply` leads the identity handshake to.
pub open spec fn answer_outcome(files: Seq<FirmwareImage>, reply: Reply) -> Sequence {
    match reply {
        Reply::Information { from, information } => identity_outcome(
            information,
            has_image(files, information.model_number),
        ),
        _ => Sequence::CheckDeviceInformation,
    }
}

/// Percent of the image sent, rounded down; zero for an image without
/// whole blocks.
pub open spec fn percent_spec(index_sent: nat, block_end: nat) -> nat {
    if block_end == 0 {
        0
    } else {
        index_sent * 100 / block_end
    }
}

/// Projected length of the whole transfer from the time spent so far and
/// the share of the image sent; zero while that share is zero.
pub open spec fn projected_total(ms: nat, index_sent: nat, block_end: nat) -> nat {
    if index_sent == 0 {
        0
    } else {
        ms * block_end / index_sent
    }
}

/// What a step asks the caller to do on the serial side.
pub struct Step {
    /// A frame to write to the port.
    pub frame: Option<Vec<u8>>,
    /// The session went back to looking for a device: the caller hands it
    /// the current port list through `create_port_list`.
    pub refresh_ports: bool,
}

/// A firmware update session with one attached device.
pub struct Updater {
    sequence: Sequence,
    files: Vec<FirmwareImage>,
    ports: Vec<String>,
    ticker: Ticker,
    /// Times the request timer fired since the phase began.
    fire_count: u128,
    device_type_target: u8,
    information_target: Information,
    index_target: usize,
    index_block_end: u16,
    message_status: String,
    message_version: String,
    transfer: Transfer,
    time_sequence_start: u64,
}

impl Updater {
    pub closed spec fn sequence_spec(&self) -> Sequence {
        self.sequence
    }

    pub closed spec fn files_spec(&self) -> Seq<FirmwareImage> {
        self.files@
    }

    pub closed spec fn ports_spec(&self) -> Seq<Seq<char>> {
        names(self.ports@)
    }

    pub closed spec fn status_spec(&self) -> Seq<char> {
        self.message_status@
    }

    pub closed spec fn version_text_spec(&self) -> Seq<char> {
        self.message_version@
    }

    pub closed spec fn transfer_spec(&self) -> Transfer {
        self.transfer
    }

    /// Start of the current phase, in the caller's milliseconds.
    pub closed spec fn phase_start(&self) -> u64 {
        self.time_sequence_start
    }

    /// The device type that the session talks to.
    pub closed spec fn target_spec(&self) -> u8 {
        self.device_type_target
    }

    /// Times the request timer fired since the current phase began.
    pub closed spec fn fire_count_spec(&self) -> u128 {
        self.fire_count
    }

    /// This session with its fire count set to `count`.
    pub closed spec fn with_count(&self, count: u128) -> Updater {
        Updater { fire_count: count, ..*self }
    }

    /// What the device last reported about itself.
    pub closed spec fn information_spec(&self) -> Information {
        self.information_target
    }

    /// The image chosen for the device, once one is.
    pub closed spec fn selected_spec(&self) -> nat {
        self.index_target as nat
    }

    pub closed spec fn block_end_spec(&self) -> u16 {
        self.index_block_end
    }

    /// The session's invariant: an image is chosen before the location
    /// handshake, and a running transfer has not spent its failure budget.
    pub closed spec fn wf(&self) -> bool {
        &&& (self.sequence == Sequence::CheckUpdateLocation || self.sequence == Sequence::FirmwareUpdate)
            ==> self.index_target < self.files@.len()
        &&& self.sequence == Sequence::FirmwareUpdate ==> self.transfer.count_error <= MAX_FAILURES
        &&& (self.sequence == Sequence::LookUpNewDevice || self.sequence == Sequence::CheckDeviceInformation
            || self.sequence == Sequence::CheckUpdateLocation) ==> self.transfer.index_sent == 0
            && self.transfer.count_error == 0
    }

    /// Everything but the phase, its start, the status text and the
    /// transfer bookkeeping is the same in `self` and `o`.
    pub closed spec fn same_session(&self, o: &Updater) -> bool {
        &&& self.files@ == o.files@
        &&& self.ports@ == o.ports@
        &&& self.device_type_target == o.device_type_target
        &&& self.information_target == o.information_target
        &&& self.index_target == o.index_target
        &&& self.index_block_end == o.index_block_end
        &&& self.message_version@ == o.message_version@
    }

    /// A session over the loaded `files`, with `ports` as the ports already
    /// present; it waits for a new port, or stops at once without images.
    pub fn new(files: Vec<FirmwareImage>, ports: Vec<String>, now_ms: u64) -> (r: Updater)
        ensures
            r.wf(),
            r.files_spec() == files@,
            r.ports_spec() == names(ports@),
            r.sequence_spec() == (if files@.len() > 0 {
                Sequence::LookUpNewDevice
            } else {
                Sequence::NoFirmwareFile
            }),
            r.status_spec() == (if files@.len() > 0 {
                Seq::<char>::empty()
            } else {
                "No Firmware File"@
            }),
            r.version_text_spec() == Seq::<char>::empty(),
            r.phase_start() == now_ms,
            r.fire_count_spec() == 0,
            r.transfer_spec() == transfer_start(0),
    {
        let mut updater = Updater {
            sequence: Sequence::LookUpNewDevice,
            files,
            ports,
            ticker: Ticker::new(REQUEST_INTERVAL_MS),
            fire_count: 0,
            device_type_target: 0,
            information_target: Information {
                mode_update: ModeUpdate::NoMode,
                model_number: 0,
                version: crate::firmware::Version { major: 21, minor: 1, build: 1 },
            },
            index_target: 0,
            index_block_end: 0,
            message_status: String::new(),
            message_version: String::new(),
            transfer: Transfer { index_sent: 0, index_next: 0, count_error: 0, success: true },
            time_sequence_start: now_ms,
        };
        if !updater.is_exists_firmware_file() {
            updater.set_sequence(Sequence::NoFirmwareFile, now_ms);
        }
        updater
    }

    fn is_exists_firmware_file(&self) -> (r: bool)
        ensures
            r == (self.files@.len() > 0),
    {
        self.files.len() > 0
    }

    /// The status text for the display.
    pub fn get_message_status(&self) -> (r: &str)
        ensures
            r@ == self.status_spec(),
    {
        self.message_status.as_str()
    }

    /// The version change of the update, `from -> to`, once an image is
    /// chosen.
    pub fn get_message_version(&self) -> (r: &str)
        ensures
            r@ == self.version_text_spec(),
    {
        self.message_version.as_str()
    }

    /// The transfer bookkeeping: positions sent and acknowledged, and the
    /// failures in a row.
    pub fn get_transfer(&self) -> (r: Transfer)
        ensures
            r == self.transfer_spec(),
    {
        self.transfer
    }

    pub fn get_sequence(&self) -> (r: &Sequence)
        ensures
            *r == self.sequence_spec(),
    {
        &self.sequence
    }

    /// Enters `sequence`: restarts the request timer, its fire count and the
    /// phase clock, sets the status text of the phase, and marks the last
    /// send as acknowledged when the transfer begins.
    fn set_sequence(&mut self, sequence: Sequence, now_ms: u64)
        ensures
            final(self).sequence == sequence,
            final(self).time_sequence_start == now_ms,
            final(self).fire_count == 0,
            final(self).message_status@ == (match entry_status(sequence) {
                Some(t) => t,
                None => old(self).message_status@,
            }),
            final(self).transfer == (if sequence == Sequence::FirmwareUpdate {
                Transfer { success: true, ..old(self).transfer }
            } else {
                old(self).transfer
            }),
            final(self).same_session(&*old(self)),
    {
        match sequence {
            Sequence::FirmwareUpdate => {
                self.transfer.success = true;
            },
            Sequence::UpdateComplete => {
                self.message_status = "Update Complete".to_string();
            },
            Sequence::NoFirmwareFile => {
                self.message_status = "No Firmware File".to_string();
            },
            Sequence::NoMatchedFirmwareFile => {
                self.message_status = "Can't find matched firmware file".to_string();
            },
            Sequence::ApplicationMode => {
                self.message_status = "Reconnect with bootloader mode".to_string();
            },
            _ => {},
        }
        self.ticker = Ticker::new(REQUEST_INTERVAL_MS);
        self.fire_count = 0;
        self.time_sequence_start = now_ms;
        self.sequence = sequence;
    }
}

impl Updater {
    /// What one step of the identity handshake leaves, from `o` to `n`.
    pub open spec fn identity_step(o: Updater, n: Updater, now_ms: u64, fired: bool, fire_count: u128, reply: Reply, r: Step) -> bool {
        &&& (match r.frame {
                Some(f) => fired && f@ == frame_of(
                    crate::protocol::DATA_REQUEST,
                    DEVICE_BASE,
                    probe_target(fire_count as nat),
                    seq![DATA_INFORMATION],
                ),
                None => !fired,
            })
        &&& (n.files_spec() == o.files_spec())
        &&& (n.transfer_spec() == o.transfer_spec())
        &&& ({
                let answered = answer_outcome(o.files_spec(), reply);
                if answered != Sequence::CheckDeviceInformation {
                    &&& n.sequence_spec() == answered
                    &&& n.phase_start() == now_ms
                    &&& !r.refresh_ports
                    &&& n.ports_spec() == o.ports_spec()
                } else if elapsed(now_ms, o.phase_start()) > HANDSHAKE_TIMEOUT_MS {
                    &&& n.sequence_spec() == Sequence::LookUpNewDevice
                    &&& n.phase_start() == now_ms
                    &&& r.refresh_ports
                    &&& n.ports_spec() == o.ports_spec()
                } else {
                    &&& n.sequence_spec() == Sequence::CheckDeviceInformation
                    &&& n.phase_start() == o.phase_start()
                    &&& !r.refresh_ports
                    &&& n.ports_spec() == o.ports_spec()
                }
            })
        &&& (reply matches Reply::Information { from, information } ==> n.target_spec() == from
            && n.information_spec() == information)
        &&& (!(reply is Information) ==> n.target_spec() == o.target_spec() && n.information_spec()
            == o.information_spec())
        &&& (n.sequence_spec() != Sequence::CheckUpdateLocation ==> {
            &&& n.selected_spec() == o.selected_spec()
            &&& n.block_end_spec() == o.block_end_spec()
            &&& n.version_text_spec() == o.version_text_spec()
        })
        &&& (n.sequence_spec() == Sequence::CheckUpdateLocation ==> (reply matches Reply::Information {
                from,
                information,
            } && {
                let i = n.selected_spec() as int;
                &&& 0 <= i < o.files_spec().len()
                &&& o.files_spec()[i].model_number == information.model_number
                &&& forall|j: int| 0 <= j < i ==> o.files_spec()[j].model_number != information.model_number
                &&& n.block_end_spec() == o.files_spec()[i].block_count_spec()
                &&& n.version_text_spec() == version_change_spec(information.version, o.files_spec()[i].version)
            }))
        &&& (n.sequence_spec() == Sequence::NoMatchedFirmwareFile ==> (reply matches Reply::Information {
                from,
                information,
            } && forall|j: int| 0 <= j < o.files_spec().len()
                ==> o.files_spec()[j].model_number != information.model_number))
        &&& (entry_status(n.sequence_spec()) matches Some(t) ==> n.status_spec() == t)
        &&& (entry_status(n.sequence_spec()) is None ==> n.status_spec() == o.status_spec())
        &&& (n.sequence_spec() != o.sequence_spec() ==> n.fire_count_spec() == 0)
        &&& (n.sequence_spec() == o.sequence_spec() ==> n.fire_count_spec() == o.fire_count_spec())
    }

    /// What one step of the location handshake leaves, from `o` to `n`.
    pub open spec fn location_step(o: Updater, n: Updater, now_ms: u64, fired: bool, reply: Reply, r: Step) -> bool {
        &&& (match r.frame {
                Some(f) => fired && f@ == frame_of(
                    crate::protocol::DATA_REQUEST,
                    DEVICE_BASE,
                    o.target_spec(),
                    seq![DATA_UPDATE_LOCATION],
                ),
                None => !fired,
            })
        &&& (n.files_spec() == o.files_spec())
        &&& (n.ports_spec() == o.ports_spec())
        &&& (n.selected_spec() == o.selected_spec())
        &&& (n.target_spec() == o.target_spec())
        &&& (n.status_spec() == o.status_spec())
        &&& (n.block_end_spec() == o.block_end_spec())
        &&& (n.version_text_spec() == o.version_text_spec())
        &&& (n.information_spec() == o.information_spec())
        &&& (if let Reply::UpdateLocation { index_block_next } = reply {
                &&& n.sequence_spec() == Sequence::FirmwareUpdate
                &&& n.transfer_spec() == transfer_start(index_block_next)
                &&& n.phase_start() == now_ms
                &&& !r.refresh_ports
            } else if elapsed(now_ms, o.phase_start()) > HANDSHAKE_TIMEOUT_MS {
                &&& n.sequence_spec() == Sequence::LookUpNewDevice
                &&& n.transfer_spec() == o.transfer_spec()
                &&& n.phase_start() == now_ms
                &&& r.refresh_ports
            } else {
                &&& n.sequence_spec() == Sequence::CheckUpdateLocation
                &&& n.transfer_spec() == o.transfer_spec()
                &&& n.phase_start() == o.phase_start()
                &&& !r.refresh_ports
            })
        &&& (n.sequence_spec() != o.sequence_spec() ==> n.fire_count_spec() == 0)
        &&& (n.sequence_spec() == o.sequence_spec() ==> n.fire_count_spec() == o.fire_count_spec())
    }

    /// What one step of the transfer leaves, from `o` to `n`.
    pub open spec fn transfer_step(o: Updater, n: Updater, now_ms: u64, fired: bool, reply: Reply, r: Step) -> bool {
        &&& ({
                let t0 = o.transfer_spec();
                let data = o.files_spec()[o.selected_spec() as int].data@;
                let range = block_range(data.len(), t0.index_next as nat, BLOCKS_PER_SEND as nat);
                let t1 = after_send(t0, fired, range is Some);
                let t2 = after_reply(t1, reply);
                &&& n.transfer_spec() == t2
                &&& n.sequence_spec() == transfer_outcome(t2, reply, elapsed(now_ms, o.phase_start()))
                &&& match r.frame {
                    Some(f) => send_due(t0, fired) && (range matches Some((start, end)) && f@ == frame_of(
                        DATA_UPDATE,
                        DEVICE_BASE,
                        o.target_spec(),
                        seq![(t0.index_next % 256) as u8, (t0.index_next / 256) as u8]
                            + data.subrange(start as int, end as int),
                    )),
                    None => !(send_due(t0, fired) && range is Some),
                }
            })
        &&& (n.sequence_spec() != Sequence::FirmwareUpdate ==> n.phase_start() == now_ms)
        &&& (n.sequence_spec() == Sequence::FirmwareUpdate ==> n.phase_start() == o.phase_start())
        &&& (entry_status(n.sequence_spec()) matches Some(t) ==> n.status_spec() == t)
        &&& (entry_status(n.sequence_spec()) is None ==> n.status_spec() == o.status_spec())
        &&& (!r.refresh_ports)
        &&& (n.files_spec() == o.files_spec())
        &&& (n.ports_spec() == o.ports_spec())
        &&& (n.selected_spec() == o.selected_spec())
        &&& (n.block_end_spec() == o.block_end_spec())
        &&& (n.target_spec() == o.target_spec())
        &&& (n.version_text_spec() == o.version_text_spec())
        &&& (n.information_spec() == o.information_spec())
        &&& (n.sequence_spec() != o.sequence_spec() ==> n.fire_count_spec() == 0)
        &&& (n.sequence_spec() == o.sequence_spec() ==> n.fire_count_spec() == o.fire_count_spec())
    }
}

impl Updater {
    /// Replaces the port snapshot by the current port list.
    pub fn create_port_list(&mut self, ports_now: Vec<String>)
        ensures
            final(self).ports_spec() == names(ports_now@),
            final(self).sequence_spec() == old(self).sequence_spec(),
            final(self).phase_start() == old(self).phase_start(),
            final(self).status_spec() == old(self).status_spec(),
            final(self).transfer_spec() == old(self).transfer_spec(),
            final(self).files_spec() == old(self).files_spec(),
            final(self).target_spec() == old(self).target_spec(),
            final(self).information_spec() == old(self).information_spec(),
            final(self).selected_spec() == old(self).selected_spec(),
            final(self).block_end_spec() == old(self).block_end_spec(),
            final(self).version_text_spec() == old(self).version_text_spec(),
            final(self).fire_count_spec() == old(self).fire_count_spec(),
            final(self).wf() == old(self).wf(),
    {
        self.ports = ports_now;
    }

    /// While looking for a device: compares the current port list with the
    /// snapshot, takes it as the new snapshot, and names the port to open, if
    /// a new one appeared. `None` stands for a listing that failed: the
    /// snapshot then stays. In any other phase it does nothing.
    pub fn run_look_up_new_device(&mut self, ports_now: Option<Vec<String>>) -> (r: Option<String>)
        requires
            old(self).wf(),
        ensures
            final(self).wf(),
            final(self).sequence_spec() == old(self).sequence_spec(),
            final(self).phase_start() == old(self).phase_start(),
            final(self).status_spec() == old(self).status_spec(),
            old(self).sequence_spec() == Sequence::LookUpNewDevice ==> match ports_now {
                Some(now) => {
                    &&& final(self).ports_spec() == names(now@)
                    &&& match new_port(old(self).ports_spec(), names(now@)) {
                        Some(n) => r is Some && r->0@ == n,
                        None => r is None,
                    }
                },
                None => r is None && final(self).ports_spec() == old(self).ports_spec(),
            },
            old(self).sequence_spec() != Sequence::LookUpNewDevice ==> r is None
                && final(self).ports_spec() == old(self).ports_spec(),
    {
        if self.sequence == Sequence::LookUpNewDevice {
            match ports_now {
                Some(now) => lookup_new_device(&mut self.ports, now),
                None => None,
            }
        } else {
            None
        }
    }

    /// Takes the result of opening the port that `run_look_up_new_device`
    /// named: once open, the identity handshake begins; otherwise the snapshot
    /// becomes `ports_now` and the search goes on. In any other phase it does
    /// nothing.
    pub fn on_port_open(&mut self, opened: bool, ports_now: Vec<String>, now_ms: u64)
        requires
            old(self).wf(),
        ensures
            final(self).wf(),
            old(self).sequence_spec() == Sequence::LookUpNewDevice ==> {
                &&& final(self).sequence_spec() == (if opened {
                    Sequence::CheckDeviceInformation
                } else {
                    Sequence::LookUpNewDevice
                })
                &&& final(self).phase_start() == now_ms
                &&& final(self).fire_count_spec() == 0
                &&& final(self).ports_spec() == (if opened {
                    old(self).ports_spec()
                } else {
                    names(ports_now@)
                })
            },
            old(self).sequence_spec() != Sequence::LookUpNewDevice ==> *final(self) == *old(self),
    {
        if self.sequence == Sequence::LookUpNewDevice {
            if opened {
                self.set_sequence(Sequence::CheckDeviceInformation, now_ms);
            } else {
                self.create_port_list(ports_now);
                self.set_sequence(Sequence::LookUpNewDevice, now_ms);
            }
        }
    }

    /// Chooses image `index` for the device: its block count and the
    /// version change text.
    fn select_firmware(&mut self, index: usize)
        requires
            index < old(self).files@.len(),
        ensures
            final(self).index_target == index,
            final(self).index_block_end == old(self).files@[index as int].block_count_spec(),
            final(self).message_version@ == version_change_spec(
                old(self).information_target.version,
                old(self).files@[index as int].version,
            ),
            final(self).sequence == old(self).sequence,
            final(self).time_sequence_start == old(self).time_sequence_start,
            final(self).message_status@ == old(self).message_status@,
            final(self).transfer == old(self).transfer,
            final(self).files@ == old(self).files@,
            final(self).ports@ == old(self).ports@,
            final(self).device_type_target == old(self).device_type_target,
            final(self).information_target == old(self).information_target,
    {
        self.index_target = index;
        self.index_block_end = self.files[index].block_count();
        self.message_version = version_change_text(self.information_target.version, self.files[index].version);
    }

    /// One step of the identity handshake. When the request timer `fired`
    /// (for the `fire_count`-th time), it asks the next device type in turn
    /// for its information. An answer with a model decides the next phase:
    /// a device ready for update goes on to the location handshake with the
    /// first image built for its model, or stops when there is none; a
    /// finished update or a running application stops the session. Without
    /// such an answer for more than the handshake timeout, the session goes
    /// back to looking for a device.
    pub fn run_check_device_information(&mut self, now_ms: u64, fired: bool, fire_count: u128, reply: Reply) -> (r: Step)
        requires
            old(self).wf(),
            old(self).sequence_spec() == Sequence::CheckDeviceInformation,
        ensures
            final(self).wf(),
            Self::identity_step(*old(self), *final(self), now_ms, fired, fire_count, reply, r),
    {
        let ghost files0 = self.files@;
        let mut frame: Option<Vec<u8>> = None;
        if fired {
            frame = Some(request_frame(probe_device_type(fire_count), DATA_INFORMATION));
        }
        if let Reply::Information { from, information } = reply {
            self.information_target = information;
            self.device_type_target = from;
            if information.model_number != 0 {
                match information.mode_update {
                    ModeUpdate::Ready | ModeUpdate::Update => {
                        match find_matched_firmware_file(&self.files, information.model_number) {
                            Some(i) => {
                                assert(self.files@[i as int].model_number == information.model_number);
                                self.select_firmware(i);
                                self.set_sequence(Sequence::CheckUpdateLocation, now_ms);
                            },
                            None => {
                                self.set_sequence(Sequence::NoMatchedFirmwareFile, now_ms);
                            },
                        }
                    },
                    ModeUpdate::Complete => {
                        self.set_sequence(Sequence::UpdateComplete, now_ms);
                    },
                    ModeUpdate::RunApplication => {
                        self.set_sequence(Sequence::ApplicationMode, now_ms);
                    },
                    _ => {},
                }
            }
        }
        assert(self.sequence == answer_outcome(files0, reply));
        let mut refresh_ports = false;
        if self.sequence == Sequence::CheckDeviceInformation && now_ms > self.time_sequence_start
            && now_ms - self.time_sequence_start > HANDSHAKE_TIMEOUT_MS {
            refresh_ports = true;
            self.set_sequence(Sequence::LookUpNewDevice, now_ms);
        }
        Step { frame, refresh_ports }
    }
}

impl Updater {
    /// One step of the location handshake. When the request timer `fired`,
    /// it asks the device where the update stands. The device's answer is
    /// taken as the transfer's starting point and the transfer begins.
    /// Without one for more than the handshake timeout, the session goes
    /// back to looking for a device.
    pub fn run_check_update_location(&mut self, now_ms: u64, fired: bool, reply: Reply) -> (r: Step)
        requires
            old(self).wf(),
            old(self).sequence_spec() == Sequence::CheckUpdateLocation,
        ensures
            final(self).wf(),
            Self::location_step(*old(self), *final(self), now_ms, fired, reply, r),
    {
        let mut frame: Option<Vec<u8>> = None;
        if fired {
            frame = Some(request_frame(self.device_type_target, DATA_UPDATE_LOCATION));
        }
        if let Reply::UpdateLocation { index_block_next } = reply {
            self.transfer.index_next = index_block_next;
            self.set_sequence(Sequence::FirmwareUpdate, now_ms);
            return Step { frame, refresh_ports: false };
        }
        let mut refresh_ports = false;
        if now_ms > self.time_sequence_start && now_ms - self.time_sequence_start > HANDSHAKE_TIMEOUT_MS {
            refresh_ports = true;
            self.set_sequence(Sequence::LookUpNewDevice, now_ms);
        }
        Step { frame, refresh_ports }
    }

    /// One step of the transfer. A send is due when the last one was
    /// acknowledged or the resend timer `fired`; a due send that follows an
    /// unacknowledged one counts a failure. It carries the two blocks at the
    /// device's position, or nothing past the end of the image. A position
    /// other than the one last sent acknowledges it. The transfer stops on a
    /// report that the update is complete, after more failures in a row than
    /// the budget, and when it has run longer than its timeout, which
    /// prevails.
    pub fn run_firmware_update(&mut self, now_ms: u64, fired: bool, reply: Reply) -> (r: Step)
        requires
            old(self).wf(),
            old(self).sequence_spec() == Sequence::FirmwareUpdate,
        ensures
            final(self).wf(),
            Self::transfer_step(*old(self), *final(self), now_ms, fired, reply, r),
    {
        let ms: u64 = if now_ms > self.time_sequence_start { now_ms - self.time_sequence_start } else { 0 };
        let mut frame: Option<Vec<u8>> = None;
        if self.transfer.success || fired {
            if !self.transfer.success {
                self.transfer.count_error = self.transfer.count_error + 1;
            }
            self.transfer.success = false;
            let index: u16 = self.transfer.index_next;
            if let Some(blocks) = self.files[self.index_target].get_data_block(index, BLOCKS_PER_SEND) {
                self.transfer.index_sent = index;
                frame = Some(update_frame(self.device_type_target, index, &blocks));
            }
        }
        let mut complete = false;
        match reply {
            Reply::UpdateLocation { index_block_next } => {
                if self.transfer.index_sent != index_block_next {
                    self.transfer.count_error = 0;
                    self.transfer.success = true;
                    self.transfer.index_next = index_block_next;
                }
            },
            Reply::Information { from, information } => {
                if information.mode_update == ModeUpdate::Complete {
                    complete = true;
                }
            },
            _ => {},
        }
        if ms > TRANSFER_TIMEOUT_MS {
            self.set_sequence(Sequence::UpdateTimeOver, now_ms);
        } else if self.transfer.count_error > MAX_FAILURES {
            self.set_sequence(Sequence::NoAnswer, now_ms);
        } else if complete {
            self.set_sequence(Sequence::UpdateComplete, now_ms);
        }
        Step { frame, refresh_ports: false }
    }
}

impl Updater {
    fn counted(count: u128, fired: bool) -> (r: u128)
        ensures
            r == next_count(count, fired),
    {
        if !fired {
            count
        } else if count == u128::MAX {
            0
        } else {
            count + 1
        }
    }

    /// Advances the session by one step with the reply decoded since the last
    /// one. Looking for a device is driven by `run_look_up_new_device` and
    /// `on_port_open`; here it does nothing, as in a finished or failed
    /// session. The other phases consult the request timer and go on as
    /// their step functions say.
    pub fn run(&mut self, now_ms: u64, reply: Reply) -> (r: Step)
        requires
            old(self).wf(),
        ensures
            final(self).wf(),
            final(self).files_spec() == old(self).files_spec(),
            is_terminal(old(self).sequence_spec()) || old(self).sequence_spec() == Sequence::LookUpNewDevice
                ==> *final(self) == *old(self) && r.frame is None && !r.refresh_ports,
            is_terminal(final(self).sequence_spec()) ==> !r.refresh_ports,
            old(self).sequence_spec() == Sequence::CheckDeviceInformation ==> exists|fired: bool|
                #[trigger] Self::identity_step(
                    old(self).with_count(next_count(old(self).fire_count_spec(), fired)),
                    *final(self),
                    now_ms,
                    fired,
                    next_count(old(self).fire_count_spec(), fired),
                    reply,
                    r,
                ),
            old(self).sequence_spec() == Sequence::CheckUpdateLocation ==> exists|fired: bool|
                #[trigger] Self::location_step(
                    old(self).with_count(next_count(old(self).fire_count_spec(), fired)),
                    *final(self),
                    now_ms,
                    fired,
                    reply,
                    r,
                ),
            old(self).sequence_spec() == Sequence::FirmwareUpdate ==> exists|fired: bool|
                #[trigger] Self::transfer_step(
                    old(self).with_count(next_count(old(self).fire_count_spec(), fired)),
                    *final(self),
                    now_ms,
                    fired,
                    reply,
                    r,
                ),
    {
        let ghost o = *self;
        match self.sequence {
            Sequence::CheckDeviceInformation => {
                let fired = self.ticker.check();
                self.fire_count = Self::counted(self.fire_count, fired);
                let count = self.fire_count;
                let r = self.run_check_device_information(now_ms, fired, count, reply);
                assert(Self::identity_step(o.with_count(next_count(o.fire_count_spec(), fired)), *self, now_ms, fired, next_count(o.fire_count_spec(), fired), reply, r));
                r
            },
            Sequence::CheckUpdateLocation => {
                let fired = self.ticker.check();
                self.fire_count = Self::counted(self.fire_count, fired);
                let r = self.run_check_update_location(now_ms, fired, reply);
                assert(Self::location_step(o.with_count(next_count(o.fire_count_spec(), fired)), *self, now_ms, fired, reply, r));
                r
            },
            Sequence::FirmwareUpdate => {
                let fired = if self.transfer.success { false } else { self.ticker.check() };
                self.fire_count = Self::counted(self.fire_count, fired);
                let r = self.run_firmware_update(now_ms, fired, reply);
                assert(Self::transfer_step(o.with_count(next_count(o.fire_count_spec(), fired)), *self, now_ms, fired, reply, r));
                r
            },
            _ => Step { frame: None, refresh_ports: false },
        }
    }

    /// Progress of the transfer at `now_ms`: projected total time, time
    /// spent, time left (all in milliseconds) and percent of the image, by
    /// the position last sent.
    /// All four are zero outside the transfer.
    pub fn get_update_information(&self, now_ms: u64) -> (r: (u128, u128, u128, u32))
        ensures
            self.sequence_spec() == Sequence::FirmwareUpdate ==> {
                let ms = elapsed(now_ms, self.phase_start());
                let total = projected_total(ms, self.transfer_spec().index_sent as nat, self.block_end_spec() as nat);
                &&& r.0 == total
                &&& r.1 == ms
                &&& r.2 == if total > ms { total - ms } else { 0 }
                &&& r.3 == percent_spec(self.transfer_spec().index_sent as nat, self.block_end_spec() as nat)
            },
            self.sequence_spec() != Sequence::FirmwareUpdate ==> r == (0u128, 0u128, 0u128, 0u32),
    {
        if self.sequence == Sequence::FirmwareUpdate {
            let ms: u64 = if now_ms > self.time_sequence_start { now_ms - self.time_sequence_start } else { 0 };
            let sent: u16 = self.transfer.index_sent;
            let end: u16 = self.index_block_end;
            let total: u128 = if sent == 0 {
                0
            } else {
                assert((ms as u128) * (end as u128) <= 0xFFFF_FFFF_FFFF_FFFFu128 * 0xFFFFu128) by (nonlinear_arith)
                    requires
                        ms <= 0xFFFF_FFFF_FFFF_FFFFu64,
                        end <= 0xFFFFu16,
                ;
                (ms as u128) * (end as u128) / (sent as u128)
            };
            let left: u128 = if total > ms as u128 { total - ms as u128 } else { 0 };
            let percent: u32 = if end == 0 {
                0
            } else {
                assert((sent as u32) * 100 <= 0xFFFFu32 * 100) by (nonlinear_arith)
                    requires
                        sent <= 0xFFFFu16,
                ;
                (sent as u32) * 100 / (end as u32)
            };
            (total, ms as u128, left, percent)
        } else {
            (0, 0, 0, 0)
        }
    }
}

/// The failure counter of the transfer rises with every due send that
/// follows an unacknowledged one, and drops to zero on an acknowledgement.
pub proof fn lemma_failure_counter(t: Transfer, fired: bool, readable: bool, reply: Reply)
    requires
        t.count_error <= MAX_FAILURES,
    ensures
        send_due(t, fired) && !t.success ==> after_send(t, fired, readable).count_error > t.count_error,
        is_ack(after_send(t, fired, readable), reply) ==> after_reply(after_send(t, fired, readable), reply).count_error == 0,
        !is_ack(after_send(t, fired, readable), reply) ==> after_reply(after_send(t, fired, readable), reply)
            == after_send(t, fired, readable),
{
}

/// A well-formed session in the transfer has not spent its failure budget.
pub proof fn lemma_failure_bound(u: Updater)
    requires
        u.wf(),
        u.sequence_spec() == Sequence::FirmwareUpdate,
    ensures
        u.transfer_spec().count_error <= MAX_FAILURES,
{
}

/// The bookkeeping after `k` steps in which the resend timer fired and no
/// reply came, the blocks at the device's position being `readable` or not.
pub open spec fn resends(t: Transfer, k: nat, readable: bool) -> Transfer
    decreases k,
{
    if k == 0 {
        t
    } else {
        after_reply(after_send(resends(t, (k - 1) as nat, readable), true, readable), Reply::Nothing)
    }
}

proof fn lemma_resends_count(t: Transfer, k: nat, readable: bool)
    requires
        !t.success,
        t.count_error + k <= MAX_FAILURES + 1,
    ensures
        resends(t, k, readable).count_error == t.count_error + k,
        !resends(t, k, readable).success,
    decreases k,
{
    if k > 0 {
        lemma_resends_count(t, (k - 1) as nat, readable);
    }
}

/// From an unacknowledged send with no failure counted, a transfer with no
/// reply stays in progress through thirty resends and stops with no answer
/// at the thirty-first (while its time lasts).
pub proof fn lemma_thirty_one_resends(t: Transfer, readable: bool, ms: nat)
    requires
        !t.success,
        t.count_error == 0,
        ms <= TRANSFER_TIMEOUT_MS,
    ensures
        forall|k: nat| k <= MAX_FAILURES ==> transfer_outcome(#[trigger] resends(t, k, readable), Reply::Nothing, ms)
            == Sequence::FirmwareUpdate,
        transfer_outcome(resends(t, (MAX_FAILURES + 1) as nat, readable), Reply::Nothing, ms) == Sequence::NoAnswer,
{
    assert forall|k: nat| k <= MAX_FAILURES implies transfer_outcome(
        #[trigger] resends(t, k, readable),
        Reply::Nothing,
        ms,
    ) == Sequence::FirmwareUpdate by {
        lemma_resends_count(t, k, readable);
    }
    lemma_resends_count(t, (MAX_FAILURES + 1) as nat, readable);
}

/// A transfer step that ends with the failure budget exceeded stops the
/// transfer with no answer (unless its time ran out), and a stopped session
/// stays stopped whatever arrives later.
pub proof fn lemma_failure_budget(t: Transfer, reply: Reply, ms: nat)
    requires
        t.count_error > MAX_FAILURES,
        ms <= TRANSFER_TIMEOUT_MS,
    ensures
        transfer_outcome(t, reply, ms) == Sequence::NoAnswer,
        is_terminal(Sequence::NoAnswer),
{
}

/// The percent does not fall as the position sent grows; it is zero when
/// the transfer begins and a hundred once the position sent is the block
/// count.
pub proof fn lemma_percent(a: nat, b: nat, block_end: nat, index_next: u16)
    requires
        a <= b,
    ensures
        percent_spec(a, block_end) <= percent_spec(b, block_end),
        percent_spec(transfer_start(index_next).index_sent as nat, block_end) == 0,
        block_end > 0 ==> percent_spec(block_end, block_end) == 100,
{
    if block_end > 0 {
        assert(a * 100 <= b * 100) by (nonlinear_arith)
            requires
                a <= b,
        ;
        lemma_div_monotone(a * 100, b * 100, block_end);
        assert(block_end * 100 / block_end == 100) by (nonlinear_arith)
            requires
                block_end > 0,
        ;
    }
}

/// Over a transfer step whose reported position does not go back, the
/// position sent does not fall, so neither does the percent.
pub proof fn lemma_percent_step(t: Transfer, fired: bool, readable: bool, reply: Reply, block_end: nat)
    requires
        t.index_sent <= t.index_next,
        reply matches Reply::UpdateLocation { index_block_next } ==> index_block_next >= t.index_next,
    ensures
        ({
            let t2 = after_reply(after_send(t, fired, readable), reply);
            &&& t.index_sent <= t2.index_sent <= t2.index_next
            &&& percent_spec(t.index_sent as nat, block_end) <= percent_spec(t2.index_sent as nat, block_end)
        }),
{
    let t2 = after_reply(after_send(t, fired, readable), reply);
    lemma_percent(t.index_sent as nat, t2.index_sent as nat, block_end, 0);
}

proof fn lemma_div_monotone(x: nat, y: nat, d: nat)
    requires
        x <= y,
        d > 0,
    ensures
        x / d <= y / d,
{
    vstd::arithmetic::div_mod::lemma_div_is_ordered(x as int, y as int, d as int);
}

} // verus!
