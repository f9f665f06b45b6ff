//! Sending one payload to several devices, and summing up how it went.
//!
//! The devices are served one after the other, in the order in which they
//! were opened, and each gets the reports of the payload in order.  After a
//! report was written, an answer is read from the device, for a bounded time;
//! whether one comes has no bearing on the outcome.  A report that a device
//! does not take ends the sending to that device, and that device counts as
//! failed; the devices after it are served all the same.
//!
//! A [`SendSession`] makes these decisions.  Its caller asks it what to do
//! next, does it, and tells it what happened.

use vstd::prelude::*;
use vstd::string::*;
use crate::error::{agrees, ErrorView, QmkError};
use crate::report::{
    build_frame, frame_count, frame_count_spec, frame_spec, FRAME_LENGTH, READ_TIMEOUT_MS,
};

verus! {

/// The text that the HID library shows for an error of its own that carries `message`.
pub open spec fn hid_error_text_spec(message: Seq<char>) -> Seq<char> {
    "hidapi error: "@ + message
}

/// What is said when no device took the message.
pub open spec fn total_failure_text() -> Seq<char> {
    hid_error_text_spec("Failed to send to any devices"@)
}

/// The text that `hidapi` shows for an error of its own that carries `message`.
///
/// The call is `to_string` on `hidapi::HidError::HidApiError`, that is the
/// `Display` of `hidapi::HidError`.
///
/// This contract is believed, not proved.  It claims that the text is
/// `hidapi error: ` followed by the message, as the arm of that `Display`
/// for this variant writes it.
#[verifier::external_body]
fn hid_error_text(message: &str) -> (s: String)
    ensures
        s@ == hid_error_text_spec(message@),
{
    hidapi::HidError::HidApiError { message: message.to_string() }.to_string()
}

/// The outcome over `devices` devices of which `succeeded` took the whole
/// payload: success if none failed, a total failure if none succeeded, and a
/// partial failure with both counts otherwise.
pub open spec fn aggregate_spec(succeeded: nat, devices: nat) -> Result<(), ErrorView> {
    if succeeded >= devices {
        Ok(())
    } else if succeeded == 0 {
        Err(ErrorView::SendReportError(total_failure_text()))
    } else {
        Err(
            ErrorView::PartialSendError {
                succeeded: succeeded as usize,
                failed: (devices - succeeded) as usize,
            },
        )
    }
}

/// Sums up the sending to `devices` devices of which `succeeded` took the
/// whole payload.
///
/// With every device served the outcome is success; with none of one or more
/// it is `SendReportError`; with some, but not all, it is `PartialSendError`
/// with the number of those that succeeded and of those that failed.
pub fn aggregate(succeeded: usize, devices: usize) -> (r: Result<(), QmkError>)
    ensures
        agrees(r, aggregate_spec(succeeded as nat, devices as nat)),
        succeeded >= devices ==> r is Ok,
        succeeded == 0 && devices > 0 ==> (r matches Err(e) && e@ == ErrorView::SendReportError(
            total_failure_text(),
        )),
        0 < succeeded < devices ==> (r matches Err(e) && e@ == ErrorView::PartialSendError {
            succeeded,
            failed: (devices - succeeded) as usize,
        }),
{
    if succeeded >= devices {
        Ok(())
    } else if succeeded == 0 {
        Err(QmkError::SendReportError(hid_error_text("Failed to send to any devices")))
    } else {
        Err(QmkError::PartialSendError { succeeded, failed: devices - succeeded })
    }
}

/// What has happened to the step that a session asked for.
#[derive(Clone, Copy, Debug, PartialEq, Eq, Structural)]
pub enum SendEvent {
    /// The device took the report.
    Written,
    /// The device did not take the report.
    WriteFailed,
    /// The read has ended: with an answer, without one in time, or with an error.
    ReadEnded,
}

/// Where the sending of one payload to several devices stands.
pub struct SessionView {
    /// The payload that every device is to get.
    pub payload: Seq<u8>,
    /// Number of devices that were opened.
    pub devices: nat,
    /// The device that is served now; equal to `devices` when all were served.
    pub device: nat,
    /// The report that this device gets next, or has got last while its answer is awaited.
    pub frame: nat,
    /// Whether a report was written whose answer has not been read yet.
    pub awaiting_answer: bool,
    /// Number of devices before this one that took every report.
    pub succeeded: nat,
}

impl SessionView {
    /// Number of reports that each device is to get.
    pub open spec fn frames(self) -> nat {
        frame_count_spec(self.payload.len())
    }

    /// What holds of every session.
    pub open spec fn wf(self) -> bool {
        &&& self.device <= self.devices
        &&& self.succeeded <= self.device
        &&& self.device < self.devices ==> self.frame < self.frames()
        &&& self.device == self.devices ==> self.frame == 0 && !self.awaiting_answer
    }

    /// The session before anything was written.
    pub open spec fn start(devices: nat, payload: Seq<u8>) -> SessionView {
        SessionView { payload, devices, device: 0, frame: 0, awaiting_answer: false, succeeded: 0 }
    }

    /// Whether every device was served.
    pub open spec fn finished(self) -> bool {
        self.device >= self.devices
    }

    /// The session with the next device in hand; `served` says whether the
    /// device that is left took every report.
    pub open spec fn next_device(self, served: bool) -> SessionView {
        SessionView {
            device: self.device + 1,
            frame: 0,
            awaiting_answer: false,
            succeeded: if served {
                self.succeeded + 1
            } else {
                self.succeeded
            },
            ..self
        }
    }

    /// The session after `event`.
    ///
    /// A report that was written is followed by the read of its answer, and
    /// the end of that read by the next report of the device, or, after the
    /// last report, by the next device.  A report that was not written is
    /// followed by the next device at once.  An event that does not answer
    /// the step that is due, and any event after the end, changes nothing.
    pub open spec fn record(self, event: SendEvent) -> SessionView {
        if self.finished() {
            self
        } else if !self.awaiting_answer {
            match event {
                SendEvent::Written => SessionView { awaiting_answer: true, ..self },
                SendEvent::WriteFailed => self.next_device(false),
                SendEvent::ReadEnded => self,
            }
        } else {
            match event {
                SendEvent::ReadEnded => if self.frame + 1 < self.frames() {
                    SessionView { frame: self.frame + 1, awaiting_answer: false, ..self }
                } else {
                    self.next_device(true)
                },
                _ => self,
            }
        }
    }

    /// The outcome of a finished session.
    pub open spec fn outcome(self) -> Result<(), ErrorView> {
        aggregate_spec(self.succeeded, self.devices)
    }

    /// The event that answers the step that is due, where `accepts(d, f)`
    /// says whether device `d` takes report `f`.
    pub open spec fn answer(self, accepts: spec_fn(nat, nat) -> bool) -> SendEvent {
        if self.awaiting_answer {
            SendEvent::ReadEnded
        } else if accepts(self.device, self.frame) {
            SendEvent::Written
        } else {
            SendEvent::WriteFailed
        }
    }

    /// The session after it was driven to its end, each step answered as
    /// [`SessionView::answer`] says.
    pub open spec fn run(self, accepts: spec_fn(nat, nat) -> bool) -> SessionView
        decreases
            self.devices - self.device,
            self.frames() - self.frame,
            if self.awaiting_answer {
                0nat
            } else {
                1nat
            },
    {
        if self.finished() || !self.wf() {
            self
        } else {
            self.record(self.answer(accepts)).run(accepts)
        }
    }
}

/// What the caller of a session is to do next.
#[derive(Debug, PartialEq, Eq)]
pub enum SendStep {
    /// Write `report`, which is report `frame` of the payload, to device
    /// `device`, and record whether the device took it.
    Write { device: usize, frame: usize, report: Vec<u8> },
    /// Read an answer of up to `length` bytes from device `device`, waiting
    /// no longer than `timeout_ms` milliseconds, and record that the read
    /// has ended, however it ended.
    Read { device: usize, length: usize, timeout_ms: i32 },
    /// Every device was served: this is the outcome.
    Done(Result<(), QmkError>),
}

/// The counters of a session.
#[derive(Clone, Copy, Debug, PartialEq, Eq)]
struct Progress {
    device: usize,
    frame: usize,
    awaiting_answer: bool,
    succeeded: usize,
}

/// The sending of one payload to the devices that were opened.
#[derive(Debug, PartialEq, Eq)]
pub struct SendSession {
    payload: Vec<u8>,
    devices: usize,
    frames: usize,
    progress: Progress,
}

impl View for SendSession {
    type V = SessionView;

    closed spec fn view(&self) -> SessionView {
        SessionView {
            payload: self.payload@,
            devices: self.devices as nat,
            device: self.progress.device as nat,
            frame: self.progress.frame as nat,
            awaiting_answer: self.progress.awaiting_answer,
            succeeded: self.progress.succeeded as nat,
        }
    }
}

impl SendSession {
    #[verifier::type_invariant]
    spec fn inv(self) -> bool {
        self@.wf() && self.frames == self@.frames()
    }

    /// A session that sends `payload` to each of `devices` opened devices.
    pub fn new(devices: usize, payload: Vec<u8>) -> (s: Self)
        ensures
            s@ == SessionView::start(devices as nat, payload@),
            s@.wf(),
    {
        let frames = frame_count(payload.len());
        SendSession {
            payload,
            devices,
            frames,
            progress: Progress { device: 0, frame: 0, awaiting_answer: false, succeeded: 0 },
        }
    }

    /// Number of devices that the session serves.
    pub fn devices(&self) -> (n: usize)
        ensures
            n == self@.devices,
    {
        self.devices
    }

    /// Number of reports that each device is to get.
    pub fn frames(&self) -> (n: usize)
        ensures
            n == self@.frames(),
    {
        proof {
            use_type_invariant(self);
        }
        self.frames
    }

    /// The payload that every device is to get.
    pub fn payload(&self) -> (p: &Vec<u8>)
        ensures
            p@ == self@.payload,
    {
        &self.payload
    }

    /// Number of devices that took every report so far.
    pub fn succeeded(&self) -> (n: usize)
        ensures
            n == self@.succeeded,
    {
        self.progress.succeeded
    }

    /// Number of devices that were served and did not take every report.
    pub fn failed(&self) -> (n: usize)
        ensures
            n == self@.device - self@.succeeded,
            self@.wf(),
    {
        proof {
            use_type_invariant(self);
        }
        self.progress.device - self.progress.succeeded
    }

    /// Whether every device was served.
    pub fn is_finished(&self) -> (b: bool)
        ensures
            b == self@.finished(),
    {
        self.progress.device >= self.devices
    }

    /// What is to be done next: the write that is due, with the report to
    /// write; the read that follows a report that was written, of the length
    /// of a report and for at most the time that an answer is waited for; or,
    /// when every device was served, the outcome.
    pub fn next_step(&self) -> (step: SendStep)
        ensures
            self@.wf(),
            match step {
                SendStep::Write { device, frame, report } => {
                    &&& !self@.finished()
                    &&& !self@.awaiting_answer
                    &&& device == self@.device
                    &&& frame == self@.frame
                    &&& report@ == frame_spec(self@.payload, self@.frame)
                },
                SendStep::Read { device, length, timeout_ms } => {
                    &&& !self@.finished()
                    &&& self@.awaiting_answer
                    &&& device == self@.device
                    &&& length == 33
                    &&& timeout_ms == 100
                },
                SendStep::Done(r) => self@.finished() && agrees(r, self@.outcome()),
            },
    {
        proof {
            use_type_invariant(self);
        }
        if self.progress.device >= self.devices {
            SendStep::Done(aggregate(self.progress.succeeded, self.devices))
        } else if self.progress.awaiting_answer {
            SendStep::Read {
                device: self.progress.device,
                length: FRAME_LENGTH,
                timeout_ms: READ_TIMEOUT_MS,
            }
        } else {
            SendStep::Write {
                device: self.progress.device,
                frame: self.progress.frame,
                report: build_frame(self.payload.as_slice(), self.progress.frame),
            }
        }
    }

    /// Records what has happened to the step that was due, as
    /// [`SessionView::record`] says.
    pub fn record(&mut self, event: SendEvent)
        ensures
            final(self)@ == old(self)@.record(event),
            final(self)@.wf(),
    {
        proof {
            use_type_invariant(&*self);
        }
        let now = self.progress;
        if now.device >= self.devices {
            return ;
        }
        let next_device = now.device + 1;
        if !now.awaiting_answer {
            match event {
                SendEvent::Written => {
                    self.progress = Progress { awaiting_answer: true, ..now };
                },
                SendEvent::WriteFailed => {
                    self.progress = Progress {
                        device: next_device,
                        frame: 0,
                        awaiting_answer: false,
                        succeeded: now.succeeded,
                    };
                },
                SendEvent::ReadEnded => {},
            }
        } else {
            match event {
                SendEvent::ReadEnded => {
                    if now.frame + 1 < self.frames {
                        self.progress = Progress {
                            frame: now.frame + 1,
                            awaiting_answer: false,
                            ..now
                        };
                    } else {
                        self.progress = Progress {
                            device: next_device,
                            frame: 0,
                            awaiting_answer: false,
                            succeeded: now.succeeded + 1,
                        };
                    }
                },
                _ => {},
            }
        }
    }
}

/// Whether device `device` takes every report from `from` up to the last of `frames`.
pub open spec fn takes_all(
    accepts: spec_fn(nat, nat) -> bool,
    device: nat,
    from: nat,
    frames: nat,
) -> bool {
    forall|f: nat| from <= f < frames ==> #[trigger] accepts(device, f)
}

/// Number of devices from `from` up to the last of `devices` that take all `frames` reports.
pub open spec fn count_served(
    accepts: spec_fn(nat, nat) -> bool,
    from: nat,
    devices: nat,
    frames: nat,
) -> nat
    decreases devices - from,
{
    if from >= devices {
        0
    } else {
        (if takes_all(accepts, from, 0, frames) {
            1nat
        } else {
            0nat
        }) + count_served(accepts, from + 1, devices, frames)
    }
}

/// The reports that the device in hand has yet to take for it to count as
/// succeeded: those from the one that is due, or, while an answer is awaited,
/// those after the one that was written.
pub open spec fn pending_from(s: SessionView) -> nat {
    if s.awaiting_answer {
        s.frame + 1
    } else {
        s.frame
    }
}

/// A session that is driven to its end has served every device, and has
/// counted as succeeded, beside those counted before, the device in hand if
/// it takes all the reports that it has not had yet, and each later device
/// that takes all reports.
pub proof fn lemma_run_counts_served(s: SessionView, accepts: spec_fn(nat, nat) -> bool)
    requires
        s.wf(),
    ensures
        s.run(accepts).wf(),
        s.run(accepts).finished(),
        s.run(accepts).devices == s.devices,
        s.run(accepts).payload == s.payload,
        s.run(accepts).succeeded == s.succeeded + (if !s.finished() && takes_all(
            accepts,
            s.device,
            pending_from(s),
            s.frames(),
        ) {
            1nat
        } else {
            0nat
        }) + count_served(accepts, s.device + 1, s.devices, s.frames()),
    decreases
        s.devices - s.device,
        s.frames() - s.frame,
        if s.awaiting_answer {
            0nat
        } else {
            1nat
        },
{
    if !s.finished() {
        let t = s.record(s.answer(accepts));
        lemma_run_counts_served(t, accepts);
        if s.awaiting_answer {
            if s.frame + 1 >= s.frames() {
                assert(takes_all(accepts, s.device, s.frame + 1, s.frames()));
            }
        } else if !accepts(s.device, s.frame) {
            assert(!takes_all(accepts, s.device, s.frame, s.frames()));
        } else {
            assert(takes_all(accepts, s.device, s.frame, s.frames()) == takes_all(
                accepts,
                s.device,
                s.frame + 1,
                s.frames(),
            )) by {
                if takes_all(accepts, s.device, s.frame + 1, s.frames()) {
                    assert forall|f: nat| s.frame <= f < s.frames() implies #[trigger] accepts(
                        s.device,
                        f,
                    ) by {
                        if f > s.frame {
                            assert(s.frame + 1 <= f);
                        }
                    }
                }
            }
        }
    }
}

/// The fan-out over several devices: whichever reports the devices take, a
/// session that is driven from its start to its end counts exactly the
/// devices that took every report, and its outcome is success if all of them
/// did, a partial failure with both counts if some did, and a total failure
/// if there are devices and none did.
pub proof fn lemma_fan_out(devices: nat, payload: Seq<u8>, accepts: spec_fn(nat, nat) -> bool)
    ensures
        ({
            let end = SessionView::start(devices, payload).run(accepts);
            let served = count_served(accepts, 0, devices, frame_count_spec(payload.len()));
            &&& end.finished()
            &&& end.succeeded == served
            &&& served <= devices
            &&& end.outcome() == aggregate_spec(served, devices)
        }),
{
    let s = SessionView::start(devices, payload);
    lemma_run_counts_served(s, accepts);
    reveal_with_fuel(count_served, 2);
}

} // verus!
