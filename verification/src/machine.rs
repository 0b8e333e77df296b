//! The ownership state machine: when to bind the device, when to capture
//! an external selection, when to re-assert ownership, and how to answer
//! a consumer's send request.
//!
//! The machine holds every decision; the caller performs the protocol
//! round-trips and pipe work it asks for and reports the outcome back.
//! File descriptors never appear here: a pending capture is tracked as a
//! single flag, so the machine can guarantee that at most one capture
//! pipe is outstanding at a time.

use vstd::prelude::*;

use crate::detect::detect;
use crate::format::canonical_plain_text;
use crate::format::canonicalize;
use crate::format::choose_request_format;
use crate::format::formats_to_advertise;
use crate::format::lemma_canonicalize_idempotent;
use crate::format::spec_canonicalize;
use crate::format::spec_chosen_format;
use crate::format::str_equal;

verus! {

/// Phases of clipboard ownership: nothing bound yet, the device handle
/// built, or this process holding the selection.
#[derive(Clone, Copy, PartialEq, Eq, Structural, Debug)]
pub enum Phase {
    Idle,
    DeviceReady,
    Offering,
}

/// Why starting a capture failed: the pipe could not be created, or the
/// synchronous handoff round-trip with the display server failed.
#[derive(Clone, Copy, PartialEq, Eq, Structural, Debug)]
pub enum CaptureError {
    PipeCreationFailed,
    HandshakeFailed,
}

/// Why draining a capture pipe failed: the read end could not be
/// duplicated, or a read error cut the stream short. Either way the
/// partial bytes are discarded.
#[derive(Clone, Copy, PartialEq, Eq, Structural, Debug)]
pub enum DrainError {
    DuplicateFailed,
    ReadFailed,
}

/// The mathematical value of a [`Machine`].
#[verifier::ext_equal]
pub struct MachineView {
    pub phase: Phase,
    pub seat_bound: bool,
    pub manager_bound: bool,
    pub pending_capture: bool,
    pub snapshot: Seq<u8>,
    pub known_formats: Seq<Seq<char>>,
    pub offered_format: Option<Seq<char>>,
    pub capture_format: Option<Seq<char>>,
}

impl MachineView {
    /// How many capture pipes the machine believes are outstanding.
    pub open spec fn handle_count(self) -> nat {
        if self.pending_capture {
            1
        } else {
            0
        }
    }

    /// The formats a re-offer advertises: the stored format history, or
    /// the canonical plain-text identifier when no content exists yet.
    pub open spec fn advertised_formats(self) -> Seq<Seq<char>> {
        match self.offered_format {
            Some(f) => seq![f],
            None => seq![canonical_plain_text()],
        }
    }

    /// Well-formedness: a capture format is recorded exactly while a
    /// capture is pending, recorded formats are canonical, the known
    /// format set holds no duplicates, and a phase past `Idle` implies
    /// both globals were bound.
    pub open spec fn wf(self) -> bool {
        &&& self.pending_capture <==> self.capture_format is Some
        &&& (self.capture_format matches Some(f) ==> f == spec_canonicalize(f))
        &&& (self.offered_format matches Some(f) ==> f == spec_canonicalize(f))
        &&& (forall|i: int, j: int|
            0 <= i < j < self.known_formats.len() ==> self.known_formats[i]
                != self.known_formats[j])
        &&& (!(self.phase is Idle) ==> self.seat_bound && self.manager_bound)
    }
}

/// The ownership state machine's state.
pub struct Machine {
    pub phase: Phase,
    pub seat_bound: bool,
    pub manager_bound: bool,
    pub pending_capture: bool,
    pub snapshot: Vec<u8>,
    pub known_formats: Vec<String>,
    pub offered_format: Option<String>,
    pub capture_format: Option<String>,
}

impl View for Machine {
    type V = MachineView;

    open spec fn view(&self) -> MachineView {
        MachineView {
            phase: self.phase,
            seat_bound: self.seat_bound,
            manager_bound: self.manager_bound,
            pending_capture: self.pending_capture,
            snapshot: self.snapshot@,
            known_formats: self.known_formats.deep_view(),
            offered_format: self.offered_format.deep_view(),
            capture_format: self.capture_format.deep_view(),
        }
    }
}

impl Machine {
    /// A fresh machine: idle, nothing bound, empty snapshot, no formats
    /// seen, no capture pending.
    pub fn new() -> (m: Machine)
        ensures
            m@.wf(),
            m@.phase is Idle,
            !m@.seat_bound,
            !m@.manager_bound,
            !m@.pending_capture,
            m@.snapshot == Seq::<u8>::empty(),
            m@.known_formats == Seq::<Seq<char>>::empty(),
            m@.offered_format is None,
            m@.capture_format is None,
            m@.handle_count() == 0,
    {
        let m = Machine {
            phase: Phase::Idle,
            seat_bound: false,
            manager_bound: false,
            pending_capture: false,
            snapshot: Vec::new(),
            known_formats: Vec::new(),
            offered_format: None,
            capture_format: None,
        };
        proof {
            assert(m@.snapshot =~= Seq::<u8>::empty());
            assert(m@.known_formats =~= Seq::<Seq<char>>::empty());
        }
        m
    }

    /// Records that the seat global was bound.
    pub fn on_seat_bound(&mut self)
        requires
            old(self)@.wf(),
        ensures
            final(self)@.wf(),
            final(self)@ == (MachineView { seat_bound: true, ..old(self)@ }),
    {
        self.seat_bound = true;
    }

    /// Records that the selection-manager global was bound.
    pub fn on_manager_bound(&mut self)
        requires
            old(self)@.wf(),
        ensures
            final(self)@.wf(),
            final(self)@ == (MachineView { manager_bound: true, ..old(self)@ }),
    {
        self.manager_bound = true;
    }

    /// Decides whether to build the device handle: fires exactly once,
    /// when both globals are bound and the machine is still idle; a
    /// missing global leaves the machine idle for the next retry.
    /// Returns whether the caller must now request the device object.
    pub fn try_setup_device(&mut self) -> (r: bool)
        requires
            old(self)@.wf(),
        ensures
            final(self)@.wf(),
            r == (old(self)@.seat_bound && old(self)@.manager_bound && old(self)@.phase is Idle),
            r ==> final(self)@ == (MachineView { phase: Phase::DeviceReady, ..old(self)@ }),
            !r ==> final(self)@ == old(self)@,
    {
        if self.seat_bound && self.manager_bound && matches!(self.phase, Phase::Idle) {
            self.phase = Phase::DeviceReady;
            true
        } else {
            false
        }
    }

    /// Decides whether and with which formats to (re-)assert ownership.
    /// Once the device is ready the machine moves to `Offering` and hands
    /// back the formats to advertise: the stored format history, or the
    /// canonical plain-text identifier when no content exists yet. While
    /// still idle nothing happens.
    pub fn advertise(&mut self) -> (r: Option<Vec<String>>)
        requires
            old(self)@.wf(),
        ensures
            final(self)@.wf(),
            old(self)@.phase is Idle ==> r is None && final(self)@ == old(self)@,
            !(old(self)@.phase is Idle) ==> {
                &&& final(self)@ == (MachineView { phase: Phase::Offering, ..old(self)@ })
                &&& (r matches Some(fs) && fs.deep_view() == old(self)@.advertised_formats())
            },
    {
        if matches!(self.phase, Phase::Idle) {
            return None;
        }
        self.phase = Phase::Offering;
        let mut history: Vec<String> = Vec::new();
        match &self.offered_format {
            Some(f) => { history.push(f.clone()) },
            None => { history.push("text/plain;charset=utf-8".to_owned()) },
        }
        let fs = formats_to_advertise(&history);
        proof {
            assert(fs.deep_view() =~= old(self)@.advertised_formats());
        }
        Some(fs)
    }

    /// Records that a new external selection began: the known format set
    /// is cleared and rebuilt from the offers that follow.
    pub fn on_new_offer(&mut self)
        requires
            old(self)@.wf(),
        ensures
            final(self)@.wf(),
            final(self)@ == (MachineView {
                known_formats: Seq::<Seq<char>>::empty(),
                ..old(self)@
            }),
    {
        self.known_formats = Vec::new();
        proof {
            assert(self@.known_formats =~= Seq::<Seq<char>>::empty());
            assert(self@ =~~= (MachineView {
                known_formats: Seq::<Seq<char>>::empty(),
                ..old(self)@
            }));
        }
    }

    /// Records one format offered by the current external selection; the
    /// known format set stays duplicate-free.
    pub fn on_offer_format(&mut self, mime: String)
        requires
            old(self)@.wf(),
        ensures
            final(self)@.wf(),
            old(self)@.known_formats.contains(mime@) ==> final(self)@ == old(self)@,
            !old(self)@.known_formats.contains(mime@) ==> final(self)@ == (MachineView {
                known_formats: old(self)@.known_formats.push(mime@),
                ..old(self)@
            }),
    {
        if !crate::format::vec_contains(&self.known_formats, mime.as_str()) {
            self.known_formats.push(mime);
            proof {
                assert(self@.known_formats =~= old(self)@.known_formats.push(mime@));
                assert(self@ =~~= (MachineView {
                    known_formats: old(self)@.known_formats.push(mime@),
                    ..old(self)@
                }));
            }
        }
    }
    /// Reacts to the selection-finalized event: decides whether to start
    /// a capture and which format to request. While a capture is already
    /// pending nothing is issued, so a second pipe is never created. The
    /// returned identifier is the raw offered one; the canonical form is
    /// recorded as the format the capture will be advertised under.
    pub fn on_selection_finalized(&mut self) -> (r: Option<String>)
        requires
            old(self)@.wf(),
        ensures
            final(self)@.wf(),
            final(self)@.handle_count() <= 1,
            old(self)@.pending_capture ==> r is None && final(self)@ == old(self)@
                && final(self)@.handle_count() == 1,
            old(self)@.phase is Idle && !old(self)@.pending_capture ==> r is None && final(self)@
                == old(self)@,
            !old(self)@.pending_capture && !(old(self)@.phase is Idle) ==> match spec_chosen_format(
                old(self)@.known_formats,
            ) {
                Option::None => r is None && final(self)@ == old(self)@,
                Option::Some(f) => {
                    &&& (r matches Some(g) && g@ == f)
                    &&& final(self)@ == (MachineView {
                        pending_capture: true,
                        capture_format: Some(spec_canonicalize(f)),
                        ..old(self)@
                    })
                },
            },
    {
        if self.pending_capture {
            return None;
        }
        if matches!(self.phase, Phase::Idle) {
            return None;
        }
        match choose_request_format(&self.known_formats) {
            None => None,
            Some(raw) => {
                let canonical = canonicalize(raw.as_str());
                self.pending_capture = true;
                self.capture_format = Some(canonical);
                proof {
                    lemma_canonicalize_idempotent(raw@);
                }
                Some(raw)
            },
        }
    }

    /// Records that starting the capture failed (no pipe, or a failed
    /// handoff round-trip): the cycle is abandoned and the snapshot is
    /// left untouched.
    pub fn on_capture_failed(&mut self, _reason: CaptureError)
        requires
            old(self)@.wf(),
        ensures
            final(self)@.wf(),
            final(self)@ == (MachineView {
                pending_capture: false,
                capture_format: None,
                ..old(self)@
            }),
            final(self)@.snapshot == old(self)@.snapshot,
            final(self)@.handle_count() == 0,
    {
        self.pending_capture = false;
        self.capture_format = None;
    }

    /// Consumes the drained capture. On success the candidate bytes
    /// replace the snapshot wholesale; the returned flag says whether the
    /// content changed, in which case the capture's canonical format
    /// becomes the advertised one and the caller must re-offer. On a
    /// drain error the partial bytes were discarded and the snapshot is
    /// left exactly as it was. Either way the pending capture is spent.
    pub fn on_drained(&mut self, outcome: Result<Vec<u8>, DrainError>) -> (r: bool)
        requires
            old(self)@.wf(),
        ensures
            final(self)@.wf(),
            final(self)@.handle_count() == 0,
            !old(self)@.pending_capture ==> !r && final(self)@ == old(self)@,
            old(self)@.pending_capture ==> match outcome {
                Result::Err(_) => !r && final(self)@ == (MachineView {
                    pending_capture: false,
                    capture_format: None,
                    ..old(self)@
                }) && final(self)@.snapshot == old(self)@.snapshot,
                Result::Ok(bytes) => {
                    &&& r == (bytes@ != old(self)@.snapshot)
                    &&& r ==> final(self)@ == (MachineView {
                        pending_capture: false,
                        capture_format: None,
                        snapshot: bytes@,
                        offered_format: old(self)@.capture_format,
                        ..old(self)@
                    })
                    &&& !r ==> final(self)@ == (MachineView {
                        pending_capture: false,
                        capture_format: None,
                        snapshot: bytes@,
                        ..old(self)@
                    })
                },
            },
    {
        if !self.pending_capture {
            return false;
        }
        match outcome {
            Err(_) => {
                self.pending_capture = false;
                self.capture_format = None;
                false
            },
            Ok(bytes) => {
                let outcome = detect(self.snapshot.as_slice(), bytes);
                self.snapshot = outcome.new_snapshot;
                self.pending_capture = false;
                if outcome.changed {
                    self.offered_format = self.capture_format.take();
                    true
                } else {
                    self.capture_format = None;
                    false
                }
            },
        }
    }

    /// Answers a consumer's send request: the full snapshot exactly when
    /// the requested format matches the advertised one, and nothing on a
    /// mismatch or when nothing was advertised (a silent no-op, tolerated
    /// under offer races).
    pub fn respond_to_send(&self, requested: &str) -> (r: Option<Vec<u8>>)
        requires
            self@.wf(),
        ensures
            match self@.offered_format {
                Option::Some(f) => {
                    &&& f == requested@ ==> (r matches Some(b) && b@ == self@.snapshot)
                    &&& f != requested@ ==> r is None
                },
                Option::None => r is None,
            },
    {
        match &self.offered_format {
            Some(f) => {
                if str_equal(f.as_str(), requested) {
                    Some(clone_bytes(&self.snapshot))
                } else {
                    None
                }
            },
            None => None,
        }
    }
}

fn clone_bytes(v: &Vec<u8>) -> (r: Vec<u8>)
    ensures
        r@ == v@,
{
    let n: usize = v.len();
    let mut r: Vec<u8> = Vec::new();
    let mut i: usize = 0;
    while i < n
        invariant
            n == v@.len(),
            i <= n,
            r@ =~= v@.take(i as int),
        decreases n - i,
    {
        r.push(v[i]);
        i += 1;
    }
    proof {
        assert(r@ =~= v@);
    }
    r
}

/// The machine never believes in more than one outstanding capture pipe.
pub proof fn lemma_at_most_one_pending_handle(m: MachineView)
    ensures
        m.handle_count() <= 1,
{
}

} // verus!
