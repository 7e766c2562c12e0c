//! The display lock: a record file naming the process that owns a display
//! number, and the rendezvous socket that the owner listens on.
//!
//! Acquiring the lock alternates file operations with decisions; the
//! decisions are the state machine [`LockAcquisition`], and the caller
//! performs each [`LockAction`] and reports back the [`LockEvent`].
use vstd::prelude::*;
use crate::text::{
    all_digits, decimal, decimal_string, digit_char, digits_value, is_digit, is_space, lemma_decimal_len,
    parse_i32, parsed_i32, push_decimal, signed_value, ten_pow, trim_end, trim_start, trimmed,
};

verus! {

/// Width to which the process id in a lock record is right-aligned.
pub const RECORD_WIDTH: usize = 10;

/// Ownership of one display number.
#[derive(Clone, Copy, Debug, PartialEq, Eq, Structural)]
pub struct X11Lock {
    pub display: u32,
}

pub open spec fn lock_path_of(display: u32) -> Seq<char> {
    "/tmp/.X"@ + decimal(display as nat) + "-lock"@
}

pub open spec fn socket_path_of(display: u32) -> Seq<char> {
    "/tmp/.X11-unix/X"@ + decimal(display as nat)
}

/// The record written into a fresh lock file: the process id right-aligned
/// in ten columns, then a newline.
pub open spec fn lock_record_of(pid: u32) -> Seq<char> {
    Seq::new((RECORD_WIDTH - decimal(pid as nat).len()) as nat, |i: int| ' ') + decimal(
        pid as nat,
    ) + seq!['\n']
}

/// What the liveness probe (a null signal) said of the recorded holder.
#[derive(Clone, Copy, Debug, PartialEq, Eq, Structural)]
pub enum HolderStatus {
    /// The signal could be delivered.
    Running,
    /// No such process.
    Gone,
    /// Any other failure, such as lacking permission to signal it.
    Unknown,
}

/// Whether a probe result counts as a live holder. Only "no such process"
/// counts as dead: an ambiguous failure keeps the holder alive.
pub open spec fn holder_alive(s: HolderStatus) -> bool {
    s != HolderStatus::Gone
}

/// Why acquisition stopped without the lock.
#[derive(Clone, Copy, Debug, PartialEq, Eq, Structural)]
pub enum LockFailure {
    /// A live process holds the display and takeover was not requested.
    InUse,
    /// The lock file does not hold a process id.
    InvalidRecord,
    /// The file operation just reported failed; its own error stands.
    Io,
    /// An event arrived that the current step does not expect.
    OutOfOrder,
}

/// Where acquisition stands.
#[derive(Clone, Copy, Debug, PartialEq, Eq, Structural)]
pub enum LockPhase {
    Creating,
    Writing,
    Reading,
    Probing,
    Removing,
    Held,
    Failed,
}

/// The outcome of the file operation or probe that was asked for last.
#[derive(Clone, Debug, PartialEq, Eq)]
pub enum LockEvent {
    /// The lock file was created, exclusively.
    Created,
    /// Exclusive creation failed: a lock file exists.
    AlreadyExists,
    /// Our record was written into the new file.
    RecordWritten,
    WriteFailed,
    /// The existing lock file holds this text.
    RecordRead(String),
    ReadFailed,
    /// The recorded holder was probed.
    Probed(HolderStatus),
    /// The lock file was removed.
    Removed,
    RemoveFailed,
}

/// What the caller is to do next.
#[derive(Clone, Copy, Debug, PartialEq, Eq, Structural)]
pub enum LockAction {
    /// Create the lock file exclusively.
    CreateExclusive,
    /// Write this process's record (see [`lock_record`]) into the new file.
    WriteRecord,
    /// Read the existing lock file.
    ReadRecord,
    /// Probe whether this process lives.
    ProbeHolder(i32),
    /// Remove the lock file, then report [`LockEvent::Removed`] or
    /// [`LockEvent::RemoveFailed`].
    RemoveRecord,
    /// Remove the half-written lock file, ignoring errors, and report the
    /// write error.
    AbandonRecord,
    /// The lock is held.
    Acquired(X11Lock),
    /// Acquisition failed.
    Fail(LockFailure),
}

/// An acquisition in progress.
#[derive(Clone, Copy, Debug, PartialEq, Eq, Structural)]
pub struct LockAcquisition {
    pub display: u32,
    /// Take the lock over from a live holder.
    pub force: bool,
    pub phase: LockPhase,
}

pub open spec fn failed(a: LockAcquisition, f: LockFailure) -> (LockAcquisition, LockAction) {
    (LockAcquisition { phase: LockPhase::Failed, ..a }, LockAction::Fail(f))
}

pub open spec fn goto(a: LockAcquisition, p: LockPhase, act: LockAction) -> (
    LockAcquisition,
    LockAction,
) {
    (LockAcquisition { phase: p, ..a }, act)
}

/// One step of acquisition: create exclusively; if that fails, read the
/// record, probe its holder, and remove the record when the holder is dead
/// or takeover was requested, then start over.
pub open spec fn lock_next(a: LockAcquisition, e: LockEvent) -> (LockAcquisition, LockAction) {
    match (a.phase, e) {
        (LockPhase::Creating, LockEvent::Created) => goto(
            a,
            LockPhase::Writing,
            LockAction::WriteRecord,
        ),
        (LockPhase::Creating, LockEvent::AlreadyExists) => goto(
            a,
            LockPhase::Reading,
            LockAction::ReadRecord,
        ),
        (LockPhase::Writing, LockEvent::RecordWritten) => goto(
            a,
            LockPhase::Held,
            LockAction::Acquired(X11Lock { display: a.display }),
        ),
        (LockPhase::Writing, LockEvent::WriteFailed) => goto(
            a,
            LockPhase::Failed,
            LockAction::AbandonRecord,
        ),
        (LockPhase::Reading, LockEvent::RecordRead(content)) => match parsed_i32(content@) {
            Some(pid) => goto(a, LockPhase::Probing, LockAction::ProbeHolder(pid)),
            None => failed(a, LockFailure::InvalidRecord),
        },
        (LockPhase::Reading, LockEvent::ReadFailed) => failed(a, LockFailure::Io),
        (LockPhase::Probing, LockEvent::Probed(s)) => if holder_alive(s) && !a.force {
            failed(a, LockFailure::InUse)
        } else {
            goto(a, LockPhase::Removing, LockAction::RemoveRecord)
        },
        (LockPhase::Removing, LockEvent::Removed) => goto(
            a,
            LockPhase::Creating,
            LockAction::CreateExclusive,
        ),
        (LockPhase::Removing, LockEvent::RemoveFailed) => failed(a, LockFailure::Io),
        _ => failed(a, LockFailure::OutOfOrder),
    }
}

impl X11Lock {
    /// Starts acquiring the lock of `display`; the first action is
    /// [`LockAcquisition::first_action`].
    pub fn acquire(display: u32, force: bool) -> (r: LockAcquisition)
        ensures
            r == (LockAcquisition { display, force, phase: LockPhase::Creating }),
    {
        LockAcquisition { display, force, phase: LockPhase::Creating }
    }

    /// The path of the lock file.
    pub fn lock_path(&self) -> (r: String)
        ensures
            r@ == lock_path_of(self.display),
    {
        let mut s = String::from_str("/tmp/.X");
        push_decimal(&mut s, self.display as u64);
        s.append("-lock");
        s
    }

    /// The path of the rendezvous socket.
    pub fn socket_path(&self) -> (r: String)
        ensures
            r@ == socket_path_of(self.display),
    {
        let mut s = String::from_str("/tmp/.X11-unix/X");
        push_decimal(&mut s, self.display as u64);
        s
    }
}

/// The directory that holds the rendezvous sockets.
pub fn socket_dir() -> (r: &'static str)
    ensures
        r@ == "/tmp/.X11-unix"@,
{
    "/tmp/.X11-unix"
}

impl LockAcquisition {
    /// The first thing to do: try to create the lock file.
    pub fn first_action(&self) -> (r: LockAction)
        ensures
            r == LockAction::CreateExclusive,
    {
        LockAction::CreateExclusive
    }

    /// Takes the outcome of the last action and says what to do next.
    pub fn step(&mut self, e: LockEvent) -> (r: LockAction)
        ensures
            (*final(self), r) == lock_next(*old(self), e),
    {
        match (self.phase, e) {
            (LockPhase::Creating, LockEvent::Created) => {
                self.phase = LockPhase::Writing;
                LockAction::WriteRecord
            },
            (LockPhase::Creating, LockEvent::AlreadyExists) => {
                self.phase = LockPhase::Reading;
                LockAction::ReadRecord
            },
            (LockPhase::Writing, LockEvent::RecordWritten) => {
                self.phase = LockPhase::Held;
                LockAction::Acquired(X11Lock { display: self.display })
            },
            (LockPhase::Writing, LockEvent::WriteFailed) => {
                self.phase = LockPhase::Failed;
                LockAction::AbandonRecord
            },
            (LockPhase::Reading, LockEvent::RecordRead(content)) => {
                match parse_i32(content.as_str()) {
                    Some(pid) => {
                        self.phase = LockPhase::Probing;
                        LockAction::ProbeHolder(pid)
                    },
                    None => {
                        self.phase = LockPhase::Failed;
                        LockAction::Fail(LockFailure::InvalidRecord)
                    },
                }
            },
            (LockPhase::Reading, LockEvent::ReadFailed) => {
                self.phase = LockPhase::Failed;
                LockAction::Fail(LockFailure::Io)
            },
            (LockPhase::Probing, LockEvent::Probed(s)) => {
                if s != HolderStatus::Gone && !self.force {
                    self.phase = LockPhase::Failed;
                    LockAction::Fail(LockFailure::InUse)
                } else {
                    self.phase = LockPhase::Removing;
                    LockAction::RemoveRecord
                }
            },
            (LockPhase::Removing, LockEvent::Removed) => {
                self.phase = LockPhase::Creating;
                LockAction::CreateExclusive
            },
            (LockPhase::Removing, LockEvent::RemoveFailed) => {
                self.phase = LockPhase::Failed;
                LockAction::Fail(LockFailure::Io)
            },
            _ => {
                self.phase = LockPhase::Failed;
                LockAction::Fail(LockFailure::OutOfOrder)
            },
        }
    }
}

/// The record that a process with id `pid` writes into a lock it takes.
pub fn lock_record(pid: u32) -> (r: String)
    ensures
        r@ == lock_record_of(pid),
{
    let digits = decimal_string(pid as u64);
    proof {
        assert(ten_pow(10) == 10_000_000_000) by {
            reveal_with_fuel(ten_pow, 11);
        }
        lemma_decimal_len(pid as nat, 10);
    }
    let width = digits.unicode_len();
    let mut s = String::new();
    let mut i: usize = width;
    while i < RECORD_WIDTH
        invariant
            width <= i <= RECORD_WIDTH,
            width == decimal(pid as nat).len(),
            s@ == Seq::new((i - width) as nat, |k: int| ' '),
        decreases RECORD_WIDTH - i,
    {
        s.append(" ");
        proof {
            reveal_strlit(" ");
            assert(s@ =~= Seq::new((i + 1 - width) as nat, |k: int| ' '));
        }
        i = i + 1;
    }
    s.append(digits.as_str());
    s.append("\n");
    proof {
        reveal_strlit("\n");
        assert(s@ =~= lock_record_of(pid));
    }
    s
}

/// Acquiring over an existing record that names a process: a dead holder,
/// or any holder when takeover was requested, has its record removed, and
/// acquisition then creates the file afresh, writes its own record and
/// holds the lock; a live holder without takeover makes acquisition fail
/// as in use. An ambiguous probe counts as live.
pub proof fn lock_liveness(display: u32, force: bool, record: String, status: HolderStatus)
    requires
        parsed_i32(record@) is Some,
    ensures
        ({
            let a0 = LockAcquisition { display, force, phase: LockPhase::Creating };
            let (a1, x1) = lock_next(a0, LockEvent::AlreadyExists);
            let (a2, x2) = lock_next(a1, LockEvent::RecordRead(record));
            let (a3, x3) = lock_next(a2, LockEvent::Probed(status));
            let (a4, x4) = lock_next(a3, LockEvent::Removed);
            let (a5, x5) = lock_next(a4, LockEvent::Created);
            let (a6, x6) = lock_next(a5, LockEvent::RecordWritten);
            &&& x1 == LockAction::ReadRecord
            &&& x2 == LockAction::ProbeHolder(parsed_i32(record@).unwrap())
            &&& (status == HolderStatus::Gone || force) ==> {
                &&& x3 == LockAction::RemoveRecord
                &&& x4 == LockAction::CreateExclusive
                &&& x5 == LockAction::WriteRecord
                &&& x6 == LockAction::Acquired(X11Lock { display })
                &&& a6.phase == LockPhase::Held
            }
            &&& (holder_alive(status) && !force) ==> {
                &&& x3 == LockAction::Fail(LockFailure::InUse)
                &&& a3.phase == LockPhase::Failed
            }
        }),
{
}

proof fn lemma_decimal_digits(n: nat)
    ensures
        all_digits(decimal(n)),
        digits_value(decimal(n)) == n,
        decimal(n).len() >= 1,
    decreases n,
{
    if n >= 10 {
        lemma_decimal_digits(n / 10);
        let d = decimal(n);
        assert(d.drop_last() =~= decimal(n / 10));
        assert(d.last() == digit_char(n % 10));
        assert(digit_char(n % 10) as nat == '0' as nat + n % 10);
        assert((n / 10) * 10 + n % 10 == n) by (nonlinear_arith);
        assert(digits_value(d) == digits_value(d.drop_last()) * 10 + ((d.last() as nat) - ('0' as nat)) as nat);
        assert forall|i: int| 0 <= i < d.len() implies is_digit(#[trigger] d[i]) by {
            if i < d.len() - 1 {
                assert(d[i] == decimal(n / 10)[i]);
            }
        }
    } else {
        assert(decimal(n).drop_last() =~= Seq::<char>::empty());
        assert(digit_char(n) as nat == '0' as nat + n);
        assert(digits_value(Seq::<char>::empty()) == 0);
        assert(digits_value(decimal(n)) == digits_value(decimal(n).drop_last()) * 10 + ((decimal(n).last() as nat) - ('0' as nat)) as nat);
    }
}

proof fn lemma_trim_padding(k: nat, rest: Seq<char>)
    requires
        rest.len() > 0,
        !is_space(rest[0]),
    ensures
        trim_start(Seq::new(k, |i: int| ' ') + rest) == rest,
    decreases k,
{
    let s = Seq::new(k, |i: int| ' ') + rest;
    if k > 0 {
        assert(s.subrange(1, s.len() as int) =~= Seq::new((k - 1) as nat, |i: int| ' ') + rest);
        lemma_trim_padding((k - 1) as nat, rest);
    } else {
        assert(s =~= rest);
    }
}

/// A record written by a process is read back as its id.
pub proof fn lock_record_round_trip(pid: u32)
    requires
        pid <= i32::MAX,
    ensures
        parsed_i32(lock_record_of(pid)) == Some(pid as i32),
{
    let d = decimal(pid as nat);
    lemma_decimal_digits(pid as nat);
    assert(ten_pow(10) == 10_000_000_000) by {
        reveal_with_fuel(ten_pow, 11);
    }
    lemma_decimal_len(pid as nat, 10);
    let pad = Seq::new((RECORD_WIDTH - d.len()) as nat, |i: int| ' ');
    let rest = d + seq!['\n'];
    assert(is_digit(d[0]));
    assert(rest[0] == d[0]);
    assert(lock_record_of(pid) =~= pad + rest);
    lemma_trim_padding((RECORD_WIDTH - d.len()) as nat, rest);
    assert(rest.drop_last() =~= d);
    assert(is_digit(d.last()));
    assert(trim_end(d) == d);
    assert(trimmed(lock_record_of(pid)) == d);
    assert(signed_value(d) == Some(pid as int));
}

} // verus!
