//! The messages of two-phase commit.
use crate::utils::{
    dynamic_size_accepts, dynamic_size_error, parse_dynamic_size_event, DynamicSizeEvent,
};
use crate::wire::{
    be_i32, be_i64, byte_i8, c_string_text, i32_be_bytes, i64_be_bytes, lemma_be_i32_bytes,
    lemma_be_i64_bytes, lemma_byte_i8, lemma_c_string_of, lossy_text, read_c_string, read_i32,
    read_i64, read_i8,
};
use vstd::prelude::*;

verus! {

/// The kinds of the messages of two-phase commit.
#[derive(Debug, Clone, Copy, PartialEq, Eq)]
pub enum TwoPhaseCommitEventType {
    BeginPrepare,
    Prepare,
    CommitPrepared,
    RollbackPrepared,
}

/// The byte that announces a message of kind `t`.
pub open spec fn two_phase_event_char(t: TwoPhaseCommitEventType) -> u8 {
    match t {
        TwoPhaseCommitEventType::BeginPrepare => 0x62,  // 'b'
        TwoPhaseCommitEventType::Prepare => 0x50,  // 'P'
        TwoPhaseCommitEventType::CommitPrepared => 0x4b,  // 'K'
        TwoPhaseCommitEventType::RollbackPrepared => 0x72,  // 'r'
    }
}

/// The kind of message that `c` announces, if it announces one of these.
pub open spec fn spec_two_phase_event_type_from_char(c: u8) -> Option<TwoPhaseCommitEventType> {
    if c == 0x62 {
        Some(TwoPhaseCommitEventType::BeginPrepare)
    } else if c == 0x50 {
        Some(TwoPhaseCommitEventType::Prepare)
    } else if c == 0x4b {
        Some(TwoPhaseCommitEventType::CommitPrepared)
    } else if c == 0x72 {
        Some(TwoPhaseCommitEventType::RollbackPrepared)
    } else {
        None
    }
}

impl TwoPhaseCommitEventType {
    /// The byte that announces a message of this kind.
    pub fn to_char(&self) -> (r: u8)
        ensures
            r == two_phase_event_char(*self),
    {
        match self {
            Self::BeginPrepare => 0x62,
            Self::Prepare => 0x50,
            Self::CommitPrepared => 0x4b,
            Self::RollbackPrepared => 0x72,
        }
    }

    /// The kind of message that `c` announces.
    pub fn from_char(c: u8) -> (r: Option<Self>)
        ensures
            r == spec_two_phase_event_type_from_char(c),
    {
        if c == Self::BeginPrepare.to_char() {
            Some(Self::BeginPrepare)
        } else if c == Self::Prepare.to_char() {
            Some(Self::Prepare)
        } else if c == Self::CommitPrepared.to_char() {
            Some(Self::CommitPrepared)
        } else if c == Self::RollbackPrepared.to_char() {
            Some(Self::RollbackPrepared)
        } else {
            None
        }
    }
}

/// Each kind is read back from its byte, and a byte is read as a kind only
/// if it is that kind's byte.
pub proof fn lemma_two_phase_event_type_char_roundtrip(t: TwoPhaseCommitEventType, c: u8)
    ensures
        spec_two_phase_event_type_from_char(two_phase_event_char(t)) == Some(t),
        spec_two_phase_event_type_from_char(c) == Some(t) ==> two_phase_event_char(t) == c,
{
}

/// The start of a prepared transaction.
#[derive(Debug)]
pub struct BeginPrepare {
    pub lsn: i64,
    pub end_lsn: i64,
    pub timestamp: i64,
    pub transaction_id: i32,
    pub gid: String,
}

/// The view of a `BeginPrepare`.
pub struct BeginPrepareView {
    pub lsn: i64,
    pub end_lsn: i64,
    pub timestamp: i64,
    pub transaction_id: i32,
    pub gid: Seq<char>,
}

impl View for BeginPrepare {
    type V = BeginPrepareView;

    open spec fn view(&self) -> BeginPrepareView {
        BeginPrepareView {
            lsn: self.lsn,
            end_lsn: self.end_lsn,
            timestamp: self.timestamp,
            transaction_id: self.transaction_id,
            gid: self.gid@,
        }
    }
}

impl DynamicSizeEvent for BeginPrepare {
    const MIN_BUFFER_SIZE: usize = 8 * 3 + 4 + 1;

    const EVENT_NAME: &'static str = "pgoutput::events::twophase::BeginPrepare";

    open spec fn spec_min_buffer_size() -> usize {
        29
    }

    open spec fn spec_event_name() -> Seq<char> {
        "pgoutput::events::twophase::BeginPrepare"@
    }

    proof fn lemma_constants() {
    }

    open spec fn spec_decodable(buffer: Seq<u8>) -> bool {
        buffer.len() >= 28
    }

    fn is_decodable(buffer: &[u8]) -> (r: bool) {
        buffer.len() >= 28
    }

    open spec fn spec_from_buffer(buffer: Seq<u8>) -> BeginPrepareView {
        BeginPrepareView {
            lsn: be_i64(buffer, 0),
            end_lsn: be_i64(buffer, 8),
            timestamp: be_i64(buffer, 16),
            transaction_id: be_i32(buffer, 24),
            gid: c_string_text(buffer.skip(28)),
        }
    }

    fn from_buffer(buffer: &[u8]) -> (r: BeginPrepare) {
        Self {
            lsn: read_i64(buffer, 0),
            end_lsn: read_i64(buffer, 8),
            timestamp: read_i64(buffer, 16),
            transaction_id: read_i32(buffer, 24),
            gid: read_c_string(buffer, 28),
        }
    }
}

/// The prepare of a transaction.
#[derive(Debug)]
pub struct Prepare {
    pub flags: i8,
    pub lsn: i64,
    pub end_lsn: i64,
    pub timestamp: i64,
    pub transaction_id: i32,
    pub gid: String,
}

/// The commit of a prepared transaction.
#[derive(Debug)]
pub struct CommitPrepared {
    pub flags: i8,
    pub lsn: i64,
    pub end_lsn: i64,
    pub timestamp: i64,
    pub transaction_id: i32,
    pub gid: String,
}

/// The rollback of a prepared transaction.
#[derive(Debug)]
pub struct RollbackPrepared {
    pub flags: i8,
    pub lsn: i64,
    pub end_lsn: i64,
    pub prepare_timestamp: i64,
    pub rollback_timestamp: i64,
    pub transaction_id: i32,
    pub gid: String,
}

/// The view of a `Prepare` or a `CommitPrepared`.
pub struct PreparedTransactionView {
    pub flags: i8,
    pub lsn: i64,
    pub end_lsn: i64,
    pub timestamp: i64,
    pub transaction_id: i32,
    pub gid: Seq<char>,
}

/// The flags, LSNs, timestamp, id and gid that a `Prepare` or a
/// `CommitPrepared` is made of.
pub open spec fn spec_prepared_transaction(buffer: Seq<u8>) -> PreparedTransactionView {
    PreparedTransactionView {
        flags: byte_i8(buffer, 0),
        lsn: be_i64(buffer, 1),
        end_lsn: be_i64(buffer, 9),
        timestamp: be_i64(buffer, 17),
        transaction_id: be_i32(buffer, 25),
        gid: c_string_text(buffer.skip(29)),
    }
}

impl View for Prepare {
    type V = PreparedTransactionView;

    open spec fn view(&self) -> PreparedTransactionView {
        PreparedTransactionView {
            flags: self.flags,
            lsn: self.lsn,
            end_lsn: self.end_lsn,
            timestamp: self.timestamp,
            transaction_id: self.transaction_id,
            gid: self.gid@,
        }
    }
}

impl View for CommitPrepared {
    type V = PreparedTransactionView;

    open spec fn view(&self) -> PreparedTransactionView {
        PreparedTransactionView {
            flags: self.flags,
            lsn: self.lsn,
            end_lsn: self.end_lsn,
            timestamp: self.timestamp,
            transaction_id: self.transaction_id,
            gid: self.gid@,
        }
    }
}

/// The view of a `RollbackPrepared`.
pub struct RollbackPreparedView {
    pub flags: i8,
    pub lsn: i64,
    pub end_lsn: i64,
    pub prepare_timestamp: i64,
    pub rollback_timestamp: i64,
    pub transaction_id: i32,
    pub gid: Seq<char>,
}

impl View for RollbackPrepared {
    type V = RollbackPreparedView;

    open spec fn view(&self) -> RollbackPreparedView {
        RollbackPreparedView {
            flags: self.flags,
            lsn: self.lsn,
            end_lsn: self.end_lsn,
            prepare_timestamp: self.prepare_timestamp,
            rollback_timestamp: self.rollback_timestamp,
            transaction_id: self.transaction_id,
            gid: self.gid@,
        }
    }
}

impl DynamicSizeEvent for Prepare {
    const MIN_BUFFER_SIZE: usize = 1 + 8 + 8 + 8 + 4 + 1;

    const EVENT_NAME: &'static str = "pgoutput::events::twophase::Prepare";

    open spec fn spec_min_buffer_size() -> usize {
        30
    }

    open spec fn spec_event_name() -> Seq<char> {
        "pgoutput::events::twophase::Prepare"@
    }

    proof fn lemma_constants() {
    }

    open spec fn spec_decodable(buffer: Seq<u8>) -> bool {
        buffer.len() >= 29
    }

    fn is_decodable(buffer: &[u8]) -> (r: bool) {
        buffer.len() >= 29
    }

    open spec fn spec_from_buffer(buffer: Seq<u8>) -> PreparedTransactionView {
        spec_prepared_transaction(buffer)
    }

    fn from_buffer(buffer: &[u8]) -> (r: Self) {
        let flags = read_i8(buffer, 0);
        let lsn = read_i64(buffer, 1);
        let end_lsn = read_i64(buffer, 9);
        let timestamp = read_i64(buffer, 17);
        let transaction_id = read_i32(buffer, 25);
        let gid = read_c_string(buffer, 29);
        Self { flags, lsn, end_lsn, timestamp, transaction_id, gid }
    }
}

impl DynamicSizeEvent for CommitPrepared {
    const MIN_BUFFER_SIZE: usize = 1 + 8 + 8 + 8 + 4 + 1;

    const EVENT_NAME: &'static str = "pgoutput::events::twophase::CommitPrepared";

    open spec fn spec_min_buffer_size() -> usize {
        30
    }

    open spec fn spec_event_name() -> Seq<char> {
        "pgoutput::events::twophase::CommitPrepared"@
    }

    proof fn lemma_constants() {
    }

    open spec fn spec_decodable(buffer: Seq<u8>) -> bool {
        buffer.len() >= 29
    }

    fn is_decodable(buffer: &[u8]) -> (r: bool) {
        buffer.len() >= 29
    }

    open spec fn spec_from_buffer(buffer: Seq<u8>) -> PreparedTransactionView {
        spec_prepared_transaction(buffer)
    }

    fn from_buffer(buffer: &[u8]) -> (r: Self) {
        let flags = read_i8(buffer, 0);
        let lsn = read_i64(buffer, 1);
        let end_lsn = read_i64(buffer, 9);
        let timestamp = read_i64(buffer, 17);
        let transaction_id = read_i32(buffer, 25);
        let gid = read_c_string(buffer, 29);
        Self { flags, lsn, end_lsn, timestamp, transaction_id, gid }
    }
}

impl DynamicSizeEvent for RollbackPrepared {
    const MIN_BUFFER_SIZE: usize = 1 + 8 + 8 + 8 + 8 + 4 + 1;

    const EVENT_NAME: &'static str = "pgoutput::events::twophase::RollbackPrepared";

    open spec fn spec_min_buffer_size() -> usize {
        38
    }

    open spec fn spec_event_name() -> Seq<char> {
        "pgoutput::events::twophase::RollbackPrepared"@
    }

    proof fn lemma_constants() {
    }

    open spec fn spec_decodable(buffer: Seq<u8>) -> bool {
        buffer.len() >= 37
    }

    fn is_decodable(buffer: &[u8]) -> (r: bool) {
        buffer.len() >= 37
    }

    open spec fn spec_from_buffer(buffer: Seq<u8>) -> RollbackPreparedView {
        RollbackPreparedView {
            flags: byte_i8(buffer, 0),
            lsn: be_i64(buffer, 1),
            end_lsn: be_i64(buffer, 9),
            prepare_timestamp: be_i64(buffer, 17),
            rollback_timestamp: be_i64(buffer, 25),
            transaction_id: be_i32(buffer, 33),
            gid: c_string_text(buffer.skip(37)),
        }
    }

    fn from_buffer(buffer: &[u8]) -> (r: Self) {
        let flags = read_i8(buffer, 0);
        let lsn = read_i64(buffer, 1);
        let end_lsn = read_i64(buffer, 9);
        let prepare_timestamp = read_i64(buffer, 17);
        let rollback_timestamp = read_i64(buffer, 25);
        let transaction_id = read_i32(buffer, 33);
        let gid = read_c_string(buffer, 37);
        Self {
            flags,
            lsn,
            end_lsn,
            prepare_timestamp,
            rollback_timestamp,
            transaction_id,
            gid,
        }
    }
}

/// The body of a rollback prepared message with these fields, the gid's
/// bytes, its NUL, and `rest`.
pub open spec fn rollback_prepared_encoding(
    flags: i8,
    lsn: i64,
    end_lsn: i64,
    prepare_timestamp: i64,
    rollback_timestamp: i64,
    transaction_id: i32,
    gid: Seq<u8>,
    rest: Seq<u8>,
) -> Seq<u8> {
    seq![flags as u8] + i64_be_bytes(lsn) + i64_be_bytes(end_lsn) + i64_be_bytes(prepare_timestamp)
        + i64_be_bytes(rollback_timestamp) + i32_be_bytes(transaction_id) + gid + seq![0u8] + rest
}

/// A rollback prepared body built from fields decodes to those fields, the
/// gid up to its NUL, whatever follows.
pub proof fn lemma_rollback_prepared_round_trip(
    flags: i8,
    lsn: i64,
    end_lsn: i64,
    prepare_timestamp: i64,
    rollback_timestamp: i64,
    transaction_id: i32,
    gid: Seq<u8>,
    rest: Seq<u8>,
)
    requires
        forall|j: int| 0 <= j < gid.len() ==> gid[j] != 0,
    ensures
        ({
            let b = rollback_prepared_encoding(
                flags,
                lsn,
                end_lsn,
                prepare_timestamp,
                rollback_timestamp,
                transaction_id,
                gid,
                rest,
            );
            &&& b.len() >= RollbackPrepared::spec_min_buffer_size()
            &&& RollbackPrepared::spec_decodable(b)
            &&& RollbackPrepared::spec_from_buffer(b) == RollbackPreparedView {
                flags,
                lsn,
                end_lsn,
                prepare_timestamp,
                rollback_timestamp,
                transaction_id,
                gid: lossy_text(gid),
            }
        }),
{
    let b = rollback_prepared_encoding(
        flags,
        lsn,
        end_lsn,
        prepare_timestamp,
        rollback_timestamp,
        transaction_id,
        gid,
        rest,
    );
    assert((flags as u8) as i8 == flags) by (bit_vector);
    assert(b[0] == flags as u8);
    assert(b.subrange(1, 9) =~= i64_be_bytes(lsn));
    assert(b.subrange(9, 17) =~= i64_be_bytes(end_lsn));
    assert(b.subrange(17, 25) =~= i64_be_bytes(prepare_timestamp));
    assert(b.subrange(25, 33) =~= i64_be_bytes(rollback_timestamp));
    assert(b.subrange(33, 37) =~= i32_be_bytes(transaction_id));
    lemma_be_i64_bytes(b, 1, lsn);
    lemma_be_i64_bytes(b, 9, end_lsn);
    lemma_be_i64_bytes(b, 17, prepare_timestamp);
    lemma_be_i64_bytes(b, 25, rollback_timestamp);
    lemma_be_i32_bytes(b, 33, transaction_id);
    assert(b.skip(37) =~= gid + seq![0u8] + rest);
    lemma_c_string_of(gid, rest);
}

/// The body of a prepare or a commit prepared message with these fields,
/// the gid's bytes, its NUL, and `rest`.
pub open spec fn prepared_transaction_encoding(
    flags: i8,
    lsn: i64,
    end_lsn: i64,
    timestamp: i64,
    transaction_id: i32,
    gid: Seq<u8>,
    rest: Seq<u8>,
) -> Seq<u8> {
    seq![flags as u8] + i64_be_bytes(lsn) + i64_be_bytes(end_lsn) + i64_be_bytes(timestamp)
        + i32_be_bytes(transaction_id) + gid + seq![0u8] + rest
}

/// Reading the fields back from `prepared_transaction_encoding`.
proof fn lemma_prepared_transaction_fields(
    flags: i8,
    lsn: i64,
    end_lsn: i64,
    timestamp: i64,
    transaction_id: i32,
    gid: Seq<u8>,
    rest: Seq<u8>,
)
    requires
        forall|j: int| 0 <= j < gid.len() ==> gid[j] != 0,
    ensures
        ({
            let b = prepared_transaction_encoding(
                flags,
                lsn,
                end_lsn,
                timestamp,
                transaction_id,
                gid,
                rest,
            );
            &&& b.len() >= 30
            &&& byte_i8(b, 0) == flags
            &&& be_i64(b, 1) == lsn
            &&& be_i64(b, 9) == end_lsn
            &&& be_i64(b, 17) == timestamp
            &&& be_i32(b, 25) == transaction_id
            &&& c_string_text(b.skip(29)) == lossy_text(gid)
        }),
{
    let b = prepared_transaction_encoding(
        flags,
        lsn,
        end_lsn,
        timestamp,
        transaction_id,
        gid,
        rest,
    );
    assert(b[0] == flags as u8);
    lemma_byte_i8(b, 0, flags);
    assert(b.subrange(1, 9) =~= i64_be_bytes(lsn));
    assert(b.subrange(9, 17) =~= i64_be_bytes(end_lsn));
    assert(b.subrange(17, 25) =~= i64_be_bytes(timestamp));
    assert(b.subrange(25, 29) =~= i32_be_bytes(transaction_id));
    lemma_be_i64_bytes(b, 1, lsn);
    lemma_be_i64_bytes(b, 9, end_lsn);
    lemma_be_i64_bytes(b, 17, timestamp);
    lemma_be_i32_bytes(b, 25, transaction_id);
    assert(b.skip(29) =~= gid + seq![0u8] + rest);
    lemma_c_string_of(gid, rest);
}

/// A commit prepared body built from the flags, the commit LSN, the end
/// LSN, the commit timestamp, the transaction id and the gid decodes to
/// those fields, each in its place, the gid up to its NUL, whatever
/// follows.
pub proof fn lemma_commit_prepared_round_trip(
    flags: i8,
    lsn: i64,
    end_lsn: i64,
    timestamp: i64,
    transaction_id: i32,
    gid: Seq<u8>,
    rest: Seq<u8>,
)
    requires
        forall|j: int| 0 <= j < gid.len() ==> gid[j] != 0,
    ensures
        ({
            let b = prepared_transaction_encoding(
                flags,
                lsn,
                end_lsn,
                timestamp,
                transaction_id,
                gid,
                rest,
            );
            &&& b.len() >= CommitPrepared::spec_min_buffer_size()
            &&& CommitPrepared::spec_decodable(b)
            &&& CommitPrepared::spec_from_buffer(b) == PreparedTransactionView {
                flags,
                lsn,
                end_lsn,
                timestamp,
                transaction_id,
                gid: lossy_text(gid),
            }
        }),
{
    lemma_prepared_transaction_fields(flags, lsn, end_lsn, timestamp, transaction_id, gid, rest);
}

/// A prepare body built from the flags, the prepare LSN, the end LSN, the
/// prepare timestamp, the transaction id and the gid decodes to those
/// fields, each in its place, the gid up to its NUL, whatever follows.
pub proof fn lemma_prepare_round_trip(
    flags: i8,
    lsn: i64,
    end_lsn: i64,
    timestamp: i64,
    transaction_id: i32,
    gid: Seq<u8>,
    rest: Seq<u8>,
)
    requires
        forall|j: int| 0 <= j < gid.len() ==> gid[j] != 0,
    ensures
        ({
            let b = prepared_transaction_encoding(
                flags,
                lsn,
                end_lsn,
                timestamp,
                transaction_id,
                gid,
                rest,
            );
            &&& b.len() >= Prepare::spec_min_buffer_size()
            &&& Prepare::spec_decodable(b)
            &&& Prepare::spec_from_buffer(b) == PreparedTransactionView {
                flags,
                lsn,
                end_lsn,
                timestamp,
                transaction_id,
                gid: lossy_text(gid),
            }
        }),
{
    lemma_prepared_transaction_fields(flags, lsn, end_lsn, timestamp, transaction_id, gid, rest);
}

/// The body of a begin prepare message with these fields, the gid's bytes,
/// its NUL, and `rest`.
pub open spec fn begin_prepare_encoding(
    lsn: i64,
    end_lsn: i64,
    timestamp: i64,
    transaction_id: i32,
    gid: Seq<u8>,
    rest: Seq<u8>,
) -> Seq<u8> {
    i64_be_bytes(lsn) + i64_be_bytes(end_lsn) + i64_be_bytes(timestamp) + i32_be_bytes(
        transaction_id,
    ) + gid + seq![0u8] + rest
}

/// A begin prepare body built from the prepare LSN, the end LSN, the
/// prepare timestamp, the transaction id and the gid decodes to those
/// fields, each in its place, the gid up to its NUL, whatever follows.
pub proof fn lemma_begin_prepare_round_trip(
    lsn: i64,
    end_lsn: i64,
    timestamp: i64,
    transaction_id: i32,
    gid: Seq<u8>,
    rest: Seq<u8>,
)
    requires
        forall|j: int| 0 <= j < gid.len() ==> gid[j] != 0,
    ensures
        ({
            let b = begin_prepare_encoding(lsn, end_lsn, timestamp, transaction_id, gid, rest);
            &&& b.len() >= BeginPrepare::spec_min_buffer_size()
            &&& BeginPrepare::spec_decodable(b)
            &&& BeginPrepare::spec_from_buffer(b) == BeginPrepareView {
                lsn,
                end_lsn,
                timestamp,
                transaction_id,
                gid: lossy_text(gid),
            }
        }),
{
    let b = begin_prepare_encoding(lsn, end_lsn, timestamp, transaction_id, gid, rest);
    assert(b.subrange(0, 8) =~= i64_be_bytes(lsn));
    assert(b.subrange(8, 16) =~= i64_be_bytes(end_lsn));
    assert(b.subrange(16, 24) =~= i64_be_bytes(timestamp));
    assert(b.subrange(24, 28) =~= i32_be_bytes(transaction_id));
    lemma_be_i64_bytes(b, 0, lsn);
    lemma_be_i64_bytes(b, 8, end_lsn);
    lemma_be_i64_bytes(b, 16, timestamp);
    lemma_be_i32_bytes(b, 24, transaction_id);
    assert(b.skip(28) =~= gid + seq![0u8] + rest);
    lemma_c_string_of(gid, rest);
}

/// A message of two-phase commit.
#[derive(Debug)]
pub enum TwoPhaseCommitEvent {
    BeginPrepare(BeginPrepare),
    Prepare(Prepare),
    CommitPrepared(CommitPrepared),
    RollbackPrepared(RollbackPrepared),
}

/// A body of `len` bytes passes the size check of messages of kind `t`.
pub open spec fn two_phase_accepts(t: TwoPhaseCommitEventType, len: nat) -> bool {
    match t {
        TwoPhaseCommitEventType::BeginPrepare => dynamic_size_accepts::<BeginPrepare>(len),
        TwoPhaseCommitEventType::Prepare => dynamic_size_accepts::<Prepare>(len),
        TwoPhaseCommitEventType::CommitPrepared => dynamic_size_accepts::<CommitPrepared>(len),
        TwoPhaseCommitEventType::RollbackPrepared => dynamic_size_accepts::<RollbackPrepared>(len),
    }
}

/// The error for a body of kind `t` that fails the size check.
pub open spec fn two_phase_size_error(t: TwoPhaseCommitEventType) -> Seq<char> {
    match t {
        TwoPhaseCommitEventType::BeginPrepare => dynamic_size_error::<BeginPrepare>(),
        TwoPhaseCommitEventType::Prepare => dynamic_size_error::<Prepare>(),
        TwoPhaseCommitEventType::CommitPrepared => dynamic_size_error::<CommitPrepared>(),
        TwoPhaseCommitEventType::RollbackPrepared => dynamic_size_error::<RollbackPrepared>(),
    }
}

/// `e` is the message of kind `t` that `buffer` encodes.
pub open spec fn two_phase_event_decodes(
    e: TwoPhaseCommitEvent,
    t: TwoPhaseCommitEventType,
    buffer: Seq<u8>,
) -> bool {
    match t {
        TwoPhaseCommitEventType::BeginPrepare => e matches TwoPhaseCommitEvent::BeginPrepare(v)
            && v@ == BeginPrepare::spec_from_buffer(buffer),
        TwoPhaseCommitEventType::Prepare => e matches TwoPhaseCommitEvent::Prepare(v) && v@
            == Prepare::spec_from_buffer(buffer),
        TwoPhaseCommitEventType::CommitPrepared => e matches TwoPhaseCommitEvent::CommitPrepared(
            v,
        ) && v@ == CommitPrepared::spec_from_buffer(buffer),
        TwoPhaseCommitEventType::RollbackPrepared => e matches TwoPhaseCommitEvent::RollbackPrepared(
            v,
        ) && v@ == RollbackPrepared::spec_from_buffer(buffer),
    }
}

/// Decodes the body `buffer` of a message of kind `event_type`.
pub fn parse_two_phase_commit_event(event_type: &TwoPhaseCommitEventType, buffer: &[u8]) -> (r: Result<
    TwoPhaseCommitEvent,
    String,
>)
    ensures
        r is Ok <==> two_phase_accepts(*event_type, buffer@.len()),
        r matches Ok(e) ==> two_phase_event_decodes(e, *event_type, buffer@),
        r matches Err(m) ==> m@ == two_phase_size_error(*event_type),
{
    match event_type {
        TwoPhaseCommitEventType::BeginPrepare => match parse_dynamic_size_event::<BeginPrepare>(
            buffer,
        ) {
            Ok(value) => Ok(TwoPhaseCommitEvent::BeginPrepare(value)),
            Err(e) => Err(e),
        },
        TwoPhaseCommitEventType::Prepare => match parse_dynamic_size_event::<Prepare>(buffer) {
            Ok(value) => Ok(TwoPhaseCommitEvent::Prepare(value)),
            Err(e) => Err(e),
        },
        TwoPhaseCommitEventType::CommitPrepared => match parse_dynamic_size_event::<
            CommitPrepared,
        >(buffer) {
            Ok(value) => Ok(TwoPhaseCommitEvent::CommitPrepared(value)),
            Err(e) => Err(e),
        },
        TwoPhaseCommitEventType::RollbackPrepared => match parse_dynamic_size_event::<
            RollbackPrepared,
        >(buffer) {
            Ok(value) => Ok(TwoPhaseCommitEvent::RollbackPrepared(value)),
            Err(e) => Err(e),
        },
    }
}

} // verus!
