//! # States and locks for memory-mapped files
//!
//! The cross-process readers–writer lock whose entire state fits in one
//! 32-bit word that lives at the head of the shared region itself. The word
//! packs, from the most significant bit down:
//!
//! - bit 31: the exclusive writer flag;
//! - bits 30..24: the initialization field, all ones while the region is not
//!   yet published and all zeros afterwards;
//! - bits 23..0: the count of shared readers, saturated at all ones.
//!
//! [`RWLock`] holds such a word and offers the non-blocking acquire and
//! release transitions over it; the bounded spin helpers sit on top of them.
//! On the real shared region the word is mutated through 32-bit atomic
//! compare-and-exchange; here the word is owned by the lock value and every
//! transition is a function from the old word to the new one, stated exactly
//! in the contracts so that the protocol's invariants can be proved once and
//! for all over any sequence of operations.

use vstd::prelude::*;

use crate::err::{Error, MMFResult};

verus! {

/// Mask of the initialization field. The field holds all ones while the
/// region is uninitialized; this mask is also that sentinel pattern.
pub const INITIALIZE_MASK: u32 = 0x7f00_0000;

/// Mask of the exclusive writer flag.
pub const WRITE_LOCK_MASK: u32 = 0x8000_0000;

/// Mask of the shared-reader count.
pub const READ_LOCK_MASK: u32 = 0x00ff_ffff;

/// The initialization field of a control word.
pub open spec fn init_bits(word: u32) -> u32 {
    word & INITIALIZE_MASK
}

/// The shared-reader count of a control word.
pub open spec fn readers(word: u32) -> u32 {
    word & READ_LOCK_MASK
}

/// Whether the exclusive writer flag of a control word is set.
pub open spec fn writer(word: u32) -> bool {
    word & WRITE_LOCK_MASK == WRITE_LOCK_MASK
}

/// Whether a control word has been published: its initialization field no
/// longer bears the all-ones sentinel.
pub open spec fn initialized(word: u32) -> bool {
    init_bits(word) != INITIALIZE_MASK
}

/// Packed binary data representing the locking state of a shared region.
///
/// On the target OS, cross-process atomicity is only guaranteed for 32-bit
/// operations, so the whole lock state is one `u32`. Splitting the state
/// across cells would require a second-order protocol.
#[derive(Debug)]
pub struct RWLock {
    /// The control word: writer flag, initialization field, reader count.
    pub chunk: u32,
}

impl RWLock {
    /// Adopt an already-existing control word, without touching it.
    ///
    /// The word is taken as found; if the peer that produced it did not obey
    /// the protocol, this constructs a poisoned lock.
    pub fn from_existing(word: u32) -> (r: RWLock)
        ensures
            r.chunk == word,
    {
        RWLock { chunk: word }
    }

    /// Lay down a fresh control word bearing the uninitialized sentinel, so
    /// that every operation except the creator's publish step fails on it.
    pub fn from_raw() -> (r: RWLock)
        ensures
            r.chunk == INITIALIZE_MASK,
            !initialized(r.chunk),
    {
        proof {
            assert(0x7f00_0000u32 & 0x7f00_0000u32 == 0x7f00_0000u32) by (bit_vector);
        }
        RWLock { chunk: INITIALIZE_MASK }
    }

    /// Mark this lock as initialized if it isn't yet: compare-and-exchange of
    /// the uninitialized sentinel to zero. A no-op if already published, so a
    /// late joiner cannot wipe live locks of peers.
    pub fn set_init(&mut self)
        ensures
            final(self).chunk == publish(old(self).chunk),
    {
        if self.chunk == INITIALIZE_MASK {
            self.chunk = 0;
        }
    }

    /// Thin wrapper around [`Self::set_init`] that returns self for chaining.
    pub fn initialize(self) -> (r: RWLock)
        ensures
            r.chunk == publish(self.chunk),
    {
        let mut lock = self;
        lock.set_init();
        lock
    }

    /// Check if the lock has been published.
    pub fn initialized(&self) -> (r: bool)
        ensures
            r == initialized(self.chunk),
    {
        self.chunk & INITIALIZE_MASK != INITIALIZE_MASK
    }

    /// Check if the lock is held for reading. This only prevents new write locks.
    pub fn readlocked(&self) -> (r: bool)
        ensures
            r == (readers(self.chunk) > 0),
    {
        self.chunk & READ_LOCK_MASK > 0
    }

    /// Check if the lock is held for writing. This prevents all other locking.
    pub fn writelocked(&self) -> (r: bool)
        ensures
            r == writer(self.chunk),
    {
        self.chunk & WRITE_LOCK_MASK == WRITE_LOCK_MASK
    }
}

/// Whether a shared lock can be taken on a control word: the word is
/// published, no writer holds it, and the reader count is not saturated.
pub open spec fn lock_read_ok(word: u32) -> bool {
    initialized(word) && !writer(word) && readers(word) < READ_LOCK_MASK
}

/// The error a shared acquire reports, checked in protocol order.
pub open spec fn lock_read_err(word: u32) -> Error {
    if !initialized(word) {
        Error::Uninitialized
    } else if writer(word) {
        Error::WriteLocked
    } else {
        Error::MaxReaders
    }
}

/// Whether a shared lock can be released: the word is published, no writer
/// coexists with the reader, and there is a reader to release.
pub open spec fn unlock_read_ok(word: u32) -> bool {
    initialized(word) && !writer(word) && readers(word) > 0
}

/// The error a shared release reports, checked in protocol order. A writer
/// flag here signals protocol misuse, a zero count means there was no reader
/// to release.
pub open spec fn unlock_read_err(word: u32) -> Error {
    if !initialized(word) {
        Error::Uninitialized
    } else if writer(word) {
        Error::WriteLocked
    } else {
        Error::GeneralFailure
    }
}

/// Whether the exclusive lock can be taken: the word is published and
/// carries neither a writer nor any reader.
pub open spec fn lock_write_ok(word: u32) -> bool {
    initialized(word) && !writer(word) && readers(word) == 0
}

/// The error an exclusive acquire reports, checked in protocol order.
pub open spec fn lock_write_err(word: u32) -> Error {
    if !initialized(word) {
        Error::Uninitialized
    } else if writer(word) {
        Error::WriteLocked
    } else {
        Error::ReadLocked
    }
}

/// Whether the exclusive lock can be released: the word is published, the
/// writer flag is actually set, and no reader snuck in beside it.
pub open spec fn unlock_write_ok(word: u32) -> bool {
    initialized(word) && writer(word) && readers(word) == 0
}

/// The error an exclusive release reports, checked in protocol order. A
/// missing writer flag means the caller wasn't holding the lock; readers
/// beside a writer mean the protocol was poisoned.
pub open spec fn unlock_write_err(word: u32) -> Error {
    if !initialized(word) {
        Error::Uninitialized
    } else if !writer(word) {
        Error::WriteLocked
    } else {
        Error::ReadLocked
    }
}

/// The control word after a shared acquire: one more reader on success, no
/// change on failure.
pub open spec fn step_lock_read(word: u32) -> u32 {
    if lock_read_ok(word) {
        (word + 1) as u32
    } else {
        word
    }
}

/// The control word after a shared release: one reader fewer on success, no
/// change on failure.
pub open spec fn step_unlock_read(word: u32) -> u32 {
    if unlock_read_ok(word) {
        (word - 1) as u32
    } else {
        word
    }
}

/// The control word after an exclusive acquire: the writer flag set on
/// success, no change on failure.
pub open spec fn step_lock_write(word: u32) -> u32 {
    if lock_write_ok(word) {
        word | WRITE_LOCK_MASK
    } else {
        word
    }
}

/// The control word after an exclusive release: the writer flag cleared on
/// success, no change on failure.
pub open spec fn step_unlock_write(word: u32) -> u32 {
    if unlock_write_ok(word) {
        word ^ WRITE_LOCK_MASK
    } else {
        word
    }
}

impl RWLock {
    /// Increment the counter for read locks *if and only if* the word can
    /// safely be locked for reading.
    pub fn lock_read(&mut self) -> (r: MMFResult<()>)
        ensures
            final(self).chunk == step_lock_read(old(self).chunk),
            lock_read_ok(old(self).chunk) ==> r == MMFResult::<()>::Ok(()) && readers(
                final(self).chunk,
            ) == readers(old(self).chunk) + 1 && writer(final(self).chunk) == writer(
                old(self).chunk,
            ) && init_bits(final(self).chunk) == init_bits(old(self).chunk) && old(self).chunk
                < 0xffff_ffffu32,
            !lock_read_ok(old(self).chunk) ==> r == MMFResult::<()>::Err(
                lock_read_err(old(self).chunk),
            ),
    {
        let chunk = self.chunk;
        if chunk & INITIALIZE_MASK == INITIALIZE_MASK {
            return Err(Error::Uninitialized);
        }
        if chunk & WRITE_LOCK_MASK == WRITE_LOCK_MASK {
            return Err(Error::WriteLocked);
        }
        if chunk & READ_LOCK_MASK == READ_LOCK_MASK {
            return Err(Error::MaxReaders);
        }
        proof {
            lemma_reader_increment(chunk);
        }
        self.chunk = chunk + 1;
        Ok(())
    }

    /// Decrease the read lock counter if it can safely be done.
    pub fn unlock_read(&mut self) -> (r: MMFResult<()>)
        ensures
            final(self).chunk == step_unlock_read(old(self).chunk),
            unlock_read_ok(old(self).chunk) ==> r == MMFResult::<()>::Ok(()) && readers(
                final(self).chunk,
            ) == readers(old(self).chunk) - 1 && writer(final(self).chunk) == writer(
                old(self).chunk,
            ) && init_bits(final(self).chunk) == init_bits(old(self).chunk),
            !unlock_read_ok(old(self).chunk) ==> r == MMFResult::<()>::Err(
                unlock_read_err(old(self).chunk),
            ),
    {
        let chunk = self.chunk;
        if chunk & INITIALIZE_MASK == INITIALIZE_MASK {
            return Err(Error::Uninitialized);
        }
        if chunk & WRITE_LOCK_MASK == WRITE_LOCK_MASK {
            return Err(Error::WriteLocked);
        }
        if chunk & READ_LOCK_MASK == 0 {
            return Err(Error::GeneralFailure);
        }
        proof {
            lemma_reader_decrement(chunk);
        }
        self.chunk = chunk - 1;
        Ok(())
    }

    /// Set the writer flag if possible.
    pub fn lock_write(&mut self) -> (r: MMFResult<()>)
        ensures
            final(self).chunk == step_lock_write(old(self).chunk),
            lock_write_ok(old(self).chunk) ==> r == MMFResult::<()>::Ok(()) && readers(
                final(self).chunk,
            ) == readers(old(self).chunk) && writer(final(self).chunk) && init_bits(
                final(self).chunk,
            ) == init_bits(old(self).chunk),
            !lock_write_ok(old(self).chunk) ==> r == MMFResult::<()>::Err(
                lock_write_err(old(self).chunk),
            ),
    {
        let chunk = self.chunk;
        if chunk & INITIALIZE_MASK == INITIALIZE_MASK {
            return Err(Error::Uninitialized);
        }
        if chunk & WRITE_LOCK_MASK == WRITE_LOCK_MASK {
            return Err(Error::WriteLocked);
        }
        if chunk & READ_LOCK_MASK > 0 {
            return Err(Error::ReadLocked);
        }
        proof {
            lemma_writer_set(chunk);
        }
        self.chunk = chunk | WRITE_LOCK_MASK;
        Ok(())
    }

    /// Release the write lock if the caller is the one holding it.
    pub fn unlock_write(&mut self) -> (r: MMFResult<()>)
        ensures
            final(self).chunk == step_unlock_write(old(self).chunk),
            unlock_write_ok(old(self).chunk) ==> r == MMFResult::<()>::Ok(()) && readers(
                final(self).chunk,
            ) == readers(old(self).chunk) && !writer(final(self).chunk) && init_bits(
                final(self).chunk,
            ) == init_bits(old(self).chunk),
            !unlock_write_ok(old(self).chunk) ==> r == MMFResult::<()>::Err(
                unlock_write_err(old(self).chunk),
            ),
    {
        let chunk = self.chunk;
        if chunk & INITIALIZE_MASK == INITIALIZE_MASK {
            return Err(Error::Uninitialized);
        }
        if chunk & WRITE_LOCK_MASK != WRITE_LOCK_MASK {
            return Err(Error::WriteLocked);
        }
        if chunk & READ_LOCK_MASK > 0 {
            return Err(Error::ReadLocked);
        }
        proof {
            lemma_writer_clear(chunk);
        }
        self.chunk = chunk ^ WRITE_LOCK_MASK;
        Ok(())
    }

    /// Crude bounded spinning without backoff: retry a shared acquire while
    /// it keeps failing on a present writer, up to `max_tries` retries; any
    /// other failure aborts at once with its own error.
    pub fn spin_and_lock_read(lock: &mut RWLock, max_tries: usize) -> (r: MMFResult<()>)
        ensures
            final(lock).chunk == step_lock_read(old(lock).chunk),
            lock_read_ok(old(lock).chunk) ==> r == MMFResult::<()>::Ok(()) && readers(
                final(lock).chunk,
            ) == readers(old(lock).chunk) + 1 && writer(final(lock).chunk) == writer(
                old(lock).chunk,
            ) && init_bits(final(lock).chunk) == init_bits(old(lock).chunk) && old(lock).chunk
                < 0xffff_ffffu32,
            !initialized(old(lock).chunk) ==> r == MMFResult::<()>::Err(Error::Uninitialized),
            initialized(old(lock).chunk) && writer(old(lock).chunk) ==> r == MMFResult::<()>::Err(
                Error::MaxTriesReached,
            ),
            initialized(old(lock).chunk) && !writer(old(lock).chunk) && readers(old(lock).chunk)
                >= READ_LOCK_MASK ==> r == MMFResult::<()>::Err(Error::MaxReaders),
    {
        let mut tries: usize = 0;
        loop
            invariant
                lock.chunk == old(lock).chunk,
                tries < max_tries || tries == 0,
            decreases max_tries - tries,
        {
            let attempt = lock.lock_read();
            match attempt {
                Ok(u) => {
                    return Ok(u);
                },
                Err(Error::WriteLocked) => {
                    tries = tries + 1;
                    if tries >= max_tries {
                        return Err(Error::MaxTriesReached);
                    }
                },
                Err(err) => {
                    return Err(err);
                },
            }
        }
    }

    /// Crude bounded spinning without backoff: retry an exclusive acquire
    /// while it keeps failing on a present writer or on present readers, up
    /// to `max_tries` retries; any other failure aborts at once.
    pub fn spin_and_lock_write(lock: &mut RWLock, max_tries: usize) -> (r: MMFResult<()>)
        ensures
            final(lock).chunk == step_lock_write(old(lock).chunk),
            lock_write_ok(old(lock).chunk) ==> r == MMFResult::<()>::Ok(()) && readers(
                final(lock).chunk,
            ) == readers(old(lock).chunk) && writer(final(lock).chunk) && init_bits(
                final(lock).chunk,
            ) == init_bits(old(lock).chunk),
            !initialized(old(lock).chunk) ==> r == MMFResult::<()>::Err(Error::Uninitialized),
            initialized(old(lock).chunk) && (writer(old(lock).chunk) || readers(old(lock).chunk)
                > 0) ==> r == MMFResult::<()>::Err(Error::MaxTriesReached),
    {
        let mut tries: usize = 0;
        loop
            invariant
                lock.chunk == old(lock).chunk,
                tries < max_tries || tries == 0,
            decreases max_tries - tries,
        {
            let attempt = lock.lock_write();
            match attempt {
                Ok(u) => {
                    return Ok(u);
                },
                Err(Error::WriteLocked) | Err(Error::ReadLocked) => {
                    tries = tries + 1;
                    if tries >= max_tries {
                        return Err(Error::MaxTriesReached);
                    }
                },
                Err(err) => {
                    return Err(err);
                },
            }
        }
    }
}

/// Raising the reader count by one carries no bit into the neighbouring
/// fields as long as the count is not saturated.
proof fn lemma_reader_increment(w: u32)
    requires
        w & READ_LOCK_MASK != READ_LOCK_MASK,
    ensures
        w & READ_LOCK_MASK < READ_LOCK_MASK,
        w < 0xffff_ffffu32,
        (w + 1) as u32 & READ_LOCK_MASK == (w & READ_LOCK_MASK) + 1,
        (w + 1) as u32 & INITIALIZE_MASK == w & INITIALIZE_MASK,
        (w + 1) as u32 & WRITE_LOCK_MASK == w & WRITE_LOCK_MASK,
{
    assert(w & 0x00ff_ffffu32 != 0x00ff_ffffu32 ==> w & 0x00ff_ffffu32 < 0x00ff_ffffu32 && w
        < 0xffff_ffffu32 && ((w + 1) as u32) & 0x00ff_ffffu32 == (w & 0x00ff_ffffu32) + 1 && ((w
        + 1) as u32) & 0x7f00_0000u32 == w & 0x7f00_0000u32 && ((w + 1) as u32) & 0x8000_0000u32
        == w & 0x8000_0000u32) by (bit_vector);
}

/// Lowering the reader count by one borrows nothing from the neighbouring
/// fields as long as there is a reader to release.
proof fn lemma_reader_decrement(w: u32)
    requires
        w & READ_LOCK_MASK > 0,
    ensures
        w >= 1,
        (w - 1) as u32 & READ_LOCK_MASK == (w & READ_LOCK_MASK) - 1,
        (w - 1) as u32 & INITIALIZE_MASK == w & INITIALIZE_MASK,
        (w - 1) as u32 & WRITE_LOCK_MASK == w & WRITE_LOCK_MASK,
{
    assert(w & 0x00ff_ffffu32 > 0 ==> w >= 1 && ((w - 1) as u32) & 0x00ff_ffffu32 == (w
        & 0x00ff_ffffu32) - 1 && ((w - 1) as u32) & 0x7f00_0000u32 == w & 0x7f00_0000u32 && ((w
        - 1) as u32) & 0x8000_0000u32 == w & 0x8000_0000u32) by (bit_vector);
}

/// Setting and then clearing the writer flag hands the original word back.
pub proof fn lemma_write_lock_round_trip(w: u32)
    requires
        w & WRITE_LOCK_MASK != WRITE_LOCK_MASK,
    ensures
        (w | WRITE_LOCK_MASK) ^ WRITE_LOCK_MASK == w,
{
    assert(w & 0x8000_0000u32 != 0x8000_0000u32 ==> ((w | 0x8000_0000u32) ^ 0x8000_0000u32)
        == w) by (bit_vector);
}

/// Setting the writer flag touches neither the initialization field nor the
/// reader count.
proof fn lemma_writer_set(w: u32)
    ensures
        (w | WRITE_LOCK_MASK) & WRITE_LOCK_MASK == WRITE_LOCK_MASK,
        (w | WRITE_LOCK_MASK) & READ_LOCK_MASK == w & READ_LOCK_MASK,
        (w | WRITE_LOCK_MASK) & INITIALIZE_MASK == w & INITIALIZE_MASK,
{
    assert((w | 0x8000_0000u32) & 0x8000_0000u32 == 0x8000_0000u32 && (w | 0x8000_0000u32)
        & 0x00ff_ffffu32 == w & 0x00ff_ffffu32 && (w | 0x8000_0000u32) & 0x7f00_0000u32 == w
        & 0x7f00_0000u32) by (bit_vector);
}

/// Clearing a set writer flag touches neither the initialization field nor
/// the reader count.
proof fn lemma_writer_clear(w: u32)
    requires
        w & WRITE_LOCK_MASK == WRITE_LOCK_MASK,
    ensures
        (w ^ WRITE_LOCK_MASK) & WRITE_LOCK_MASK != WRITE_LOCK_MASK,
        (w ^ WRITE_LOCK_MASK) & READ_LOCK_MASK == w & READ_LOCK_MASK,
        (w ^ WRITE_LOCK_MASK) & INITIALIZE_MASK == w & INITIALIZE_MASK,
{
    assert(w & 0x8000_0000u32 == 0x8000_0000u32 ==> (w ^ 0x8000_0000u32) & 0x8000_0000u32
        != 0x8000_0000u32 && (w ^ 0x8000_0000u32) & 0x00ff_ffffu32 == w & 0x00ff_ffffu32 && (w
        ^ 0x8000_0000u32) & 0x7f00_0000u32 == w & 0x7f00_0000u32) by (bit_vector);
}

/// The word after the creator's publish step: the exact sentinel becomes
/// zero, anything else is left alone.
pub open spec fn publish(word: u32) -> u32 {
    if word == INITIALIZE_MASK {
        0
    } else {
        word
    }
}

/// Publishing the sentinel leaves an initialized word behind, and a word
/// that was already initialized stays initialized.
pub proof fn lemma_publish_initialized(word: u32)
    ensures
        word == INITIALIZE_MASK ==> initialized(publish(word)),
        initialized(word) ==> initialized(publish(word)),
{
    assert(0u32 & 0x7f00_0000u32 != 0x7f00_0000u32) by (bit_vector);
}

/// Publishing is idempotent: a second publish step finds either a zero
/// initialization field or live lock state, and leaves both alone.
pub proof fn lemma_publish_idempotent(word: u32)
    ensures
        publish(publish(word)) == publish(word),
{
    assert(0u32 != 0x7f00_0000u32) by (bit_vector);
}

/// Take a control word apart into its top byte — writer flag and
/// initialization field — and its 24-bit reader count, by lack of a proper
/// 24-bit integer type.
pub fn split_lock(lock: u32) -> (r: (u8, u32))
    ensures
        r.0 == lock >> 24,
        r.1 == readers(lock),
{
    proof {
        assert(lock >> 24 <= 0xffu32) by (bit_vector);
    }
    ((lock >> 24) as u8, lock & READ_LOCK_MASK)
}

/// Pack a top byte and a 24-bit reader count back together into a control
/// word.
pub fn merge_lock(bytes: (u8, u32)) -> (r: u32)
    requires
        bytes.1 <= READ_LOCK_MASK,
    ensures
        r == ((bytes.0 as u32) << 24) | bytes.1,
{
    ((bytes.0 as u32) << 24) | bytes.1
}

/// Splitting a control word and merging the halves again hands the word
/// back: the top byte and the reader count together carry all 32 bits.
pub proof fn lemma_split_merge_round_trip(lock: u32)
    ensures
        ((((lock >> 24) as u8) as u32) << 24) | readers(lock) == lock,
        readers(lock) <= READ_LOCK_MASK,
{
    assert(((((lock >> 24) as u8) as u32) << 24) | (lock & 0x00ff_ffffu32) == lock && (lock
        & 0x00ff_ffffu32) <= 0x00ff_ffffu32) by (bit_vector);
}

/// One acquire or release transition of the protocol, as peers may issue
/// them in any order from any process.
#[derive(Clone, Copy, Debug, PartialEq, Eq, Structural)]
pub enum LockOp {
    /// A shared acquire.
    LockRead,
    /// A shared release.
    UnlockRead,
    /// An exclusive acquire.
    LockWrite,
    /// An exclusive release.
    UnlockWrite,
}

/// The control word after one protocol transition; a failing transition
/// leaves the word as it was.
pub open spec fn step(word: u32, op: LockOp) -> u32 {
    match op {
        LockOp::LockRead => step_lock_read(word),
        LockOp::UnlockRead => step_unlock_read(word),
        LockOp::LockWrite => step_lock_write(word),
        LockOp::UnlockWrite => step_unlock_write(word),
    }
}

/// The control word after a whole sequence of protocol transitions, applied
/// first to last.
pub open spec fn apply_ops(word: u32, ops: Seq<LockOp>) -> u32
    decreases ops.len(),
{
    if ops.len() == 0 {
        word
    } else {
        apply_ops(step(word, ops[0]), ops.subrange(1, ops.len() as int))
    }
}

/// Mutual exclusion as a state predicate: never a writer and a reader at the
/// same time.
pub open spec fn exclusion(word: u32) -> bool {
    !(writer(word) && readers(word) > 0)
}

/// One protocol transition preserves mutual exclusion, never unpublishes an
/// initialized word, and leaves an unpublished word entirely alone.
pub proof fn lemma_step_protocol(word: u32, op: LockOp)
    ensures
        exclusion(word) ==> exclusion(step(word, op)),
        initialized(word) ==> initialized(step(word, op)),
        !initialized(word) ==> step(word, op) == word,
{
    match op {
        LockOp::LockRead => {
            if lock_read_ok(word) {
                lemma_reader_increment(word);
            }
        },
        LockOp::UnlockRead => {
            if unlock_read_ok(word) {
                lemma_reader_decrement(word);
            }
        },
        LockOp::LockWrite => {
            if lock_write_ok(word) {
                lemma_writer_set(word);
            }
        },
        LockOp::UnlockWrite => {
            if unlock_write_ok(word) {
                lemma_writer_clear(word);
            }
        },
    }
}

/// For any sequence of acquire and release transitions that peers issue
/// against a control word that satisfies mutual exclusion — as a fresh or a
/// freshly published word does — the word never reaches a state with both the
/// writer flag set and a positive reader count.
pub proof fn lemma_exclusion_invariant(word: u32, ops: Seq<LockOp>)
    requires
        exclusion(word),
    ensures
        exclusion(apply_ops(word, ops)),
    decreases ops.len(),
{
    if ops.len() > 0 {
        lemma_step_protocol(word, ops[0]);
        lemma_exclusion_invariant(step(word, ops[0]), ops.subrange(1, ops.len() as int));
    }
}

/// Once the creator has published a control word, no sequence of acquire and
/// release transitions ever brings the uninitialized sentinel back: the word
/// stays initialized until the region is destroyed.
pub proof fn lemma_initialized_stays(word: u32, ops: Seq<LockOp>)
    requires
        initialized(word),
    ensures
        initialized(apply_ops(word, ops)),
    decreases ops.len(),
{
    if ops.len() > 0 {
        lemma_step_protocol(word, ops[0]);
        lemma_initialized_stays(step(word, ops[0]), ops.subrange(1, ops.len() as int));
    }
}

/// Before the creator publishes, every acquire and release transition fails
/// and leaves the word alone: a word fresh from the uninitialized sentinel
/// stays the sentinel, and probes keep reporting it uninitialized, until the
/// publish step itself.
pub proof fn lemma_uninitialized_refuses(word: u32, ops: Seq<LockOp>)
    requires
        !initialized(word),
    ensures
        apply_ops(word, ops) == word,
    decreases ops.len(),
{
    if ops.len() > 0 {
        lemma_step_protocol(word, ops[0]);
        lemma_uninitialized_refuses(word, ops.subrange(1, ops.len() as int));
    }
}

} // verus!
