//! # Memory-mapped files
//!
//! The mapping object and the shared region it works on. A creator allocates
//! and zeroes a region, publishes the control word at its head, and exposes a
//! byte-oriented read/write surface over the payload that follows; an opener
//! adopts the same region without reinitializing it. All payload access is
//! bracketed by the coordination protocol of [`crate::states`].

use vstd::prelude::*;
use vstd::string::StringSliceAdditionalSpecFns;
use vstd::utf8::encode_utf8;

use crate::err::{Error, MMFResult};
use fixedstr::ztr64;

verus! {

/// Namespaces as an enum, to unambiguously represent where a mapping name
/// is visible.
#[derive(Clone, Copy, Debug, PartialEq, Eq, Structural)]
pub enum Namespace {
    /// Local namespace, always allowed and sharable with child processes.
    LOCAL,
    /// Global namespace; creating there requires elevated rights on the OS.
    GLOBAL,
    /// Custom namespace, private unless handles are shared explicitly.
    CUSTOM,
}

impl Namespace {
    /// The numeric tags accepted from non-native callers: zero is local, one
    /// is global, two is custom, anything else is refused.
    pub fn try_from(value: u8) -> (r: Result<Namespace, ()>)
        ensures
            value == 0 ==> r == Ok::<Namespace, ()>(Namespace::LOCAL),
            value == 1 ==> r == Ok::<Namespace, ()>(Namespace::GLOBAL),
            value == 2 ==> r == Ok::<Namespace, ()>(Namespace::CUSTOM),
            value > 2 ==> r == Err::<Namespace, ()>(()),
    {
        if value == 0 {
            Ok(Namespace::LOCAL)
        } else if value == 1 {
            Ok(Namespace::GLOBAL)
        } else if value == 2 {
            Ok(Namespace::CUSTOM)
        } else {
            Err(())
        }
    }
}

/// Fixed-capacity, zero-terminated strings keep the mapping name alive in a
/// form the OS naming calls can take directly; `ztr64` stores up to 63 bytes.
#[verifier::external_type_specification]
#[verifier::external_body]
pub struct ExZstr<const N: usize>(fixedstr::zstr<N>);

/// The text a fixed-capacity mapping name holds, as the characters its
/// stored bytes decode to.
pub uninterp spec fn name_chars(z: ztr64) -> Seq<char>;

/// Whether a fixed-capacity mapping name is well formed: assembled from
/// whole pieces of `&str` content, so that the bytes it stores are exactly
/// the UTF-8 encoding of its characters, within the 63-byte capacity and
/// free of interior zero bytes.
pub uninterp spec fn name_wf(z: ztr64) -> bool;

/// Relies on fixedstr's `zstr::make`: a string whose UTF-8 form fits the
/// 63-byte capacity is stored whole, byte for byte.
#[verifier::external_body]
fn ztr_from_str(s: &str) -> (r: ztr64)
    requires
        s.spec_bytes().len() <= 63,
        !s@.contains('\0'),
    ensures
        name_wf(r),
        name_chars(r) == s@,
{
    ztr64::make(s)
}

/// Relies on fixedstr's `zstr::push_str` (through its `Add` impl): appending
/// within the remaining capacity stores the new bytes whole behind the old.
#[verifier::external_body]
fn ztr_append(z: ztr64, s: &str) -> (r: ztr64)
    requires
        name_wf(z),
        encode_utf8(name_chars(z)).len() + s.spec_bytes().len() <= 63,
        !s@.contains('\0'),
    ensures
        name_wf(r),
        name_chars(r) == name_chars(z) + s@,
{
    z + s
}

/// Relies on fixedstr's `zstr::to_string`, which hands back the stored bytes
/// decoded as UTF-8.
#[verifier::external_body]
fn ztr_to_string(z: &ztr64) -> (r: String)
    requires
        name_wf(*z),
    ensures
        r@ == name_chars(*z),
{
    z.to_string()
}

/// Relies on `str::split_once`: the parts strictly before and strictly after
/// the first backslash, or nothing when the string holds no backslash.
#[verifier::external_body]
fn split_backslash<'a>(s: &'a str) -> (r: Option<(&'a str, &'a str)>)
    ensures
        match r {
            Some(parts) => {
                &&& s@ == parts.0@ + seq!['\\'] + parts.1@
                &&& !parts.0@.contains('\\')
            },
            None => !s@.contains('\\'),
        },
{
    s.split_once('\\')
}

/// The characters of the reserved prefix a namespace tag stands for; the
/// custom namespace leaves the caller's name untouched.
pub open spec fn prefix_chars(ns: Namespace) -> Seq<char> {
    match ns {
        Namespace::LOCAL => "Local\\"@,
        Namespace::GLOBAL => "Global\\"@,
        Namespace::CUSTOM => Seq::empty(),
    }
}

/// How many bytes the reserved prefix of a namespace tag occupies.
pub open spec fn prefix_len(ns: Namespace) -> int {
    match ns {
        Namespace::LOCAL => 6,
        Namespace::GLOBAL => 7,
        Namespace::CUSTOM => 0,
    }
}

/// The fully qualified name of a mapping: the namespace prefix, then the
/// caller's name.
pub open spec fn full_name_chars(ns: Namespace, name: Seq<char>) -> Seq<char> {
    prefix_chars(ns) + name
}

/// Whether a caller's name fits the fixed-capacity storage behind its
/// namespace prefix: prefix and name together at most 63 bytes of UTF-8, and
/// no interior zero character, which the zero-terminated storage could not
/// carry.
pub open spec fn name_fits(ns: Namespace, name: &str) -> bool {
    &&& prefix_len(ns) + name.spec_bytes().len() <= 63
    &&& !name@.contains('\0')
}

/// The reserved prefixes are short, pure-ASCII text: their character counts,
/// byte counts and freedom from zero characters, for use when assembling a
/// fully qualified name.
proof fn lemma_prefix_facts(ns: Namespace)
    ensures
        vstd::utf8::is_ascii_chars(prefix_chars(ns)),
        encode_utf8(prefix_chars(ns)).len() == prefix_len(ns),
        prefix_chars(ns).len() == prefix_len(ns),
        !prefix_chars(ns).contains('\0'),
{
    reveal_strlit("Local\\");
    reveal_strlit("Global\\");
    vstd::utf8::is_ascii_chars_encode_utf8(prefix_chars(ns));
    assert(!prefix_chars(ns).contains('\0')) by {
        assert forall|i: int| 0 <= i < prefix_chars(ns).len() implies prefix_chars(ns)[i]
            != '\0' by {}
    }
}

/// Assemble the fully qualified mapping name in fixed-capacity storage.
fn build_full_name(ns: Namespace, name: &str) -> (r: ztr64)
    requires
        name_fits(ns, name),
    ensures
        name_wf(r),
        name_chars(r) == full_name_chars(ns, name@),
{
    proof {
        lemma_prefix_facts(ns);
    }
    let prefix: &str = match ns {
        Namespace::LOCAL => "Local\\",
        Namespace::GLOBAL => "Global\\",
        Namespace::CUSTOM => "",
    };
    proof {
        reveal_strlit("");
        assert(""@.len() == 0);
        assert(prefix@ == prefix_chars(ns));
        assert(prefix.spec_bytes() == encode_utf8(prefix_chars(ns)));
    }
    let base = ztr_from_str(prefix);
    ztr_append(base, name)
}

/// The shared region a mapping projects into each process: the control word
/// at its head, then the payload bytes, under the name the region was
/// created with. On the OS, every peer's view is a window onto the same
/// memory; here the region is one value that the peers' mapping objects
/// borrow in turn, which is what the code that performs the real projection
/// hands them.
#[derive(Debug)]
pub struct MemoryMappedView {
    /// The control word at the head of the region.
    pub lock: crate::states::RWLock,
    /// The payload bytes behind the control word; the caller-visible size of
    /// the mapping is their count, the region itself is four bytes wider.
    pub data: Vec<u8>,
    /// The fully qualified name the region was created under.
    pub name: ztr64,
}

impl MemoryMappedView {
    /// A usable region holds a well-formed name and at least one payload
    /// byte, since mappings of size zero cannot be requested.
    pub open spec fn wf(&self) -> bool {
        &&& name_wf(self.name)
        &&& 1 <= self.data@.len()
    }

    /// The control word of the region.
    pub open spec fn word(&self) -> u32 {
        self.lock.chunk
    }

    /// The payload bytes of the region.
    pub open spec fn payload(&self) -> Seq<u8> {
        self.data@
    }
}

/// A mapping object: the per-process handle to a shared region.
///
/// It carries what the process needs to take part — the fully qualified
/// name, the declared payload size, the close latch and the read-only flag —
/// while the region itself is borrowed for each operation. The OS-side
/// resources a real handle owns (the mapping handle and the mapped view,
/// released idempotently when the handle dies) live with the code that makes
/// the OS calls, outside this crate.
#[derive(Debug)]
pub struct MemoryMappedFile {
    /// The fully qualified name this handle is bound to.
    pub name: ztr64,
    /// The user-requested payload size in bytes; the mapping is 4 bytes wider.
    pub size: usize,
    /// A one-way latch set on explicit close, preventing further use.
    pub closed: bool,
    /// Set at construction for openers that declare read-only intent; writes
    /// fail early when set.
    pub readonly: bool,
}

/// How many payload bytes a read request asks for: the whole payload when
/// the count is zero, and never more than the payload holds.
pub open spec fn read_len(size: usize, count: usize) -> int {
    if count == 0 || count > size {
        size as int
    } else {
        count as int
    }
}

/// The payload after a write: the buffer's bytes, then whatever the buffer
/// did not cover of the old payload.
pub open spec fn payload_after_write(payload: Seq<u8>, buffer: Seq<u8>) -> Seq<u8> {
    buffer + payload.skip(buffer.len() as int)
}

/// The first error a read runs into, checked in protocol order: the close
/// latch, then initialization, then the shared acquire itself. `None` means
/// the read is owed to succeed.
pub open spec fn read_error(handle: MemoryMappedFile, word: u32) -> Option<Error> {
    if handle.closed {
        Some(Error::MMF_NotFound)
    } else if !crate::states::initialized(word) {
        Some(Error::Uninitialized)
    } else if crate::states::writer(word) {
        Some(Error::WriteLocked)
    } else if crate::states::readers(word) >= crate::states::READ_LOCK_MASK {
        Some(Error::MaxReaders)
    } else {
        None
    }
}

/// The first error a write runs into, checked in protocol order: the
/// read-only flag and the close latch, then the size bound, then
/// initialization, then the exclusive acquire itself. `None` means the write
/// is owed to succeed.
pub open spec fn write_error(
    handle: MemoryMappedFile,
    word: u32,
    buffer_len: nat,
) -> Option<Error> {
    if handle.readonly || handle.closed {
        Some(Error::MMF_NotFound)
    } else if buffer_len > handle.size {
        Some(Error::NotEnoughMemory)
    } else if !crate::states::initialized(word) {
        Some(Error::Uninitialized)
    } else if crate::states::writer(word) {
        Some(Error::WriteLocked)
    } else if crate::states::readers(word) > 0 {
        Some(Error::ReadLocked)
    } else {
        None
    }
}

/// What opening an existing mapping yields. The open succeeds exactly when
/// the region carries the fully qualified name and holds at least `size`
/// payload bytes; a name the region does not carry fails as the OS lookup
/// would, and an oversized view request fails with the access-denied code.
pub open spec fn open_post(
    size: usize,
    name: Seq<char>,
    namespace: Namespace,
    readonly: bool,
    view: MemoryMappedView,
    r: MMFResult<MemoryMappedFile>,
) -> bool {
    match r {
        Ok(handle) => {
            &&& full_name_chars(namespace, name) == name_chars(view.name)
            &&& size <= view.data@.len()
            &&& handle.wf()
            &&& handle.size == size
            &&& handle.size <= view.data@.len()
            &&& !handle.closed
            &&& handle.readonly == readonly
            &&& name_chars(handle.name) == full_name_chars(namespace, name)
        },
        Err(e) => {
            &&& (full_name_chars(namespace, name) != name_chars(view.name) ==> e
                == Error::MMF_NotFound)
            &&& (full_name_chars(namespace, name) == name_chars(view.name) ==> size
                > view.data@.len() && e == Error::OS_Err(crate::err::ERROR_ACCESS_DENIED))
        },
    }
}

impl MemoryMappedFile {
    /// A usable handle is bound to a well-formed name and to a non-zero
    /// declared size.
    pub open spec fn wf(&self) -> bool {
        &&& name_wf(self.name)
        &&& 1 <= self.size
    }

    /// Whether this handle is a view of the given region: the region must
    /// hold at least as many payload bytes as the handle declares, as the OS
    /// refuses to project a view longer than the mapping object.
    pub open spec fn attached(&self, view: &MemoryMappedView) -> bool {
        self.size <= view.data@.len()
    }

    /// Attempt to create a new memory-mapped file of `size` payload bytes.
    ///
    /// The fully qualified name is the caller's name behind the namespace
    /// prefix. The fresh region is zeroed in full — fresh pages are not
    /// guaranteed zero for the control word's purposes — and the control
    /// word is laid down uninitialized and then published, so the handle
    /// comes back ready for reads and writes.
    pub fn new(size: usize, name: &str, namespace: Namespace) -> (r: MMFResult<
        (MemoryMappedFile, MemoryMappedView),
    >)
        requires
            1 <= size,
            size + 4 <= usize::MAX,
            name_fits(namespace, name),
        ensures
            match r {
                Ok(pair) => {
                    &&& pair.0.wf()
                    &&& pair.1.wf()
                    &&& pair.0.attached(&pair.1)
                    &&& pair.0.size == size
                    &&& !pair.0.closed
                    &&& !pair.0.readonly
                    &&& name_chars(pair.0.name) == full_name_chars(namespace, name@)
                    &&& pair.1.name == pair.0.name
                    &&& pair.1.payload() == Seq::new(size as nat, |i: int| 0u8)
                    &&& pair.1.word() == 0
                },
                Err(e) => false,
            },
    {
        let full = build_full_name(namespace, name);
        let data = zeroed_bytes(size);
        let lock = crate::states::RWLock::from_raw().initialize();
        let view = MemoryMappedView { lock, data, name: full };
        let handle = MemoryMappedFile { name: full, size, closed: false, readonly: false };
        Ok((handle, view))
    }

    /// Open an existing mapping by name, if the region carries it.
    ///
    /// The same name building and size validation as for creation, but the
    /// region is adopted as found: not zeroed, not published. A name the
    /// region does not carry fails as the OS lookup would; a size larger
    /// than the region's payload fails with the access-denied code the OS
    /// raises when a view cannot be projected. When `readonly` is set, the
    /// handle comes back refusing writes.
    pub fn open(
        size: usize,
        name: &str,
        namespace: Namespace,
        readonly: bool,
        view: &MemoryMappedView,
    ) -> (r: MMFResult<MemoryMappedFile>)
        requires
            1 <= size,
            size + 4 <= usize::MAX,
            name_fits(namespace, name),
            view.wf(),
        ensures
            open_post(size, name@, namespace, readonly, *view, r),
    {
        let full = build_full_name(namespace, name);
        let built = ztr_to_string(&full);
        let existing = ztr_to_string(&view.name);
        if !(built == existing) {
            return Err(Error::MMF_NotFound);
        }
        if size > view.data.len() {
            return Err(Error::OS_Err(crate::err::ERROR_ACCESS_DENIED));
        }
        Ok(MemoryMappedFile { name: full, size, closed: false, readonly })
    }
}

impl MemoryMappedFile {
    /// See the documentation for [`Self::read`], except this takes a buffer
    /// to write into: the buffer is overwritten and its length set to
    /// exactly the number of bytes read, growing it when it was shorter.
    ///
    /// The preconditions are checked in order: the close latch, then the
    /// control word's initialization, then the shared acquire itself. On
    /// success the requested prefix of the payload is copied out under the
    /// read lock, and the lock is released again: the region comes back
    /// exactly as it was found.
    pub fn read_to_buf(
        &self,
        view: &mut MemoryMappedView,
        buffer: &mut Vec<u8>,
        count: usize,
    ) -> (r: MMFResult<()>)
        requires
            self.wf(),
            self.attached(&*old(view)),
        ensures
            *final(view) == *old(view),
            match read_error(*self, old(view).word()) {
                Some(e) => r == MMFResult::<()>::Err(e) && final(buffer)@ == old(buffer)@,
                None => r == MMFResult::<()>::Ok(()) && final(buffer)@ == old(view).payload()
                    .take(read_len(self.size, count)),
            },
    {
        if self.closed {
            return Err(Error::MMF_NotFound);
        }
        let to_read = if count == 0 {
            self.size
        } else if count < self.size {
            count
        } else {
            self.size
        };
        if !view.lock.initialized() {
            return Err(Error::Uninitialized);
        }
        match view.lock.lock_read() {
            Ok(u) => u,
            Err(e) => {
                return Err(e);
            },
        };
        copy_payload(buffer, &view.data, to_read);
        match view.lock.unlock_read() {
            Ok(u) => {
                proof {
                    assert(view.lock.chunk == old(view).lock.chunk);
                }
                Ok(u)
            },
            Err(e) => Err(e),
        }
    }

    /// Attempt to read up to `count` bytes from the payload, the whole
    /// payload when `count` is zero, into a fresh buffer.
    ///
    /// The read succeeds exactly when the handle is not closed, the control
    /// word is published, and a shared lock can be taken: a present writer
    /// reports itself, as does a saturated reader count. What comes back is
    /// the first `min(count, size)` payload bytes.
    pub fn read(&self, view: &mut MemoryMappedView, count: usize) -> (r: MMFResult<Vec<u8>>)
        requires
            self.wf(),
            self.attached(&*old(view)),
        ensures
            *final(view) == *old(view),
            match read_error(*self, old(view).word()) {
                Some(e) => r == MMFResult::<Vec<u8>>::Err(e),
                None => match r {
                    Ok(bytes) => bytes@ == old(view).payload().take(read_len(self.size, count)),
                    Err(e) => false,
                },
            },
    {
        let mut buf: Vec<u8> = Vec::new();
        match self.read_to_buf(view, &mut buf, count) {
            Ok(u) => Ok(buf),
            Err(e) => Err(e),
        }
    }

    /// Attempt to write a complete buffer into the payload.
    ///
    /// The preconditions are checked in order: the read-only flag and the
    /// close latch, then the size bound — writing more than the payload
    /// holds is refused rather than truncated — then the control word's
    /// initialization, then the exclusive acquire itself. On success the
    /// buffer lands at the start of the payload under the write lock, the
    /// bytes behind it stay as they were, and the lock is released again.
    /// On every failure the region is left untouched.
    pub fn write(&self, view: &mut MemoryMappedView, buffer: &[u8]) -> (r: MMFResult<()>)
        requires
            self.wf(),
            self.attached(&*old(view)),
        ensures
            final(view).name == old(view).name,
            final(view).word() == old(view).word(),
            match write_error(*self, old(view).word(), buffer@.len()) {
                Some(e) => r == MMFResult::<()>::Err(e) && final(view).payload() == old(
                    view,
                ).payload(),
                None => r == MMFResult::<()>::Ok(()) && final(view).payload()
                    == payload_after_write(old(view).payload(), buffer@),
            },
    {
        if self.readonly || self.closed {
            return Err(Error::MMF_NotFound);
        }
        if buffer.len() > self.size {
            return Err(Error::NotEnoughMemory);
        }
        if !view.lock.initialized() {
            return Err(Error::Uninitialized);
        }
        match view.lock.lock_write() {
            Ok(u) => u,
            Err(e) => {
                return Err(e);
            },
        };
        overwrite_prefix(&mut view.data, buffer);
        proof {
            crate::states::lemma_write_lock_round_trip(old(view).lock.chunk);
        }
        match view.lock.unlock_write() {
            Ok(u) => Ok(u),
            Err(e) => Err(e),
        }
    }

    /// Close the mapping: a one-way latch. Every subsequent operation on
    /// this handle fails with [`Error::MMF_NotFound`] and leaves the region
    /// untouched; the handle's OS-side resources are released by the code
    /// that owns them, and closing again changes nothing.
    pub fn close(&mut self) -> (r: MMFResult<()>)
        ensures
            *final(self) == closed_handle(*old(self)),
            r == MMFResult::<()>::Ok(()),
    {
        self.closed = true;
        Ok(())
    }
}

/// The handle a close leaves behind: the same handle with its one-way latch
/// set.
pub open spec fn closed_handle(handle: MemoryMappedFile) -> MemoryMappedFile {
    MemoryMappedFile { closed: true, ..handle }
}

/// Closing is idempotent: a handle that is already closed is left exactly as
/// it is by closing it again.
pub proof fn lemma_close_idempotent(handle: MemoryMappedFile)
    ensures
        closed_handle(closed_handle(handle)) == closed_handle(handle),
{
}

/// A write followed by a read of the same length hands the written bytes
/// back: for any payload and any buffer no longer than it, the prefix a
/// read returns from the payload a write leaves behind is the buffer itself.
pub proof fn lemma_write_read_round_trip(payload: Seq<u8>, buffer: Seq<u8>, size: usize, count: usize)
    requires
        buffer.len() <= size,
        size <= payload.len(),
        count == buffer.len(),
        0 < count,
    ensures
        payload_after_write(payload, buffer).take(read_len(size, count)) == buffer,
{
    assert(payload_after_write(payload, buffer).take(read_len(size, count)) =~= buffer);
}

/// Copy the first `to_read` payload bytes over a caller-supplied buffer,
/// leaving the buffer at exactly that length.
fn copy_payload(buffer: &mut Vec<u8>, data: &Vec<u8>, to_read: usize)
    requires
        to_read <= data@.len(),
    ensures
        final(buffer)@ == data@.take(to_read as int),
{
    buffer.clear();
    let mut i: usize = 0;
    while i < to_read
        invariant
            i <= to_read,
            to_read <= data@.len(),
            buffer@ == data@.take(i as int),
        decreases to_read - i,
    {
        let byte = data[i];
        buffer.push(byte);
        proof {
            assert(buffer@ =~= data@.take((i + 1) as int));
        }
        i = i + 1;
    }
}

/// Lay a buffer over the start of the payload, byte for byte, leaving the
/// bytes behind it as they were.
fn overwrite_prefix(data: &mut Vec<u8>, buffer: &[u8])
    requires
        buffer@.len() <= old(data)@.len(),
    ensures
        final(data)@ == payload_after_write(old(data)@, buffer@),
{
    let mut i: usize = 0;
    while i < buffer.len()
        invariant
            i <= buffer@.len(),
            buffer@.len() <= data@.len(),
            data@.len() == old(data)@.len(),
            data@ == buffer@.take(i as int) + old(data)@.skip(i as int),
        decreases buffer@.len() - i,
    {
        let byte = buffer[i];
        data[i] = byte;
        proof {
            assert(data@ =~= buffer@.take((i + 1) as int) + old(data)@.skip((i + 1) as int));
        }
        i = i + 1;
    }
    proof {
        assert(data@ =~= payload_after_write(old(data)@, buffer@));
    }
}

/// The first error a spinning read runs into: as a plain read, except that a
/// writer that stays put exhausts the spin budget instead of reporting
/// itself. `None` means the read is owed to succeed.
pub open spec fn read_spin_error(handle: MemoryMappedFile, word: u32) -> Option<Error> {
    if handle.closed {
        Some(Error::MMF_NotFound)
    } else if !crate::states::initialized(word) {
        Some(Error::Uninitialized)
    } else if crate::states::writer(word) {
        Some(Error::MaxTriesReached)
    } else if crate::states::readers(word) >= crate::states::READ_LOCK_MASK {
        Some(Error::MaxReaders)
    } else {
        None
    }
}

/// The first error a spinning write runs into: as a plain write, except that
/// lock holders that stay put exhaust the spin budget instead of reporting
/// themselves. `None` means the write is owed to succeed.
pub open spec fn write_spin_error(handle: MemoryMappedFile, word: u32, buffer_len: nat) -> Option<
    Error,
> {
    if handle.readonly || handle.closed {
        Some(Error::MMF_NotFound)
    } else if buffer_len > handle.size {
        Some(Error::NotEnoughMemory)
    } else if !crate::states::initialized(word) {
        Some(Error::Uninitialized)
    } else if crate::states::writer(word) || crate::states::readers(word) > 0 {
        Some(Error::MaxTriesReached)
    } else {
        None
    }
}

impl MemoryMappedFile {
    /// Spinning form of [`Self::read_to_buf`]: the shared acquire busy-retries
    /// through [`crate::states::RWLock::spin_and_lock_read`] for at most
    /// `max_tries` retries instead of reporting a present writer at once.
    /// Callers wanting backoff or fairness bound the budget themselves.
    pub fn read_to_buf_spin(
        &self,
        view: &mut MemoryMappedView,
        buffer: &mut Vec<u8>,
        count: usize,
        max_tries: usize,
    ) -> (r: MMFResult<()>)
        requires
            self.wf(),
            self.attached(&*old(view)),
        ensures
            *final(view) == *old(view),
            match read_spin_error(*self, old(view).word()) {
                Some(e) => r == MMFResult::<()>::Err(e) && final(buffer)@ == old(buffer)@,
                None => r == MMFResult::<()>::Ok(()) && final(buffer)@ == old(view).payload()
                    .take(read_len(self.size, count)),
            },
    {
        if self.closed {
            return Err(Error::MMF_NotFound);
        }
        let to_read = if count == 0 {
            self.size
        } else if count < self.size {
            count
        } else {
            self.size
        };
        match crate::states::RWLock::spin_and_lock_read(&mut view.lock, max_tries) {
            Ok(u) => u,
            Err(e) => {
                return Err(e);
            },
        };
        copy_payload(buffer, &view.data, to_read);
        match view.lock.unlock_read() {
            Ok(u) => {
                proof {
                    assert(view.lock.chunk == old(view).lock.chunk);
                }
                Ok(u)
            },
            Err(e) => Err(e),
        }
    }

    /// Spinning form of [`Self::read`].
    pub fn read_spin(&self, view: &mut MemoryMappedView, count: usize, max_tries: usize) -> (r:
        MMFResult<Vec<u8>>)
        requires
            self.wf(),
            self.attached(&*old(view)),
        ensures
            *final(view) == *old(view),
            match read_spin_error(*self, old(view).word()) {
                Some(e) => r == MMFResult::<Vec<u8>>::Err(e),
                None => match r {
                    Ok(bytes) => bytes@ == old(view).payload().take(read_len(self.size, count)),
                    Err(e) => false,
                },
            },
    {
        let mut buf: Vec<u8> = Vec::new();
        match self.read_to_buf_spin(view, &mut buf, count, max_tries) {
            Ok(u) => Ok(buf),
            Err(e) => Err(e),
        }
    }

    /// Spinning form of [`Self::write`]: the exclusive acquire busy-retries
    /// through [`crate::states::RWLock::spin_and_lock_write`] for at most
    /// `max_tries` retries instead of reporting present lock holders at once.
    pub fn write_spin(
        &self,
        view: &mut MemoryMappedView,
        buffer: &[u8],
        max_tries: usize,
    ) -> (r: MMFResult<()>)
        requires
            self.wf(),
            self.attached(&*old(view)),
        ensures
            final(view).name == old(view).name,
            final(view).word() == old(view).word(),
            match write_spin_error(*self, old(view).word(), buffer@.len()) {
                Some(e) => r == MMFResult::<()>::Err(e) && final(view).payload() == old(
                    view,
                ).payload(),
                None => r == MMFResult::<()>::Ok(()) && final(view).payload()
                    == payload_after_write(old(view).payload(), buffer@),
            },
    {
        if self.readonly || self.closed {
            return Err(Error::MMF_NotFound);
        }
        if buffer.len() > self.size {
            return Err(Error::NotEnoughMemory);
        }
        match crate::states::RWLock::spin_and_lock_write(&mut view.lock, max_tries) {
            Ok(u) => u,
            Err(e) => {
                return Err(e);
            },
        };
        overwrite_prefix(&mut view.data, buffer);
        proof {
            crate::states::lemma_write_lock_round_trip(old(view).lock.chunk);
        }
        match view.lock.unlock_write() {
            Ok(u) => Ok(u),
            Err(e) => Err(e),
        }
    }
}

/// The characters strictly before the first backslash of a name, the whole
/// name if it holds none.
pub open spec fn prefix_before_backslash(cs: Seq<char>) -> Seq<char>
    decreases cs.len(),
{
    if cs.len() == 0 {
        Seq::empty()
    } else if cs[0] == '\\' {
        Seq::empty()
    } else {
        seq![cs[0]] + prefix_before_backslash(cs.skip(1))
    }
}

/// The characters strictly after the first backslash of a name, nothing if
/// it holds none.
pub open spec fn suffix_after_backslash(cs: Seq<char>) -> Seq<char>
    decreases cs.len(),
{
    if cs.len() == 0 {
        Seq::empty()
    } else if cs[0] == '\\' {
        cs.skip(1)
    } else {
        suffix_after_backslash(cs.skip(1))
    }
}

/// Splitting at the first backslash undoes putting one between two pieces,
/// as long as the left piece holds none itself.
proof fn lemma_split_characterizes(a: Seq<char>, b: Seq<char>)
    requires
        !a.contains('\\'),
    ensures
        prefix_before_backslash(a + seq!['\\'] + b) == a,
        suffix_after_backslash(a + seq!['\\'] + b) == b,
    decreases a.len(),
{
    let cs = a + seq!['\\'] + b;
    if a.len() == 0 {
        assert(cs[0] == '\\');
        assert(prefix_before_backslash(cs) =~= a);
        assert(cs.skip(1) =~= b);
    } else {
        assert(cs[0] == a[0]);
        assert(a[0] != '\\');
        assert(!a.skip(1).contains('\\')) by {
            assert forall|i: int| 0 <= i < a.skip(1).len() implies a.skip(1)[i] != '\\' by {
                assert(a.skip(1)[i] == a[i + 1]);
            }
        }
        assert(cs.skip(1) =~= a.skip(1) + seq!['\\'] + b);
        lemma_split_characterizes(a.skip(1), b);
        assert(prefix_before_backslash(cs) =~= seq![a[0]] + a.skip(1));
        assert(seq![a[0]] + a.skip(1) =~= a);
    }
}

impl MemoryMappedFile {
    /// Open an existing mapping for reading only: a wrapper around
    /// [`Self::open`] that always declares read-only intent.
    pub fn open_read(size: usize, name: &str, namespace: Namespace, view: &MemoryMappedView) -> (r:
        MMFResult<MemoryMappedFile>)
        requires
            1 <= size,
            size + 4 <= usize::MAX,
            name_fits(namespace, name),
            view.wf(),
        ensures
            open_post(size, name@, namespace, true, *view, r),
    {
        Self::open(size, name, namespace, true, view)
    }

    /// Open an existing mapping for reading and writing: a wrapper around
    /// [`Self::open`] that never declares read-only intent.
    pub fn open_write(size: usize, name: &str, namespace: Namespace, view: &MemoryMappedView) -> (r:
        MMFResult<MemoryMappedFile>)
        requires
            1 <= size,
            size + 4 <= usize::MAX,
            name_fits(namespace, name),
            view.wf(),
        ensures
            open_post(size, name@, namespace, false, *view, r),
    {
        Self::open(size, name, namespace, false, view)
    }

    /// Check if this mapping can be written to through this handle.
    pub fn is_writable(&self, view: &MemoryMappedView) -> (r: bool)
        ensures
            r == (!self.readonly && !self.closed && crate::states::initialized(view.word())),
    {
        !self.readonly && !self.closed && view.lock.initialized()
    }

    /// Check if this mapping can be read from through this handle.
    pub fn is_readable(&self, view: &MemoryMappedView) -> (r: bool)
        ensures
            r == (!self.closed && crate::states::initialized(view.word())),
    {
        !self.closed && view.lock.initialized()
    }

    /// The size of the payload portion of the mapping, in bytes.
    pub fn size(&self) -> (r: usize)
        ensures
            r == self.size,
    {
        self.size
    }

    /// The stored fully qualified name, `[Namespace\]<FileName>`.
    pub fn fullname(&self) -> (r: String)
        requires
            self.wf(),
        ensures
            r@ == name_chars(self.name),
    {
        ztr_to_string(&self.name)
    }

    /// The namespace portion of the name, if any; an empty string means the
    /// name carries no namespace prefix.
    pub fn namespace(&self) -> (r: String)
        requires
            self.wf(),
        ensures
            r@ == if name_chars(self.name).contains('\\') {
                prefix_before_backslash(name_chars(self.name))
            } else {
                Seq::<char>::empty()
            },
    {
        let s = ztr_to_string(&self.name);
        match split_backslash(s.as_str()) {
            Some(parts) => {
                proof {
                    let cs = name_chars(self.name);
                    assert(cs[parts.0@.len() as int] == '\\');
                    assert(cs.contains('\\'));
                    lemma_split_characterizes(parts.0@, parts.1@);
                }
                parts.0.to_owned()
            },
            None => String::new(),
        }
    }

    /// The filename portion of the name: everything behind the first
    /// backslash, or the whole name when it carries no namespace prefix.
    pub fn filename(&self) -> (r: String)
        requires
            self.wf(),
        ensures
            r@ == if name_chars(self.name).contains('\\') {
                suffix_after_backslash(name_chars(self.name))
            } else {
                name_chars(self.name)
            },
    {
        let s = ztr_to_string(&self.name);
        match split_backslash(s.as_str()) {
            Some(parts) => {
                proof {
                    let cs = name_chars(self.name);
                    assert(cs[parts.0@.len() as int] == '\\');
                    assert(cs.contains('\\'));
                    lemma_split_characterizes(parts.0@, parts.1@);
                }
                parts.1.to_owned()
            },
            None => s,
        }
    }
}

/// A freshly allocated region is overwritten with zeros in full before its
/// control word is laid down; this is load-bearing, as fresh pages are not
/// guaranteed to be zero everywhere.
fn zeroed_bytes(n: usize) -> (r: Vec<u8>)
    ensures
        r@ == Seq::new(n as nat, |i: int| 0u8),
{
    let mut bytes: Vec<u8> = Vec::new();
    let mut i: usize = 0;
    while i < n
        invariant
            i <= n,
            bytes@ == Seq::new(i as nat, |j: int| 0u8),
        decreases n - i,
    {
        bytes.push(0u8);
        proof {
            assert(bytes@ =~= Seq::new((i + 1) as nat, |j: int| 0u8));
        }
        i = i + 1;
    }
    bytes
}

} // verus!
