//! Tasks: a packet and its buffers, from configuration to completion.
//!
//! A [`BlankTask`] is configured with its buffers and tag, then frozen into a [`Task`]
//! at the address where its packet stays. Polling the task submits it, then watches the
//! status the hardware writes, and finally keeps reporting the outcome it decoded.
//!
//! While a task is running the hardware may still read its buffers and write its packet:
//! [`Task::release`] hands the packet back only once the task is idle or done, and the
//! caller must not reuse the buffers before that.

use vstd::prelude::*;
use core::marker::PhantomData;
use crate::builder::{initial_packet, with_flag, with_source};
use crate::channels::{dispatch_writes, dispatched};
use crate::config::{CopySource, CryptMem, Framebuffer, Region};
use crate::ex::{ending, ExError, Executor};
use crate::ops::{Blit, Cipher, CipherHash, CipherSelect, HasHash, HashSelect, Memcopy, MemcopyHash, Operation};
use crate::packet::{decode_status, BlitSize, BufSize, Control0Flag, Control1, ControlPacket, Source, Status};
use crate::{Error, PayloadTooShort};
use nb::Error as WouldBlockOr;

verus! {

/// A task whose buffers (and optionally tag) are being set. Once its buffers are set it
/// can be frozen into an executable [`Task`].
pub struct BlankTask<O: Operation> {
    raw: ControlPacket,
    ready: bool,
    _op: PhantomData<O>,
}

impl<O: Operation> BlankTask<O> {
    #[verifier::type_invariant]
    spec fn inv(&self) -> bool {
        self.raw.wf()
    }

    /// The packet configured so far.
    pub closed spec fn packet(&self) -> ControlPacket {
        self.raw
    }

    /// The buffers have been set: the task may be frozen.
    pub closed spec fn ready(&self) -> bool {
        self.ready
    }

    /// The packet configured so far.
    pub fn deref(&self) -> (r: &ControlPacket)
        ensures
            *r == self.packet(),
    {
        &self.raw
    }

    /// A task for operation `O`, with no buffers yet.
    pub fn new() -> (r: Self)
        ensures
            r.packet() == initial_packet::<O>(),
            !r.ready(),
    {
        let mut raw = ControlPacket::zeroed();
        raw.control0 = O::control0();
        raw.control1 = O::control1();
        BlankTask { raw, ready: false, _op: PhantomData }
    }

    /// Sets the tag that the hardware echoes in the status.
    pub fn set_tag(&mut self, tag: u8)
        ensures
            final(self).packet() == (ControlPacket {
                control0: crate::packet::Control0 { tag, ..old(self).packet().control0 },
                ..old(self).packet()
            }),
            final(self).ready() == old(self).ready(),
    {
        proof {
            use_type_invariant(&*self);
        }
        let mut raw = self.raw;
        raw.control0.tag = tag;
        *self = BlankTask { raw, ready: self.ready, _op: PhantomData };
    }

    /// The executable task, with its packet stored at `addr`.
    ///
    /// A task whose `set_buffers` never succeeded is not frozen: `None` comes back. Its
    /// packet would name no buffers (address 0 for its source, destination and payload),
    /// and a refused payload must not lead to a packet the hardware can run, so such a
    /// task never becomes submittable.
    pub fn freeze(self, addr: u32) -> (r: Option<Task>)
        ensures
            r is Some <==> self.ready(),
            r matches Some(t) ==> t.state() == TaskState::Idle && t.packet() == self.packet() && t.addr() == addr
                && t.wf(),
    {
        proof {
            use_type_invariant(&self);
        }
        if !self.ready {
            return None;
        }
        Some(Task { state: TaskState::Idle, inner: self.raw, addr })
    }

    fn store(&mut self, raw: ControlPacket)
        requires
            raw.wf(),
        ensures
            final(self).packet() == raw,
            final(self).ready(),
    {
        *self = BlankTask { raw, ready: true, _op: PhantomData };
    }

    fn with_source(raw: ControlPacket, src: CopySource) -> (r: ControlPacket)
        requires
            raw.wf(),
        ensures
            r == with_source(raw, src),
            r.wf(),
    {
        let mut raw = raw;
        if let CopySource::ConstantFill(_) = src {
            raw.control0.set(Control0Flag::ConstantFill);
        }
        raw.source = Source::from(src);
        raw
    }
}

impl<O: HasHash> BlankTask<O> {
    fn set_flag(&mut self, f: Control0Flag)
        ensures
            final(self).packet() == with_flag(old(self).packet(), f),
            final(self).ready() == old(self).ready(),
    {
        proof {
            use_type_invariant(&*self);
        }
        let mut raw = self.raw;
        raw.control0.set(f);
        *self = BlankTask { raw, ready: self.ready, _op: PhantomData };
    }

    /// Starts a fresh digest. Needed on the first block of a series.
    pub fn hash_init(&mut self)
        ensures
            final(self).packet() == with_flag(old(self).packet(), Control0Flag::HashInit),
            final(self).ready() == old(self).ready(),
    {
        self.set_flag(Control0Flag::HashInit)
    }

    /// Finishes the digest and writes it to the payload.
    pub fn hash_term(&mut self)
        ensures
            final(self).packet() == with_flag(old(self).packet(), Control0Flag::HashTerm),
            final(self).ready() == old(self).ready(),
    {
        self.set_flag(Control0Flag::HashTerm)
    }

    /// Compares the digest with the one in the payload instead of writing it.
    pub fn hash_check(&mut self)
        ensures
            final(self).packet() == with_flag(old(self).packet(), Control0Flag::HashCheck),
            final(self).ready() == old(self).ready(),
    {
        self.set_flag(Control0Flag::HashCheck)
    }
}

/// `p` with the source, destination and length of a crypto operation on `mem`, and the
/// payload at `payload`.
pub open spec fn with_crypt(p: ControlPacket, mem: CryptMem, payload: Region) -> ControlPacket {
    ControlPacket {
        source: Source { word: mem.spec_ends().0.addr },
        dest: mem.spec_ends().1.addr,
        bufsize: BufSize { word: mem.spec_ends().0.len },
        payload: payload.addr,
        ..p
    }
}

/// Source and destination of a crypto operation have the same length.
pub open spec fn crypt_lengths_match(mem: CryptMem) -> bool {
    mem.spec_ends().0.len == mem.spec_ends().1.len
}

impl BlankTask<Memcopy> {
    /// Sets the source (a buffer, or a constant to fill with) and the destination.
    pub fn set_buffers(&mut self, src: CopySource, dst: Region)
        ensures
            final(self).ready(),
            final(self).packet() == (ControlPacket {
                dest: dst.addr,
                bufsize: BufSize { word: dst.len },
                ..with_source(old(self).packet(), src)
            }),
    {
        proof {
            use_type_invariant(&*self);
        }
        let mut raw = Self::with_source(self.raw, src);
        raw.dest = dst.addr;
        raw.bufsize = BufSize::linear(dst.len);
        self.store(raw);
    }
}

impl BlankTask<Blit> {
    /// Sets the source (a buffer, or a constant to fill with) and the destination
    /// framebuffer.
    pub fn set_buffers(&mut self, src: CopySource, dst: Framebuffer)
        requires
            dst.width > 0,
        ensures
            final(self).ready(),
            final(self).packet() == (ControlPacket {
                control1: Control1 { bits: dst.width as u32 },
                dest: dst.pointer.addr,
                bufsize: BufSize { word: (dst.width as u32 + dst.spec_height() as u32 * 0x1_0000) as u32 },
                ..with_source(old(self).packet(), src)
            }),
    {
        proof {
            use_type_invariant(&*self);
        }
        let mut raw = Self::with_source(self.raw, src);
        raw.control1 = Control1::blit(dst.width);
        raw.dest = dst.pointer.addr;
        raw.bufsize = BufSize::blit(BlitSize { width: dst.width, height: dst.height() });
        self.store(raw);
    }
}

impl<C: CipherSelect> BlankTask<Cipher<C>> {
    /// Sets the source and destination (or one buffer for both) and the payload holding
    /// the key material. A payload shorter than the cipher needs is refused, and the
    /// task is left as it was.
    pub fn set_buffers(&mut self, mem: CryptMem, payl: Region) -> (r: Result<(), PayloadTooShort>)
        requires
            crypt_lengths_match(mem),
        ensures
            payl.len < C::spec_payload_bytes() <==> r is Err,
            r matches Err(e) ==> e == (PayloadTooShort { required: C::spec_payload_bytes(), actual: payl.len })
                && *final(self) == *old(self),
            r is Ok ==> final(self).ready() && final(self).packet() == with_crypt(old(self).packet(), mem, payl),
    {
        let required = C::payload_bytes();
        if payl.len < required {
            return Err(PayloadTooShort { required, actual: payl.len });
        }
        proof {
            use_type_invariant(&*self);
        }
        let len = match mem {
            CryptMem::SourceDest(s, _) => s.len,
            CryptMem::InPlace(sd) => sd.len,
        };
        let (source, dest) = mem.into();
        let mut raw = self.raw;
        raw.source = source;
        raw.dest = dest;
        raw.bufsize = BufSize::linear(len);
        raw.payload = payl.addr;
        self.store(raw);
        Ok(())
    }
}

impl<H: HashSelect> BlankTask<crate::ops::Hash<H>> {
    /// Sets the data to hash and the payload that receives (or holds, for a check) the
    /// digest. A payload shorter than the digest is refused, and the task is left as it
    /// was.
    pub fn set_buffers(&mut self, src: Region, payl: Region) -> (r: Result<(), PayloadTooShort>)
        ensures
            payl.len < H::spec_payload_bytes() <==> r is Err,
            r matches Err(e) ==> e == (PayloadTooShort { required: H::spec_payload_bytes(), actual: payl.len })
                && *final(self) == *old(self),
            r is Ok ==> final(self).ready() && final(self).packet() == (ControlPacket {
                source: Source { word: src.addr },
                bufsize: BufSize { word: src.len },
                payload: payl.addr,
                ..old(self).packet()
            }),
    {
        let required = H::payload_bytes();
        if payl.len < required {
            return Err(PayloadTooShort { required, actual: payl.len });
        }
        proof {
            use_type_invariant(&*self);
        }
        let mut raw = self.raw;
        raw.source = Source::pointer(src.addr);
        raw.bufsize = BufSize::linear(src.len);
        raw.payload = payl.addr;
        self.store(raw);
        Ok(())
    }
}

impl<H: HashSelect> BlankTask<MemcopyHash<H>> {
    /// Sets the source (a buffer, or a constant to fill with), the destination and the
    /// digest payload. A payload shorter than the digest is refused, and the task is left
    /// as it was.
    pub fn set_buffers(&mut self, src: CopySource, dst: Region, payl: Region) -> (r: Result<(), PayloadTooShort>)
        ensures
            payl.len < H::spec_payload_bytes() <==> r is Err,
            r matches Err(e) ==> e == (PayloadTooShort { required: H::spec_payload_bytes(), actual: payl.len })
                && *final(self) == *old(self),
            r is Ok ==> final(self).ready() && final(self).packet() == (ControlPacket {
                dest: dst.addr,
                bufsize: BufSize { word: dst.len },
                payload: payl.addr,
                ..with_source(old(self).packet(), src)
            }),
    {
        let required = H::payload_bytes();
        if payl.len < required {
            return Err(PayloadTooShort { required, actual: payl.len });
        }
        proof {
            use_type_invariant(&*self);
        }
        let mut raw = Self::with_source(self.raw, src);
        raw.dest = dst.addr;
        raw.bufsize = BufSize::linear(dst.len);
        raw.payload = payl.addr;
        self.store(raw);
        Ok(())
    }
}

impl<C: CipherSelect, H: HashSelect> BlankTask<CipherHash<C, H>> {
    /// Sets the source and destination (or one buffer for both) and the payload holding
    /// the key material followed by the digest. A payload shorter than both is refused,
    /// and the task is left as it was.
    pub fn set_buffers(&mut self, mem: CryptMem, payl: Region) -> (r: Result<(), PayloadTooShort>)
        requires
            crypt_lengths_match(mem),
        ensures
            payl.len < C::spec_payload_bytes() + H::spec_payload_bytes() <==> r is Err,
            r matches Err(e) ==> e == (PayloadTooShort {
                required: (C::spec_payload_bytes() + H::spec_payload_bytes()) as u32,
                actual: payl.len,
            }) && *final(self) == *old(self),
            r is Ok ==> final(self).ready() && final(self).packet() == with_crypt(old(self).packet(), mem, payl),
    {
        let required = C::payload_bytes() + H::payload_bytes();
        if payl.len < required {
            return Err(PayloadTooShort { required, actual: payl.len });
        }
        proof {
            use_type_invariant(&*self);
        }
        let len = match mem {
            CryptMem::SourceDest(s, _) => s.len,
            CryptMem::InPlace(sd) => sd.len,
        };
        let (source, dest) = mem.into();
        let mut raw = self.raw;
        raw.source = source;
        raw.dest = dest;
        raw.bufsize = BufSize::linear(len);
        raw.payload = payl.addr;
        self.store(raw);
        Ok(())
    }
}

/// Where a task stands.
#[derive(Debug, Clone, Copy)]
pub enum TaskState {
    /// Not submitted yet.
    Idle,
    /// Submitted; the hardware may be working on it.
    Running,
    /// Finished, with the outcome decoded from its status.
    Done(crate::Result),
}

/// An executable DCP work packet, stored at a fixed address.
pub struct Task {
    state: TaskState,
    inner: ControlPacket,
    addr: u32,
}

impl Task {
    pub closed spec fn state(&self) -> TaskState {
        self.state
    }

    pub closed spec fn packet(&self) -> ControlPacket {
        self.inner
    }

    /// The address of the packet in memory.
    pub closed spec fn addr(&self) -> u32 {
        self.addr
    }

    /// The packet's flags fit their field, and a finished task holds a terminal outcome.
    pub closed spec fn wf(&self) -> bool {
        &&& self.inner.wf()
        &&& self.state matches TaskState::Done(res) ==> res != Err::<u8, WouldBlockOr<Error>>(WouldBlockOr::WouldBlock)
    }

    /// Advances the task without blocking.
    ///
    /// Idle: submits the packet to `ex`. If no channel is free it reports the executor's
    /// error and stays idle, to be polled again; otherwise it is running and reports
    /// `WouldBlock`. Running: decodes the status; `WouldBlock` while not done, else the
    /// outcome, and the task is done. Done: reports the same outcome again, touching
    /// neither the packet nor the executor.
    pub fn poll<E: Executor>(&mut self, ex: &mut E) -> (r: crate::Result)
        requires
            old(self).wf(),
            old(ex).wf(),
        ensures
            final(self).wf(),
            final(ex).wf(),
            final(self).addr() == old(self).addr(),
            old(self).state() matches TaskState::Done(res) ==> r == res && *final(self) == *old(self) && *final(ex) == *old(ex),
            old(self).state() is Running ==> {
                &&& r == decode_status(old(self).packet().status)
                &&& *final(ex) == *old(ex)
                &&& final(self).packet() == old(self).packet()
                &&& r == Err::<u8, WouldBlockOr<Error>>(WouldBlockOr::WouldBlock) ==> final(self).state() is Running
                &&& r != Err::<u8, WouldBlockOr<Error>>(WouldBlockOr::WouldBlock) ==> final(self).state() == TaskState::Done(r)
            },
            old(self).state() is Idle && old(ex).next_channel() is None ==> {
                &&& r == Err::<u8, WouldBlockOr<Error>>(WouldBlockOr::Other(Error::Executor(ExError::SlotsFull)))
                &&& *final(self) == *old(self)
                &&& *final(ex) == *old(ex)
            },
            old(self).state() is Idle ==> (old(ex).next_channel() matches Some(i) ==> {
                &&& r == Err::<u8, WouldBlockOr<Error>>(WouldBlockOr::WouldBlock)
                &&& final(self).state() is Running
                &&& final(self).packet() == ending(old(self).packet())
                &&& *final(ex) == old(ex).with_regs(final(ex).regs())
                &&& final(ex).regs().state == dispatched(old(ex).regs().state, i, old(self).addr())
                &&& final(ex).regs().journal@ == old(ex).regs().journal@ + dispatch_writes(i, old(self).addr())
            }),
    {
        match self.state {
            TaskState::Idle => {
                let addr = self.addr;
                match ex.exec_one(&mut self.inner, addr) {
                    Err(_) => Err(WouldBlockOr::Other(Error::Executor(ExError::SlotsFull))),
                    Ok(()) => {
                        self.state = TaskState::Running;
                        Err(WouldBlockOr::WouldBlock)
                    },
                }
            },
            TaskState::Running => {
                let r = self.inner.status.poll();
                match r {
                    Err(WouldBlockOr::WouldBlock) => {},
                    _ => {
                        self.state = TaskState::Done(r);
                    },
                }
                r
            },
            TaskState::Done(res) => res,
        }
    }

    /// The address of the packet in memory, fixed when the task was frozen.
    pub fn address(&self) -> (r: u32)
        ensures
            r == self.addr(),
    {
        self.addr
    }

    /// Where the task stands.
    pub fn task_state(&self) -> (r: TaskState)
        ensures
            r == self.state(),
    {
        self.state
    }

    /// The packet as it stands.
    pub fn deref(&self) -> (r: &ControlPacket)
        ensures
            *r == self.packet(),
            self.wf() ==> r.wf(),
    {
        &self.inner
    }

    /// Records the status the hardware wrote into the packet.
    pub fn observe_status(&mut self, status: Status)
        ensures
            final(self).packet() == (ControlPacket { status, ..old(self).packet() }),
            final(self).state() == old(self).state(),
            final(self).addr() == old(self).addr(),
            old(self).wf() ==> final(self).wf(),
    {
        self.inner.status = status;
    }

    /// Gives the packet back unless the task is running, when the hardware may still use
    /// it and its buffers: the task then comes back unchanged, to be polled until done.
    pub fn release(self) -> (r: core::result::Result<ControlPacket, Task>)
        ensures
            self.state() is Running <==> r is Err,
            r matches Err(t) ==> t == self,
            r matches Ok(p) ==> p == self.packet(),
    {
        match self.state {
            TaskState::Running => Err(self),
            _ => Ok(self.inner),
        }
    }
}

} // verus!
