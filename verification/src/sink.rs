//! A compression sink: a growable in-memory byte buffer, written to either
//! verbatim or through a gzip or zlib encoder, and finished into a single
//! byte buffer.

use vstd::prelude::*;

use crate::flate::{
    gunzip_of, gz_fed, gz_finish, gz_level, gz_live, gz_new, gz_write, gzip_of, unzlib_of, zl_fed,
    zl_finish, zl_level, zl_live, zl_new, zl_write, zlib_of, GzStream, ZlibStream,
};

verus! {

/// Which transformation a sink applies to the bytes written through it.
#[derive(Clone, Copy, PartialEq, Eq, Structural, Debug)]
pub enum Algs {
    Raw,
    Gzip,
    Zlib,
}

/// The one failure the sink can surface: the underlying encoder could not
/// accept or finish the stream.
#[derive(Clone, Copy, PartialEq, Eq, Structural, Debug)]
pub enum SinkError {
    Io,
}

/// How many pending bytes a compressing sink batches before it feeds them to
/// its encoder.
pub const WRITE_BUF_CAPACITY: usize = 10240;

/// The compression level an encoder is built with when the caller gives
/// none; flate2's Compression::default selects this value.
pub const DEFAULT_LEVEL: u32 = 6;

/// The highest compression level on the documented 0-9 scale; the encoders
/// accept no level above it.
pub const MAX_LEVEL: u32 = 9;

/// A write-capable object that accumulates bytes, transformed according to
/// the algorithm it was built with, and yields the finished stream once.
#[allow(inconsistent_fields)]
pub enum Sink {
    Raw { buf: Vec<u8> },
    Gzip { enc: GzStream, pending: Vec<u8> },
    Zlib { enc: ZlibStream, pending: Vec<u8> },
}

impl View for Sink {
    type V = Seq<u8>;

    /// A sink abstracts to the bytes written through it so far, in order.
    closed spec fn view(&self) -> Seq<u8> {
        match self {
            Sink::Raw { buf } => buf@,
            Sink::Gzip { enc, pending } => gz_fed(*enc) + pending@,
            Sink::Zlib { enc, pending } => zl_fed(*enc) + pending@,
        }
    }
}

impl Sink {
    /// The algorithm this sink was built for.
    pub closed spec fn alg(&self) -> Algs {
        match self {
            Sink::Raw { .. } => Algs::Raw,
            Sink::Gzip { .. } => Algs::Gzip,
            Sink::Zlib { .. } => Algs::Zlib,
        }
    }

    /// The compression level this sink's encoder was built with; meaningful
    /// only when the algorithm is Gzip or Zlib.
    pub closed spec fn level(&self) -> u32 {
        match self {
            Sink::Raw { .. } => DEFAULT_LEVEL,
            Sink::Gzip { enc, .. } => gz_level(*enc),
            Sink::Zlib { enc, .. } => zl_level(*enc),
        }
    }

    /// How many written bytes sit batched in the sink's write buffer, not
    /// yet fed to its encoder; a raw sink buffers nothing.
    pub closed spec fn buffered(&self) -> nat {
        match self {
            Sink::Raw { .. } => 0,
            Sink::Gzip { pending, .. } => pending@.len(),
            Sink::Zlib { pending, .. } => pending@.len(),
        }
    }

    /// A sink is well formed while its encoder is still accepting input and
    /// the batch of pending bytes has not reached the write-buffer capacity.
    pub closed spec fn wf(&self) -> bool {
        match self {
            Sink::Raw { .. } => true,
            Sink::Gzip { enc, pending } => gz_live(*enc) && pending@.len() < WRITE_BUF_CAPACITY,
            Sink::Zlib { enc, pending } => zl_live(*enc) && pending@.len() < WRITE_BUF_CAPACITY,
        }
    }
}

/// The algorithm a configuration selects: an absent configuration selects
/// no transformation.
pub open spec fn chosen_alg(opts: Option<(Algs, Option<u32>)>) -> Algs {
    match opts {
        Option::None => Algs::Raw,
        Option::Some((alg, _)) => alg,
    }
}

/// The compression level an optional level selects: an absent level means
/// the default.
pub open spec fn effective_level(level: Option<u32>) -> u32 {
    match level {
        Option::None => DEFAULT_LEVEL,
        Option::Some(lv) => lv,
    }
}

/// The compression level a configuration selects.
pub open spec fn chosen_level(opts: Option<(Algs, Option<u32>)>) -> u32 {
    match opts {
        Option::None => DEFAULT_LEVEL,
        Option::Some((_, level)) => effective_level(level),
    }
}

/// Builds the sink a configuration asks for: a plain buffer when no
/// algorithm (or no configuration) is given, otherwise a gzip or zlib
/// encoder at the configured level over a fresh buffer, with a write buffer
/// of WRITE_BUF_CAPACITY bytes batching writes before the encoder. The sink
/// starts empty and ready to accept writes; construction cannot fail. A
/// compressing sink takes a level on the 0-9 scale the algorithms define.
pub fn get_writer(opts: Option<(Algs, Option<u32>)>) -> (s: Sink)
    requires
        chosen_alg(opts) == Algs::Raw || chosen_level(opts) <= MAX_LEVEL,
    ensures
        s.wf(),
        s@ == Seq::<u8>::empty(),
        s.buffered() == 0,
        s.alg() == chosen_alg(opts),
        s.alg() != Algs::Raw ==> s.level() == chosen_level(opts),
{
    match opts {
        Some((Algs::Gzip, level)) => {
            let lv: u32 = match level {
                None => DEFAULT_LEVEL,
                Some(lv) => lv,
            };
            Sink::Gzip { enc: gz_new(lv), pending: Vec::new() }
        },
        Some((Algs::Zlib, level)) => {
            let lv: u32 = match level {
                None => DEFAULT_LEVEL,
                Some(lv) => lv,
            };
            Sink::Zlib { enc: zl_new(lv), pending: Vec::new() }
        },
        _ => Sink::Raw { buf: Vec::new() },
    }
}

/// The finished buffer a sink yields over the given written bytes: the bytes
/// themselves for a raw sink, the complete compressed stream for a gzip or
/// zlib sink at the given level.
pub open spec fn finished_bytes(alg: Algs, level: u32, data: Seq<u8>) -> Seq<u8> {
    match alg {
        Algs::Raw => data,
        Algs::Gzip => gzip_of(data, level),
        Algs::Zlib => zlib_of(data, level),
    }
}

/// What the algorithm's standard decoder makes of a finished buffer: for a
/// raw sink the buffer itself, otherwise the decoded payload, or nothing if
/// the buffer is not a well-formed stream.
pub open spec fn decoded(alg: Algs, stream: Seq<u8>) -> Option<Seq<u8>> {
    match alg {
        Algs::Raw => Some(stream),
        Algs::Gzip => gunzip_of(stream),
        Algs::Zlib => unzlib_of(stream),
    }
}

/// How many bytes sit in the write buffer after a successful write: a raw
/// sink buffers nothing; a compressing sink batches written bytes until the
/// batch reaches the write-buffer capacity, whereupon the whole batch is fed
/// to the encoder.
pub open spec fn buffered_after(alg: Algs, buffered: nat, written: nat) -> nat {
    if alg == Algs::Raw {
        0
    } else if buffered + written >= WRITE_BUF_CAPACITY {
        0
    } else {
        buffered + written
    }
}

/// Appends every byte of the slice to the vector, in order.
fn append_bytes(dst: &mut Vec<u8>, src: &[u8])
    ensures
        final(dst)@ == old(dst)@ + src@,
{
    let mut i: usize = 0;
    while i < src.len()
        invariant
            i <= src@.len(),
            dst@ == old(dst)@ + src@.subrange(0, i as int),
        decreases src@.len() - i,
    {
        let b: u8 = src[i];
        dst.push(b);
        proof {
            assert(old(dst)@ + src@.subrange(0, i + 1 as int) =~= (old(dst)@ + src@.subrange(
                0,
                i as int,
            )).push(b));
        }
        i = i + 1;
    }
    proof {
        assert(src@.subrange(0, src@.len() as int) =~= src@);
    }
}

impl Sink {
    /// Accepts the slice's bytes, in order, after everything written before.
    /// A raw sink copies them verbatim into its buffer and cannot fail. A
    /// compressing sink batches them in its write buffer and feeds the batch
    /// to its encoder once it reaches the write-buffer capacity — so a write
    /// that keeps the batch below the capacity makes no encoder call and
    /// cannot fail either. If the encoder refuses the bytes, the error is
    /// returned and the write session is aborted.
    pub fn write_all(&mut self, data: &[u8]) -> (r: Result<(), SinkError>)
        requires
            old(self).wf(),
        ensures
            r is Ok ==> final(self).wf(),
            r is Ok ==> final(self)@ == old(self)@ + data@,
            r is Ok ==> final(self).level() == old(self).level(),
            r is Ok ==> final(self).buffered() == buffered_after(
                old(self).alg(),
                old(self).buffered(),
                data@.len(),
            ),
            final(self).alg() == old(self).alg(),
            old(self).alg() == Algs::Raw ==> r is Ok,
            old(self).buffered() + data@.len() < WRITE_BUF_CAPACITY ==> r is Ok,
    {
        match self {
            Sink::Raw { buf } => {
                append_bytes(buf, data);
                Ok(())
            },
            Sink::Gzip { enc, pending } => {
                append_bytes(pending, data);
                if pending.len() >= WRITE_BUF_CAPACITY {
                    match gz_write(enc, pending.as_slice()) {
                        Ok(()) => {
                            pending.clear();
                            Ok(())
                        },
                        Err(e) => Err(e),
                    }
                } else {
                    Ok(())
                }
            },
            Sink::Zlib { enc, pending } => {
                append_bytes(pending, data);
                if pending.len() >= WRITE_BUF_CAPACITY {
                    match zl_write(enc, pending.as_slice()) {
                        Ok(()) => {
                            pending.clear();
                            Ok(())
                        },
                        Err(e) => Err(e),
                    }
                } else {
                    Ok(())
                }
            },
        }
    }

    /// Finishes the write session and yields the accumulated buffer. A raw
    /// sink returns exactly the bytes written through it and cannot fail. A
    /// compressing sink first feeds the batch still sitting in its write
    /// buffer to the encoder, then has the encoder emit its trailing bytes:
    /// the result is the complete compressed stream of everything written,
    /// at the sink's level, and decoding it yields those written bytes back.
    /// Consuming the sink, this can be done once, so no write can follow it.
    pub fn get_buf(self) -> (r: Result<Vec<u8>, SinkError>)
        requires
            self.wf(),
        ensures
            r is Ok ==> r->Ok_0@ == finished_bytes(self.alg(), self.level(), self@),
            r is Ok ==> decoded(self.alg(), r->Ok_0@) == Some(self@),
            r is Ok && self.alg() != Algs::Raw ==> r->Ok_0@.len() > 0,
            self.alg() == Algs::Raw ==> r is Ok,
    {
        match self {
            Sink::Raw { buf } => Ok(buf),
            Sink::Gzip { enc, pending } => {
                let mut enc = enc;
                match gz_write(&mut enc, pending.as_slice()) {
                    Ok(()) => gz_finish(enc),
                    Err(e) => Err(e),
                }
            },
            Sink::Zlib { enc, pending } => {
                let mut enc = enc;
                match zl_write(&mut enc, pending.as_slice()) {
                    Ok(()) => zl_finish(enc),
                    Err(e) => Err(e),
                }
            },
        }
    }
}

/// Law: a raw sink transforms nothing — over any written bytes its finished
/// buffer is those bytes exactly, whatever level stands beside it.
pub proof fn lemma_raw_finish_is_identity(level: u32, data: Seq<u8>)
    ensures
        finished_bytes(Algs::Raw, level, data) == data,
{
}

/// Law: omitting the level selects the default level — a configuration with
/// no level and one naming the default level build sinks with the same
/// level, and so with the same finished bytes over the same written data.
pub proof fn lemma_omitted_level_is_default(alg: Algs, data: Seq<u8>)
    ensures
        chosen_level(Some((alg, None))) == chosen_level(Some((alg, Some(DEFAULT_LEVEL)))),
        finished_bytes(alg, chosen_level(Some((alg, None))), data) == finished_bytes(
            alg,
            chosen_level(Some((alg, Some(DEFAULT_LEVEL)))),
            data,
        ),
{
}

} // verus!
