//! The compressed result and the encoder paths that produce it.

use std::io::Write;
use vstd::prelude::*;

verus! {

/// A finished compressed stream, tagged with the codec that produced it.
#[derive(Debug, PartialEq, Eq)]
pub enum Compressed {
    Gz(Vec<u8>),
    Xz(Vec<u8>),
}

impl View for Compressed {
    type V = Seq<u8>;

    /// The compressed bytes, whichever codec produced them.
    open spec fn view(&self) -> Seq<u8> {
        match self {
            Compressed::Gz(data) => data@,
            Compressed::Xz(data) => data@,
        }
    }
}

impl Compressed {
    /// The conventional file extension of the codec that produced `self`.
    pub open spec fn extension_spec(&self) -> Seq<char> {
        match self {
            Compressed::Gz(_) => "gz"@,
            Compressed::Xz(_) => "xz"@,
        }
    }

    /// The extension for a file that holds these bytes: "gz" or "xz".
    pub fn extension(&self) -> (r: &'static str)
        ensures
            r@ == self.extension_spec(),
    {
        match self {
            Compressed::Gz(_) => "gz",
            Compressed::Xz(_) => "xz",
        }
    }

    /// Read-only access to the compressed bytes.
    pub fn as_bytes(&self) -> (r: &Vec<u8>)
        ensures
            r@ == self@,
    {
        match self {
            Compressed::Gz(data) => data,
            Compressed::Xz(data) => data,
        }
    }
}

impl std::ops::Deref for Compressed {
    type Target = Vec<u8>;

    fn deref(&self) -> (r: &Vec<u8>)
        ensures
            r@ == self@,
    {
        self.as_bytes()
    }
}

/// The extension names the codec and nothing else: it reads "gz" exactly
/// for a gzip result and "xz" exactly for an xz result, never both.
pub proof fn lemma_extension_names_codec(c: Compressed)
    ensures
        (c.extension_spec() == "gz"@) <==> (c is Gz),
        (c.extension_spec() == "xz"@) <==> (c is Xz),
{
    reveal_strlit("gz");
    reveal_strlit("xz");
    assert("gz"@[0] != "xz"@[0]);
}

/// Why a compression call failed; each encoder stage has its own kind.
#[derive(Debug)]
pub enum CompressionError {
    /// The gzip encoder reported a failure.
    Gzip(std::io::Error),
    /// The multi-threaded xz encoder could not be built with the requested
    /// thread count and preset.
    LzmaStream(xz2::stream::Error),
    /// Feeding the input to the xz encoder failed.
    LzmaWrite(std::io::Error),
    /// Finishing the xz stream failed.
    LzmaFinish(std::io::Error),
}

#[verifier::external_type_specification]
#[verifier::external_body]
pub struct ExIoError(std::io::Error);

#[verifier::external_type_specification]
#[verifier::external_body]
pub struct ExLzmaError(xz2::stream::Error);

/// The fixed gzip member header that zopfli writes: magic, deflate method,
/// no flags, no modification time, "best compression", Unix.
pub open spec fn gzip_header() -> Seq<u8> {
    seq![31u8, 139u8, 8u8, 0u8, 0u8, 0u8, 0u8, 0u8, 2u8, 3u8]
}

/// The gzip member that zopfli's default options make of `data`.
pub uninterp spec fn zopfli_gzip_of(data: Seq<u8>) -> Seq<u8>;

/// The four little-endian bytes of `n`, taken modulo 2^32.
pub open spec fn le_u32_bytes(n: nat) -> Seq<u8> {
    seq![
        (n % 256) as u8,
        ((n / 256) % 256) as u8,
        ((n / 65536) % 256) as u8,
        ((n / 16777216) % 256) as u8,
    ]
}

/// Relies on `zopfli::compress` with `Options::default()` and `Format::Gzip`:
/// it appends to `out` one gzip member, which depends on the input alone,
/// opens with the fixed header and closes with the CRC-32 and the input size
/// (little-endian). Its only failure is its 32-bit input counter running
/// over; writing into a `Vec` does not fail.
#[verifier::external_body]
fn zopfli_gzip(data: &[u8], out: &mut Vec<u8>) -> (r: Result<(), std::io::Error>)
    ensures
        r is Ok <==> data@.len() <= 0xFFFF_FFFF,
        r is Ok ==> final(out)@ == old(out)@ + zopfli_gzip_of(data@),
        r is Ok ==> zopfli_gzip_of(data@).len() >= 18,
        r is Ok ==> zopfli_gzip_of(data@).take(10) == gzip_header(),
        r is Ok ==> zopfli_gzip_of(data@).skip(zopfli_gzip_of(data@).len() - 4)
            == le_u32_bytes(data@.len()),
{
    zopfli::compress(&zopfli::Options::default(), &zopfli::Format::Gzip, data, out)
}

/// Capacity hint for the output buffer: compressed archive content is
/// typically a half to a third of its input.
pub fn output_capacity(input_len: usize) -> (r: usize)
    ensures
        r == input_len / 2,
{
    input_len / 2
}

/// Compresses `data` into a gzip stream with zopfli's standard options.
/// This is the default backend, so every result of this entry point is a
/// gzip result; `fast` has no effect on it. The xz backend is reached through
/// `compress_xz` instead. It fails only on an input longer than `u32::MAX`
/// bytes, whose size the gzip trailer cannot hold.
pub fn xz_or_gz(data: &[u8], fast: bool) -> (r: Result<Compressed, CompressionError>)
    ensures
        r is Ok <==> data@.len() <= 0xFFFF_FFFF,
        match r {
            Ok(c) => {
                &&& c is Gz
                &&& c@ == zopfli_gzip_of(data@)
                &&& c@.len() >= 18
                &&& c@.take(10) == gzip_header()
                &&& c@.skip(c@.len() - 4) == le_u32_bytes(data@.len())
            },
            Err(e) => e is Gzip,
        },
{
    let mut compressed: Vec<u8> = Vec::with_capacity(output_capacity(data.len()));
    match zopfli_gzip(data, &mut compressed) {
        Ok(()) => Ok(Compressed::Gz(compressed)),
        Err(e) => Err(CompressionError::Gzip(e)),
    }
}

#[verifier::external_type_specification]
#[verifier::external_body]
pub struct ExLzmaStream(xz2::stream::Stream);

/// The largest worker thread count that liblzma's multi-threaded encoder takes.
pub const LZMA_THREADS_MAX: u32 = 16384;

/// The xz preset: level 1 when speed matters, else level 6, a good trade-off
/// between size and an excessively long compression time.
pub open spec fn preset_spec(fast: bool) -> u32 {
    if fast { 1 } else { 6 }
}

pub fn xz_preset(fast: bool) -> (r: u32)
    ensures
        r == preset_spec(fast),
{
    if fast { 1 } else { 6 }
}

/// The worker thread count handed to the xz encoder for a CPU count.
pub fn thread_count(cpus: usize) -> (r: u32)
    ensures
        r == cpus as u32,
{
    cpus as u32
}

/// Relies on `num_cpus::get`: the logical CPUs visible to this process,
/// always at least 1.
#[verifier::external_body]
fn logical_cpus() -> (r: usize)
    ensures
        r >= 1,
{
    num_cpus::get()
}

/// Relies on xz2's `MtStreamBuilder` (`threads`, `preset`, `encoder`):
/// liblzma answers a thread count of 0 or above `LZMA_THREADS_MAX` with an
/// options error.
#[verifier::external_body]
fn mt_stream_encoder(threads: u32, preset: u32) -> (r: Result<xz2::stream::Stream, xz2::stream::Error>)
    ensures
        (threads == 0 || threads > LZMA_THREADS_MAX) ==> r is Err,
{
    xz2::stream::MtStreamBuilder::new().threads(threads).preset(preset).encoder()
}

/// The magic bytes that open every xz stream.
pub open spec fn xz_header_magic() -> Seq<u8> {
    seq![0xFDu8, 0x37u8, 0x7Au8, 0x58u8, 0x5Au8, 0x00u8]
}

/// The magic bytes that close every xz stream.
pub open spec fn xz_footer_magic() -> Seq<u8> {
    seq![0x59u8, 0x5Au8]
}

/// A byte sequence framed as an xz stream: header magic first, footer
/// magic last.
pub open spec fn is_xz_stream(b: Seq<u8>) -> bool {
    b.len() >= 8 && b.take(6) == xz_header_magic() && b.skip(b.len() - 2) == xz_footer_magic()
}

/// Relies on `xz2::write::XzEncoder`: `new_stream` over the empty `buf`,
/// `write_all` of `data`, then `finish`. The outer error is the write's,
/// the inner result the finish's; a finished stream opens and closes with
/// liblzma's header and footer magic. The three calls share one item because
/// the encoder's `Write` bound keeps its type out of verified signatures.
/// xz2's `write` unwraps liblzma's status, so an encoder-internal failure
/// (such as running out of memory) panics there rather than returning.
#[verifier::external_body]
fn xz_encode_all(buf: Vec<u8>, stream: xz2::stream::Stream, data: &[u8]) -> (r: Result<Result<Vec<u8>, std::io::Error>, std::io::Error>)
    requires
        buf@.len() == 0,
    ensures
        r matches Ok(Ok(v)) ==> is_xz_stream(v@),
{
    let mut writer = xz2::write::XzEncoder::new_stream(buf, stream);
    writer.write_all(data)?;
    Ok(writer.finish())
}

/// Maps what the xz encoder's write and finish stages gave (the outer error
/// is the write's, the inner result the finish's) to the call's result.
pub fn xz_outcome(stages: Result<Result<Vec<u8>, std::io::Error>, std::io::Error>) -> (r: Result<Compressed, CompressionError>)
    ensures
        match stages {
            Ok(Ok(v)) => r == Ok::<Compressed, CompressionError>(Compressed::Xz(v)),
            Ok(Err(e)) => r == Err::<Compressed, CompressionError>(CompressionError::LzmaFinish(e)),
            Err(e) => r == Err::<Compressed, CompressionError>(CompressionError::LzmaWrite(e)),
        },
{
    match stages {
        Ok(Ok(compressed)) => Ok(Compressed::Xz(compressed)),
        Ok(Err(e)) => Err(CompressionError::LzmaFinish(e)),
        Err(e) => Err(CompressionError::LzmaWrite(e)),
    }
}

/// Compresses `data` with an xz encoder stream whose construction gave
/// `stream`. A failed construction is reported as such, before anything is
/// written; otherwise the write and finish stages decide.
pub fn xz_from_stream(stream: Result<xz2::stream::Stream, xz2::stream::Error>, data: &[u8]) -> (r: Result<Compressed, CompressionError>)
    ensures
        match stream {
            Err(e) => r == Err::<Compressed, CompressionError>(CompressionError::LzmaStream(e)),
            Ok(_) => match r {
                Ok(c) => c is Xz && is_xz_stream(c@),
                Err(e) => e is LzmaWrite || e is LzmaFinish,
            },
        },
{
    match stream {
        Ok(s) => {
            let buf: Vec<u8> = Vec::with_capacity(output_capacity(data.len()));
            xz_outcome(xz_encode_all(buf, s, data))
        },
        Err(e) => Err(CompressionError::LzmaStream(e)),
    }
}

/// Compresses `data` into an xz stream with the multi-threaded encoder, using
/// `threads` workers and the preset that `fast` selects. A failure of each
/// stage (building the encoder, writing, finishing) has its own error kind.
pub fn compress_xz_with_threads(data: &[u8], fast: bool, threads: u32) -> (r: Result<Compressed, CompressionError>)
    ensures
        match r {
            Ok(c) => c is Xz && is_xz_stream(c@),
            Err(e) => e is LzmaStream || e is LzmaWrite || e is LzmaFinish,
        },
        (threads == 0 || threads > LZMA_THREADS_MAX) ==> (r matches Err(CompressionError::LzmaStream(_))),
{
    xz_from_stream(mt_stream_encoder(threads, xz_preset(fast)), data)
}

/// Compresses `data` into an xz stream, with one worker thread for each
/// logical CPU that this process sees.
pub fn compress_xz(data: &[u8], fast: bool) -> (r: Result<Compressed, CompressionError>)
    ensures
        match r {
            Ok(c) => c is Xz && is_xz_stream(c@),
            Err(e) => e is LzmaStream || e is LzmaWrite || e is LzmaFinish,
        },
{
    compress_xz_with_threads(data, fast, thread_count(logical_cpus()))
}

} // verus!
