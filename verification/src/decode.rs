//! Decoding a GIF into raw RGBA frames.
//!
//! The decoding itself is the `gif` crate's. This module drives the decoder frame
//! by frame and collects what it gives. What the decoder makes of given bytes is
//! not written down here: it has a name, and the contracts say how the result is
//! put together from what goes by that name.
use vstd::prelude::*;
use crate::error::AnimeError;
use crate::frame::Disposal;
use crate::frame::RawFrame;
use crate::frame::RawFrameView;

verus! {

/// A `gif::Decoder` that reads from a slice of bytes and expands every frame to
/// RGBA. What it holds is the decoder's own business: the library only hands it
/// on, and speaks of it through `reader_source` and `reader_reads`.
#[verifier::external_body]
pub struct GifReader<'a> {
    inner: ::gif::Decoder<&'a [u8]>,
}

/// `gif::DecodingError`: why the decoder failed. It is only taken from the decoder
/// and dropped: every failure of the decoder is the library's `Decode`.
#[verifier::external_type_specification]
#[verifier::external_body]
pub struct ExDecodingError(::gif::DecodingError);

/// What one read of a decoder gives.
pub enum FrameRead {
    /// The next frame.
    Frame(RawFrameView),
    /// The image has ended.
    End,
    /// The image is malformed, or it ends too early.
    Failed,
}

/// What the decoder makes of the header of the image in `bytes`: the width and the
/// height of the canvas, or `None` where it fails on the header.
pub uninterp spec fn gif_screen(bytes: Seq<u8>) -> Option<(u16, u16)>;

/// The width of the canvas that `gif_screen` names, if it names one.
pub open spec fn screen_width(bytes: Seq<u8>) -> Option<u16> {
    match gif_screen(bytes) {
        Some(screen) => Some(screen.0),
        None => None,
    }
}

/// The height of the canvas that `gif_screen` names, if it names one.
pub open spec fn screen_height(bytes: Seq<u8>) -> Option<u16> {
    match gif_screen(bytes) {
        Some(screen) => Some(screen.1),
        None => None,
    }
}

/// What a decoder that was opened on `bytes` gives at its read number `index`,
/// counting from zero.
pub uninterp spec fn gif_frame(bytes: Seq<u8>, index: nat) -> FrameRead;

/// The bytes that a decoder was opened on.
pub uninterp spec fn reader_source(reader: GifReader) -> Seq<u8>;

/// The number of reads that a decoder has made.
pub uninterp spec fn reader_reads(reader: GifReader) -> nat;

/// A decoded image: the size of its canvas and its frames in the order of the
/// source.
#[derive(Debug)]
pub struct Source {
    /// Width of the canvas in pixels.
    pub width: u16,
    /// Height of the canvas in pixels.
    pub height: u16,
    /// The frames, first to last.
    pub frames: Vec<RawFrame>,
}

/// What a decoded image holds, as plain values.
pub struct SourceView {
    pub width: u16,
    pub height: u16,
    pub frames: Seq<RawFrameView>,
}

impl View for Source {
    type V = SourceView;

    open spec fn view(&self) -> SourceView {
        SourceView {
            width: self.width,
            height: self.height,
            frames: Seq::new(self.frames@.len(), |i: int| self.frames@[i]@),
        }
    }
}

/// `gif::DecodeOptions::read_info` on options that ask for RGBA output: reads the
/// header of the image in `bytes` and hands back a decoder that stands before the
/// first frame. It succeeds where `gif_screen` names a canvas, and the decoder has
/// made no read yet.
#[verifier::external_body]
fn open_decoder<'a>(bytes: &'a [u8]) -> (opened: Result<GifReader<'a>, ::gif::DecodingError>)
    ensures
        opened is Ok <==> gif_screen(bytes@) is Some,
        opened matches Ok(reader) ==> reader_source(reader) == bytes@ && reader_reads(reader) == 0,
{
    let mut options = ::gif::DecodeOptions::new();
    options.set_color_output(::gif::ColorOutput::RGBA);
    Ok(GifReader { inner: options.read_info(bytes)? })
}

/// `gif::Decoder::width`: the width of the canvas that the header declares, which
/// is the one that `gif_screen` names for the decoder's bytes.
#[verifier::external_body]
fn canvas_width(reader: &GifReader) -> (width: u16)
    ensures
        Some(width) == screen_width(reader_source(*reader)),
{
    reader.inner.width()
}

/// `gif::Decoder::height`: the height of the canvas that the header declares,
/// which is the one that `gif_screen` names for the decoder's bytes.
#[verifier::external_body]
fn canvas_height(reader: &GifReader) -> (height: u16)
    ensures
        Some(height) == screen_height(reader_source(*reader)),
{
    reader.inner.height()
}

/// `gif::Decoder::read_next_frame`: decodes the next frame, or finds that the
/// image has ended, or fails. A frame is handed over field by field.
///
/// The read is counted, and what it gives is what `gif_frame` names for the
/// decoder's bytes and the number of reads made before. Of a frame it is claimed
/// besides that its buffer holds four bytes for each of its pixels, as the decoder
/// allots them for RGBA output.
#[verifier::external_body]
fn next_frame(reader: &mut GifReader) -> (next: Result<Option<RawFrame>, ::gif::DecodingError>)
    ensures
        reader_source(*final(reader)) == reader_source(*old(reader)),
        reader_reads(*final(reader)) == reader_reads(*old(reader)) + 1,
        gif_frame(reader_source(*old(reader)), reader_reads(*old(reader))) == match next {
            Ok(Some(frame)) => FrameRead::Frame(frame@),
            Ok(None) => FrameRead::End,
            Err(_) => FrameRead::Failed,
        },
        next matches Ok(Some(frame)) ==> frame@.complete(),
{
    let frame = match reader.inner.read_next_frame()? {
        Some(frame) => frame,
        None => return Ok(None),
    };
    let dispose = match frame.dispose {
        ::gif::DisposalMethod::Any => Disposal::Any,
        ::gif::DisposalMethod::Keep => Disposal::Keep,
        ::gif::DisposalMethod::Background => Disposal::Background,
        ::gif::DisposalMethod::Previous => Disposal::Previous,
    };
    let rgba = frame.buffer.to_vec();
    let (width, height, top, left, delay) = (frame.width, frame.height, frame.top, frame.left, frame.delay);
    Ok(Some(RawFrame { rgba, width, height, top, left, delay, dispose }))
}

/// Whether the image in `bytes` decodes to `source`: the decoder accepts the
/// header and names the canvas of `source`, its reads give the frames of `source`
/// one after the other, and its next read finds the end of the image.
///
/// A frame takes at least one byte of the image, so an image never holds more
/// frames than bytes; a decoder that gave more is taken to have failed.
pub open spec fn decodes_to(bytes: Seq<u8>, source: SourceView) -> bool {
    &&& gif_screen(bytes) == Some((source.width, source.height))
    &&& source.frames.len() <= bytes.len()
    &&& forall|i: nat|
        i < source.frames.len() ==> #[trigger] gif_frame(bytes, i) == FrameRead::Frame(
            source.frames[i as int],
        )
    &&& gif_frame(bytes, source.frames.len()) == FrameRead::End
}

/// Whether the image in `bytes` can be decoded at all.
pub open spec fn decodable(bytes: Seq<u8>) -> bool {
    exists|source: SourceView| decodes_to(bytes, source)
}

/// An image decodes in one way only: to one canvas and one sequence of frames.
pub proof fn lemma_decodes_once(bytes: Seq<u8>, first: SourceView, second: SourceView)
    requires
        decodes_to(bytes, first),
        decodes_to(bytes, second),
    ensures
        first == second,
{
    let frames1 = first.frames;
    let frames2 = second.frames;
    if frames1.len() < frames2.len() {
        assert(gif_frame(bytes, frames1.len()) == FrameRead::Frame(frames2[frames1.len() as int]));
    } else if frames2.len() < frames1.len() {
        assert(gif_frame(bytes, frames2.len()) == FrameRead::Frame(frames1[frames2.len() as int]));
    } else {
        assert forall|i: int| 0 <= i < frames1.len() implies frames1[i] == frames2[i] by {
            let n: nat = i as nat;
            assert(gif_frame(bytes, n) == FrameRead::Frame(frames1[n as int]));
            assert(gif_frame(bytes, n) == FrameRead::Frame(frames2[n as int]));
        }
        assert(frames1 =~= frames2);
    }
}

/// Where the reads of a decoder have given `frames` so far and its next read
/// fails, or gives a frame where no byte is left to stand for it, the image
/// cannot be decoded.
proof fn lemma_not_decodable(bytes: Seq<u8>, frames: Seq<RawFrameView>)
    requires
        frames.len() <= bytes.len(),
        forall|i: nat|
            i < frames.len() ==> #[trigger] gif_frame(bytes, i) == FrameRead::Frame(frames[i as int]),
        gif_frame(bytes, frames.len()) is Failed || (gif_frame(bytes, frames.len()) is Frame
            && frames.len() == bytes.len()),
    ensures
        !decodable(bytes),
{
    assert forall|other: SourceView| !decodes_to(bytes, other) by {
        if decodes_to(bytes, other) {
            if other.frames.len() < frames.len() {
                assert(gif_frame(bytes, other.frames.len()) == FrameRead::Frame(
                    frames[other.frames.len() as int],
                ));
            } else if other.frames.len() > frames.len() {
                assert(gif_frame(bytes, frames.len()) == FrameRead::Frame(
                    other.frames[frames.len() as int],
                ));
            }
        }
    }
}

/// Decodes the GIF in `bytes` into its canvas and its frames, each expanded to
/// RGBA.
///
/// The result is all or nothing: where the decoder fails on the header or on any
/// frame, what was decoded so far is dropped and the error is `Decode`. Every
/// frame that is handed out holds all its pixels.
pub fn decode(bytes: &[u8]) -> (decoded: Result<Source, AnimeError>)
    ensures
        decoded is Ok <==> decodable(bytes@),
        decoded matches Ok(source) ==> {
            &&& decodes_to(bytes@, source@)
            &&& forall|i: int| 0 <= i < source@.frames.len() ==> (#[trigger] source@.frames[i]).complete()
        },
        decoded matches Err(e) ==> e == AnimeError::Decode,
{
    let mut reader = match open_decoder(bytes) {
        Ok(reader) => reader,
        Err(_) => {
            return Err(AnimeError::Decode);
        },
    };
    let width: u16 = canvas_width(&reader);
    let height: u16 = canvas_height(&reader);
    let mut frames: Vec<RawFrame> = Vec::new();
    while frames.len() < bytes.len()
        invariant
            frames.len() <= bytes.len(),
            gif_screen(bytes@) == Some((width, height)),
            reader_source(reader) == bytes@,
            reader_reads(reader) == frames@.len(),
            forall|i: nat|
                i < frames@.len() ==> #[trigger] gif_frame(bytes@, i) == FrameRead::Frame(
                    frames@[i as int]@,
                ),
            forall|i: int| 0 <= i < frames@.len() ==> (#[trigger] frames@[i])@.complete(),
        decreases bytes.len() - frames.len(),
    {
        match next_frame(&mut reader) {
            Ok(Some(frame)) => {
                frames.push(frame);
            },
            Ok(None) => {
                let source = Source { width, height, frames };
                assert(decodes_to(bytes@, source@));
                return Ok(source);
            },
            Err(_) => {
                proof {
                    lemma_not_decodable(bytes@, Seq::new(frames@.len(), |i: int| frames@[i]@));
                }
                return Err(AnimeError::Decode);
            },
        }
    }
    match next_frame(&mut reader) {
        Ok(None) => {
            let source = Source { width, height, frames };
            assert(decodes_to(bytes@, source@));
            Ok(source)
        },
        _ => {
            proof {
                lemma_not_decodable(bytes@, Seq::new(frames@.len(), |i: int| frames@[i]@));
            }
            Err(AnimeError::Decode)
        },
    }
}

} // verus!
