//! Animations: the encoded frames of a source in order, each with the time to
//! show it, and the policy that says how long the sequence repeats.
//!
//! An animation is computed once, in full, and never changes afterwards. It holds
//! at least one frame.
use vstd::prelude::*;
use std::time::Duration;
use crate::data::AnimeDataBuffer;
use crate::data::encoded;
use crate::data::lemma_encoded_led;
use crate::decode::decodable;
use crate::decode::decode;
use crate::decode::decodes_to;
use crate::decode::lemma_decodes_once;
use crate::decode::Source;
use crate::decode::SourceView;
use crate::error::AnimeError;
use crate::frame::RawFrame;
use crate::geometry::Brightness;
use crate::geometry::Geometry;
use crate::geometry::lemma_full_brightness;
use crate::geometry::ONE;
use crate::geometry::Resample;
use crate::grid::AnimeGrid;
use crate::grid::blank;
use crate::grid::cell_index;
use crate::grid::composed;
use crate::grid::lemma_cell_index;
use crate::grid::lemma_level;
use crate::grid::Pixel;
use crate::layout::addressable;
use crate::layout::DATA_LEN;
use crate::layout::GRID_COLS;
use crate::layout::GRID_ROWS;
use crate::layout::lemma_row_shape;
use crate::layout::slot_of;
use crate::time::duration_nanos;
use crate::time::NANOS_PER_MILLI;

verus! {

/// One step of an animation: what the display shows, and for how long.
#[derive(Debug)]
pub struct AnimeFrame {
    data: AnimeDataBuffer,
    delay: Duration,
}

/// What a frame holds, as plain values.
pub struct FrameView {
    /// The bytes of the data buffer.
    pub data: Seq<u8>,
    /// The time to show the frame.
    pub delay: Duration,
}

impl View for AnimeFrame {
    type V = FrameView;

    closed spec fn view(&self) -> FrameView {
        FrameView { data: self.data@, delay: self.delay }
    }
}

impl Clone for AnimeFrame {
    /// A copy shows the same bytes for the same time.
    fn clone(&self) -> (copy: Self)
        ensures
            copy@ == self@,
    {
        AnimeFrame { data: self.data.clone(), delay: self.delay }
    }
}

impl AnimeFrame {
    /// The frame that shows `data` for `delay`.
    pub fn new(data: AnimeDataBuffer, delay: Duration) -> (frame: Self)
        ensures
            frame@.data == data@,
            frame@.delay == delay,
    {
        AnimeFrame { data, delay }
    }

    /// The data buffer of the frame, ready for the device.
    pub fn frame(&self) -> (data: &AnimeDataBuffer)
        ensures
            data@ == self@.data,
            data@.len() == DATA_LEN,
    {
        proof {
            use_type_invariant(&self.data);
        }
        &self.data
    }

    /// The time to show the frame.
    pub fn delay(&self) -> (delay: Duration)
        ensures
            delay == self@.delay,
    {
        self.delay
    }
}

/// How long an animation runs.
#[derive(Debug, Copy, Clone)]
pub enum AnimTime {
    /// For this much time.
    Time(Duration),
    /// For this many full passes over the frames.
    Cycles(u32),
    /// Until it is stopped from outside.
    Infinite,
}

impl Default for AnimTime {
    /// An animation runs without end unless told otherwise.
    fn default() -> (policy: Self)
        ensures
            policy == AnimTime::Infinite,
    {
        AnimTime::Infinite
    }
}

/// An animation: a sequence of frames and the policy for repeating it.
#[derive(Debug)]
pub struct AnimeGif(Vec<AnimeFrame>, AnimTime);

/// What an animation holds, as plain values.
pub struct GifView {
    /// The frames, first to last.
    pub frames: Seq<FrameView>,
    /// How long the animation runs.
    pub policy: AnimTime,
}

impl View for AnimeGif {
    type V = GifView;

    closed spec fn view(&self) -> GifView {
        GifView { frames: Seq::new(self.0@.len(), |i: int| self.0@[i]@), policy: self.1 }
    }
}

/// The grid after the first `count` frames of `source` were drawn one over the
/// other onto a blank grid.
pub open spec fn grid_after(source: SourceView, geometry: Geometry, brightness: Brightness, count: int) -> Seq<
    Pixel,
>
    decreases count,
{
    if count <= 0 {
        blank()
    } else {
        composed(
            grid_after(source, geometry, brightness, count - 1),
            source.frames[count - 1],
            source.width as int,
            source.height as int,
            geometry,
            brightness,
        )
    }
}

/// Whether `anim` is the animation of `source`: one frame for each frame of the
/// source in their order, each holding the buffer of the grid as it stands once
/// the source frame is drawn, and each shown for ten milliseconds per hundredth
/// of a second of the source's delay.
pub open spec fn renders(
    anim: GifView,
    source: SourceView,
    geometry: Geometry,
    brightness: Brightness,
    policy: AnimTime,
) -> bool {
    &&& anim.frames.len() == source.frames.len()
    &&& anim.policy == policy
    &&& forall|i: int|
        0 <= i < source.frames.len() ==> {
            &&& (#[trigger] anim.frames[i]).data == encoded(
                grid_after(source, geometry, brightness, i + 1),
            )
            &&& duration_nanos(anim.frames[i].delay) == source.frames[i].delay_millis() * (
            NANOS_PER_MILLI as nat)
        }
}

/// Whether the image in `bytes` decodes to at least one frame.
pub open spec fn has_frames(bytes: Seq<u8>) -> bool {
    exists|source: SourceView| #[trigger] decodes_to(bytes, source) && source.frames.len() > 0
}

/// Whether `anim` is the animation of the image in `bytes`: the image decodes to
/// a source with at least one frame, and `anim` is the animation of that source.
pub open spec fn built_from(
    bytes: Seq<u8>,
    anim: GifView,
    geometry: Geometry,
    brightness: Brightness,
    policy: AnimTime,
) -> bool {
    exists|source: SourceView|
        #[trigger] decodes_to(bytes, source) && source.frames.len() > 0 && renders(
            anim,
            source,
            geometry,
            brightness,
            policy,
        )
}

/// One frame of a stored animation, as plain values.
#[derive(Debug)]
pub struct FrameParts {
    /// The bytes of the data buffer.
    pub data: Vec<u8>,
    /// The time to show the frame.
    pub delay: Duration,
}

impl View for FrameParts {
    type V = FrameView;

    open spec fn view(&self) -> FrameView {
        FrameView { data: self.data@, delay: self.delay }
    }
}

/// An animation as it is stored and loaded: plain values, which a storage format
/// can write down as they are.
#[derive(Debug)]
pub struct GifParts {
    /// The frames, first to last.
    pub frames: Vec<FrameParts>,
    /// How long the animation runs.
    pub duration: AnimTime,
}

impl View for GifParts {
    type V = GifView;

    open spec fn view(&self) -> GifView {
        GifView { frames: Seq::new(self.frames@.len(), |i: int| self.frames@[i]@), policy: self.duration }
    }
}

/// Whether what `anim` holds makes an animation: there is a frame, and every
/// buffer has the length that the device takes.
pub open spec fn loadable(anim: GifView) -> bool {
    &&& anim.frames.len() > 0
    &&& forall|i: int| 0 <= i < anim.frames.len() ==> (#[trigger] anim.frames[i]).data.len() == DATA_LEN
}

/// What loading makes of stored parts: the animation that holds exactly what the
/// parts hold, or the reason why there is none.
pub open spec fn loaded(parts: GifView) -> Result<GifView, AnimeError> {
    if parts.frames.len() == 0 {
        Err(AnimeError::NoFrames)
    } else if !loadable(parts) {
        Err(AnimeError::DataBufferLength)
    } else {
        Ok(parts)
    }
}

/// Storing loses nothing: what was stored of an animation loads as that
/// animation, buffer for buffer, delay for delay, with the same policy.
pub proof fn lemma_store_load(anim: GifView)
    requires
        loadable(anim),
    ensures
        loaded(anim) == Ok::<GifView, AnimeError>(anim),
{
}

/// A source of a single frame of the grid's size in one solid, fully opaque
/// colour, placed directly at full brightness, gives an animation of exactly one
/// frame, in which every LED shows the red value of that colour.
pub proof fn lemma_solid_frame(
    anim: GifView,
    source: SourceView,
    brightness: Brightness,
    policy: AnimTime,
    red: u8,
)
    requires
        source.frames.len() == 1,
        source.frames[0].left == 0,
        source.frames[0].top == 0,
        source.frames[0].width == GRID_COLS,
        source.frames[0].height == GRID_ROWS,
        source.frames[0].solid(red),
        brightness.level() == ONE,
        renders(anim, source, Geometry::Native, brightness, policy),
    ensures
        anim.frames.len() == 1,
        forall|row: int, col: int|
            addressable(row, col) ==> anim.frames[0].data[#[trigger] slot_of(row, col)] == red,
{
    let grid = grid_after(source, Geometry::Native, brightness, 1);
    assert(anim.frames[0].data == encoded(grid));
    assert forall|row: int, col: int| addressable(row, col) implies anim.frames[0].data[#[trigger] slot_of(
        row,
        col,
    )] == red by {
        lemma_row_shape(row);
        lemma_cell_index(row, col);
        lemma_encoded_led(grid, row, col);
        assert(source.frames[0].is_opaque(col, row));
        lemma_full_brightness(brightness, red);
        let pixel = grid[cell_index(row, col)];
        assert(pixel == Pixel::lit(red));
        lemma_level(pixel);
    }
}

impl Clone for AnimeGif {
    /// A copy holds the same frames and the same policy.
    fn clone(&self) -> (copy: Self)
        ensures
            copy@ == self@,
    {
        proof {
            use_type_invariant(self);
        }
        let count: usize = self.0.len();
        let mut frames: Vec<AnimeFrame> = Vec::with_capacity(count);
        while frames.len() < count
            invariant
                count == self.0@.len(),
                frames@.len() <= count,
                forall|i: int| 0 <= i < frames@.len() ==> frames@[i]@ == self.0@[i]@,
            decreases count - frames@.len(),
        {
            let frame: AnimeFrame = self.0[frames.len()].clone();
            frames.push(frame);
        }
        let copy = AnimeGif(frames, self.1);
        assert(copy@.frames =~= self@.frames);
        copy
    }
}

impl AnimeGif {
    /// An animation holds at least one frame.
    #[verifier::type_invariant]
    pub open spec fn not_empty(&self) -> bool {
        self@.frames.len() > 0
    }

    /// The animation of the given frames and policy, or `NoFrames` where there is
    /// no frame.
    pub fn new(frames: Vec<AnimeFrame>, duration: AnimTime) -> (made: Result<Self, AnimeError>)
        ensures
            made is Ok <==> frames@.len() > 0,
            made matches Ok(anim) ==> {
                &&& anim@.frames.len() == frames@.len()
                &&& forall|i: int| 0 <= i < frames@.len() ==> anim@.frames[i] == frames@[i]@
                &&& anim@.policy == duration
            },
            made matches Err(e) ==> e == AnimeError::NoFrames,
    {
        if frames.len() == 0 {
            Err(AnimeError::NoFrames)
        } else {
            Ok(AnimeGif(frames, duration))
        }
    }

    /// The animation of a decoded source, laid onto the grid by `geometry`.
    ///
    /// The frames are drawn in order onto one running grid, which starts blank.
    /// Before each frame that restores the background the grid is cleared; every
    /// other frame is drawn over what is there. After each frame the grid is
    /// packed into a data buffer. A source without frames gives `NoFrames`.
    pub fn from_source(
        source: &Source,
        geometry: &Geometry,
        brightness: Brightness,
        duration: AnimTime,
    ) -> (made: Result<Self, AnimeError>)
        ensures
            made is Ok <==> source@.frames.len() > 0,
            made matches Ok(anim) ==> renders(anim@, source@, *geometry, brightness, duration),
            made matches Err(e) ==> e == AnimeError::NoFrames,
    {
        let count: usize = source.frames.len();
        if count == 0 {
            return Err(AnimeError::NoFrames);
        }
        let mut grid: AnimeGrid = AnimeGrid::new();
        let mut frames: Vec<AnimeFrame> = Vec::with_capacity(count);
        let mut i: usize = 0;
        while i < count
            invariant
                i <= count,
                count == source.frames@.len(),
                frames@.len() == i,
                grid@ == grid_after(source@, *geometry, brightness, i as int),
                forall|j: int|
                    0 <= j < i ==> {
                        &&& (#[trigger] frames@[j])@.data == encoded(
                            grid_after(source@, *geometry, brightness, j + 1),
                        )
                        &&& duration_nanos(frames@[j]@.delay) == source@.frames[j].delay_millis() * (
                        NANOS_PER_MILLI as nat)
                    },
            decreases count - i,
        {
            let raw: &RawFrame = &source.frames[i];
            grid = grid.compose(raw, source.width, source.height, geometry, brightness);
            let data: AnimeDataBuffer = AnimeDataBuffer::from_grid(&grid);
            let delay: Duration = Duration::from_millis(raw.millis());
            frames.push(AnimeFrame::new(data, delay));
            i = i + 1;
        }
        let anim = AnimeGif(frames, duration);
        assert(renders(anim@, source@, *geometry, brightness, duration));
        Ok(anim)
    }

    /// The animation of a still image: the image as its single frame, on a canvas
    /// of the image's own size, shown without end.
    pub fn from_still(image: RawFrame, geometry: &Geometry, brightness: Brightness) -> (anim: Self)
        ensures
            renders(
                anim@,
                (SourceView { width: image.width, height: image.height, frames: seq![image@] }),
                *geometry,
                brightness,
                AnimTime::Infinite,
            ),
    {
        let width: u16 = image.width;
        let height: u16 = image.height;
        let mut frames: Vec<RawFrame> = Vec::with_capacity(1);
        frames.push(image);
        let source = Source { width, height, frames };
        assert(source@.frames =~= seq![image@]);
        match Self::from_source(&source, geometry, brightness, AnimTime::Infinite) {
            Ok(anim) => anim,
            Err(_) => vstd::pervasive::unreached(),
        }
    }

    /// The animation of the GIF in `bytes`, laid onto the grid by `geometry`.
    ///
    /// Fails with `Decode` where the bytes cannot be decoded and with `NoFrames`
    /// where they decode to an image without frames; nothing is built in part.
    pub fn create(bytes: &[u8], geometry: &Geometry, brightness: Brightness, duration: AnimTime) -> (made:
        Result<Self, AnimeError>)
        ensures
            made is Ok <==> has_frames(bytes@),
            made matches Ok(anim) ==> built_from(bytes@, anim@, *geometry, brightness, duration),
            made matches Err(e) ==> e == if decodable(bytes@) {
                AnimeError::NoFrames
            } else {
                AnimeError::Decode
            },
    {
        match decode(bytes) {
            Ok(source) => {
                proof {
                    if has_frames(bytes@) {
                        let other = choose|other: SourceView|
                            #[trigger] decodes_to(bytes@, other) && other.frames.len() > 0;
                        lemma_decodes_once(bytes@, other, source@);
                    }
                }
                Self::from_source(&source, geometry, brightness, duration)
            },
            Err(e) => Err(e),
        }
    }

    /// The animation of a GIF drawn at the grid's own resolution: every pixel is
    /// placed on the cell at its own row and column, and shows its red channel
    /// times `brightness`.
    pub fn create_diagonal_gif(bytes: &[u8], duration: AnimTime, brightness: Brightness) -> (made:
        Result<Self, AnimeError>)
        ensures
            made is Ok <==> has_frames(bytes@),
            made matches Ok(anim) ==> built_from(bytes@, anim@, Geometry::Native, brightness, duration),
            made matches Err(e) ==> e == if decodable(bytes@) {
                AnimeError::NoFrames
            } else {
                AnimeError::Decode
            },
    {
        Self::create(bytes, &Geometry::Native, brightness, duration)
    }

    /// The animation of a GIF of any size, resampled onto the grid through
    /// `transform`. A drawn pixel shows the mean of its three colour channels;
    /// `brightness` is not applied.
    pub fn create_png_gif(
        bytes: &[u8],
        transform: Resample,
        duration: AnimTime,
        brightness: Brightness,
    ) -> (made: Result<Self, AnimeError>)
        ensures
            made is Ok <==> has_frames(bytes@),
            made matches Ok(anim) ==> built_from(
                bytes@,
                anim@,
                Geometry::Resampled(transform),
                brightness,
                duration,
            ),
            made matches Err(e) ==> e == if decodable(bytes@) {
                AnimeError::NoFrames
            } else {
                AnimeError::Decode
            },
    {
        Self::create(bytes, &Geometry::Resampled(transform), brightness, duration)
    }

    /// The animation as plain values, for storing. What comes out loads as this
    /// animation.
    pub fn to_parts(&self) -> (parts: GifParts)
        ensures
            parts@ == self@,
            loaded(parts@) == Ok::<GifView, AnimeError>(self@),
    {
        proof {
            use_type_invariant(self);
        }
        let count: usize = self.0.len();
        let mut frames: Vec<FrameParts> = Vec::with_capacity(count);
        while frames.len() < count
            invariant
                count == self.0@.len(),
                frames@.len() <= count,
                forall|i: int|
                    0 <= i < frames@.len() ==> {
                        &&& (#[trigger] frames@[i])@ == self.0@[i]@
                        &&& frames@[i].data@.len() == DATA_LEN
                    },
            decreases count - frames@.len(),
        {
            let frame: &AnimeFrame = &self.0[frames.len()];
            let data: Vec<u8> = frame.frame().to_vec();
            frames.push(FrameParts { data, delay: frame.delay() });
        }
        let parts = GifParts { frames, duration: self.1 };
        assert(parts@.frames =~= self@.frames);
        parts
    }

    /// The animation that `parts` holds.
    ///
    /// Fails with `NoFrames` where there is no frame, and with `DataBufferLength`
    /// where there are frames and one of the buffers has not the device's length.
    pub fn from_parts(parts: &GifParts) -> (made: Result<Self, AnimeError>)
        ensures
            match made {
                Ok(anim) => loaded(parts@) == Ok::<GifView, AnimeError>(anim@),
                Err(e) => loaded(parts@) == Err::<GifView, AnimeError>(e),
            },
    {
        let count: usize = parts.frames.len();
        if count == 0 {
            return Err(AnimeError::NoFrames);
        }
        let mut frames: Vec<AnimeFrame> = Vec::with_capacity(count);
        while frames.len() < count
            invariant
                count == parts.frames@.len(),
                count > 0,
                frames@.len() <= count,
                forall|i: int|
                    0 <= i < frames@.len() ==> {
                        &&& (#[trigger] frames@[i])@ == parts.frames@[i]@
                        &&& parts.frames@[i].data@.len() == DATA_LEN
                    },
            decreases count - frames@.len(),
        {
            let stored: &FrameParts = &parts.frames[frames.len()];
            let data: Vec<u8> = stored.data.clone();
            assert(data@ =~= stored.data@);
            match AnimeDataBuffer::from_vec(data) {
                Some(buffer) => frames.push(AnimeFrame::new(buffer, stored.delay)),
                None => {
                    assert(parts@.frames[frames@.len() as int].data.len() != DATA_LEN);
                    return Err(AnimeError::DataBufferLength);
                },
            }
        }
        assert forall|i: int| 0 <= i < parts@.frames.len() implies (#[trigger] parts@.frames[i]).data.len()
            == DATA_LEN by {
            assert(frames@[i]@ == parts.frames@[i]@);
        }
        let anim = AnimeGif(frames, parts.duration);
        assert(anim@.frames =~= parts@.frames);
        Ok(anim)
    }

    /// The frames of the animation, first to last. There is at least one.
    pub fn frames(&self) -> (frames: &[AnimeFrame])
        ensures
            frames@.len() == self@.frames.len(),
            frames@.len() > 0,
            forall|i: int| 0 <= i < frames@.len() ==> frames@[i]@ == self@.frames[i],
    {
        proof {
            use_type_invariant(self);
        }
        self.0.as_slice()
    }

    /// How long the animation runs.
    pub fn duration(&self) -> (policy: AnimTime)
        ensures
            policy == self@.policy,
    {
        self.1
    }

    /// Puts a newly built animation in the place of this one, if there is one.
    ///
    /// Where building failed, this animation stays exactly as it was and the
    /// error is handed on.
    pub fn install(&mut self, made: Result<AnimeGif, AnimeError>) -> (done: Result<(), AnimeError>)
        ensures
            made matches Ok(anim) ==> done is Ok && *final(self) == anim,
            made matches Err(e) ==> done == Err::<(), AnimeError>(e) && *final(self) == *old(self),
    {
        match made {
            Ok(anim) => {
                *self = anim;
                Ok(())
            },
            Err(e) => Err(e),
        }
    }
}

} // verus!
