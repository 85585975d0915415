//! Decoded frames on their way from the decoder to the screen.
//!
//! The decoder hands over one sample at a time; the painter shows the frame
//! that arrived last. Between the two stands a [`FrameSlot`].

use vstd::prelude::*;

verus! {

/// Bytes per pixel of a frame.
pub const BYTES_PER_PIXEL: u32 = 4;

/// One decoded frame: four bytes for each pixel, row by row.
pub struct RgbaFrame {
    pub data: Vec<u8>,
    pub width: u32,
    pub height: u32,
}

/// A frame as values: its bytes, its width and its height.
#[verifier::ext_equal]
pub struct FrameModel {
    pub data: Seq<u8>,
    pub width: u32,
    pub height: u32,
}

impl View for RgbaFrame {
    type V = FrameModel;

    open spec fn view(&self) -> FrameModel {
        FrameModel { data: self.data@, width: self.width, height: self.height }
    }
}

impl FrameModel {
    /// The frame has enough bytes for all of its pixels.
    pub open spec fn is_complete(self) -> bool {
        &&& BYTES_PER_PIXEL * self.width <= usize::MAX
        &&& BYTES_PER_PIXEL * self.width * self.height <= self.data.len()
    }
}

/// The size of a frame as the decoder announces it. Either number may be
/// missing.
pub struct AnnouncedSize {
    pub width: Option<i32>,
    pub height: Option<i32>,
}

/// A sample as the decoder delivers it. The pixels are missing if the sample
/// has no buffer or the buffer cannot be read, the size if the sample does not
/// describe its format.
pub struct Sample {
    pub size: Option<AnnouncedSize>,
    pub pixels: Option<Vec<u8>>,
}

/// The answer to a decoder whose sample cannot be used.
#[derive(Clone, Copy, Debug, PartialEq, Eq, Structural)]
pub enum FlowError {
    Error,
}

/// The frame in a sample, if the sample can be used: it must have been
/// delivered, announce a positive width and height, and have readable pixels.
pub open spec fn sample_frame(sample: Option<Sample>) -> Option<FrameModel> {
    match sample {
        Some(
            Sample {
                size: Some(AnnouncedSize { width: Some(width), height: Some(height) }),
                pixels: Some(pixels),
            },
        ) => if width > 0 && height > 0 {
            Some(FrameModel { data: pixels@, width: width as u32, height: height as u32 })
        } else {
            None
        },
        _ => None,
    }
}

/// The sample was delivered, announces a width and a height of which both are
/// positive, and has readable pixels.
pub open spec fn is_usable(sample: Option<Sample>) -> bool {
    &&& sample matches Some(s)
    &&& s.pixels is Some
    &&& s.size matches Some(size)
    &&& size.width matches Some(w) && w > 0
    &&& size.height matches Some(h) && h > 0
}

/// The slot announces a frame that is, byte for byte and in both directions as
/// large, the one in the sample.
pub open spec fn holds_sample(slot: SlotModel, sample: Sample) -> bool {
    &&& slot.ready
    &&& slot.frame matches Some(f)
    &&& f.data == sample.pixels->0@
    &&& f.width as int == sample.size->0.width->0 as int
    &&& f.height as int == sample.size->0.height->0 as int
}

/// Calls `ImageBuffer::from_raw` of the `image` crate for an RGBA image and
/// takes the bytes out again. The buffer is accepted exactly if it holds at
/// least four bytes for each pixel, and its bytes are left as they are.
#[verifier::external_body]
fn image_from_raw(width: u32, height: u32, data: Vec<u8>) -> (bytes: Option<Vec<u8>>)
    ensures
        bytes is Some <==> (FrameModel { data: data@, width, height }).is_complete(),
        bytes matches Some(b) ==> b@ == data@,
{
    match image::ImageBuffer::<image::Rgba<u8>, Vec<u8>>::from_raw(width, height, data) {
        Some(image) => Some(image.into_raw()),
        None => None,
    }
}

/// The place where the decoder leaves a frame for the painter.
pub struct FrameSlot {
    frame: Option<RgbaFrame>,
    ready: bool,
}

/// A slot as values: the frame that arrived last, and whether it arrived
/// after the last paint.
#[verifier::ext_equal]
pub struct SlotModel {
    pub frame: Option<FrameModel>,
    pub ready: bool,
}

impl SlotModel {
    /// A slot into which nothing was put yet.
    pub open spec fn empty() -> SlotModel {
        SlotModel { frame: None, ready: false }
    }

    /// What holds of every slot: a frame in it has a positive size, and no
    /// frame is announced that is not there.
    pub open spec fn wf(self) -> bool {
        &&& self.frame matches Some(f) ==> f.width > 0 && f.height > 0
        &&& self.ready ==> self.frame is Some
    }

    /// The slot after the decoder delivered a sample. A sample that cannot be
    /// used changes nothing.
    pub open spec fn received(self, sample: Option<Sample>) -> SlotModel {
        match sample_frame(sample) {
            Some(f) => SlotModel { frame: Some(f), ready: true },
            None => self,
        }
    }

    /// The slot after a paint: the frame stays, but is no news any more.
    pub open spec fn painted(self) -> SlotModel {
        SlotModel { ready: false, ..self }
    }

    /// The frame that a paint shows: the one in the slot, if it is complete.
    pub open spec fn shown(self) -> Option<FrameModel> {
        match self.frame {
            Some(f) => if f.is_complete() {
                Some(f)
            } else {
                None
            },
            None => None,
        }
    }
}

impl View for FrameSlot {
    type V = SlotModel;

    closed spec fn view(&self) -> SlotModel {
        SlotModel {
            frame: match self.frame {
                Some(f) => Some(f@),
                None => None,
            },
            ready: self.ready,
        }
    }
}

impl FrameSlot {
    #[verifier::type_invariant]
    spec fn inv(self) -> bool {
        self@.wf()
    }

    /// A slot into which nothing was put yet.
    pub fn new() -> (slot: FrameSlot)
        ensures
            slot@ == SlotModel::empty(),
    {
        FrameSlot { frame: None, ready: false }
    }

    /// Takes the sample that the decoder delivers; `None` stands for a sample
    /// that could not be pulled.
    pub fn receive(&mut self, sample: Option<Sample>) -> (result: Result<(), FlowError>)
        ensures
            result is Ok <==> sample_frame(sample) is Some,
            final(self)@ == old(self)@.received(sample),
            final(self)@.wf(),
            result is Ok <==> is_usable(sample),
            is_usable(sample) ==> holds_sample(final(self)@, sample->0),
            !is_usable(sample) ==> final(self)@ == old(self)@,
    {
        proof {
            use_type_invariant(&*self);
        }
        match sample {
            Some(
                Sample {
                    size: Some(AnnouncedSize { width: Some(width), height: Some(height) }),
                    pixels: Some(pixels),
                },
            ) => {
                if width > 0 && height > 0 {
                    self.frame = Some(
                        RgbaFrame { data: pixels, width: width as u32, height: height as u32 },
                    );
                    self.ready = true;
                    Ok(())
                } else {
                    Err(FlowError::Error)
                }
            },
            _ => Err(FlowError::Error),
        }
    }

    /// Whether a frame arrived that was not painted yet.
    pub fn is_ready(&self) -> (ready: bool)
        ensures
            ready == self@.ready,
            self@.wf(),
    {
        proof {
            use_type_invariant(self);
        }
        self.ready
    }

    /// The frame to paint now. It stays in the slot, for the next paint, but
    /// no longer counts as new. A frame with too few bytes is not painted.
    pub fn paint(&mut self) -> (shown: Option<RgbaFrame>)
        ensures
            final(self)@ == old(self)@.painted(),
            final(self)@.wf(),
            shown is Some <==> old(self)@.shown() is Some,
            shown matches Some(f) ==> old(self)@.shown() == Some(f@),
            shown matches Some(f) ==> old(self)@.frame matches Some(g) && f.data@ == g.data
                && f.width == g.width && f.height == g.height,
            final(self)@.frame == old(self)@.frame,
            !final(self)@.ready,
    {
        proof {
            use_type_invariant(&*self);
        }
        self.ready = false;
        match &self.frame {
            Some(frame) => {
                let data = frame.data.clone();
                proof {
                    assert(data@ =~= frame.data@);
                }
                match image_from_raw(frame.width, frame.height, data) {
                    Some(data) => Some(
                        RgbaFrame { data, width: frame.width, height: frame.height },
                    ),
                    None => None,
                }
            },
            None => None,
        }
    }
}

/// The image that is on the screen, so that it can be released when the next
/// one takes its place.
pub struct PaintedImage<T> {
    pub current: Option<T>,
}

impl<T> PaintedImage<T> {
    /// Nothing was painted yet.
    pub fn new() -> (painted: PaintedImage<T>)
        ensures
            painted.current is None,
    {
        PaintedImage { current: None }
    }

    /// Puts `image` in place and hands out the one before it, which is to be
    /// released.
    pub fn replace(&mut self, image: T) -> (previous: Option<T>)
        ensures
            previous == old(self).current,
            final(self).current == Some(image),
            after_paints(old(self).current, seq![Some(image)]) == (
                final(self).current,
                match previous {
                    Some(p) => seq![p],
                    None => Seq::empty(),
                },
            ),
    {
        proof {
            let paints = seq![Some(image)];
            assert(paints.drop_last() =~= Seq::<Option<T>>::empty());
            assert(after_paints(self.current, paints.drop_last()) == (
                self.current,
                Seq::<T>::empty(),
            ));
            assert(paints.last() == Some(image));
            if self.current is Some {
                assert(Seq::<T>::empty().push(self.current->0) =~= seq![self.current->0]);
            }
        }
        let previous = self.current.take();
        self.current = Some(image);
        previous
    }
}

/// What is on the screen and what was handed out to be released, in order,
/// after a number of paints that began with `current` on the screen. A paint
/// that shows nothing is `None`: it replaces nothing.
pub open spec fn after_paints<T>(current: Option<T>, paints: Seq<Option<T>>) -> (Option<T>, Seq<T>)
    decreases paints.len(),
{
    if paints.len() == 0 {
        (current, Seq::empty())
    } else {
        let (shown, released) = after_paints(current, paints.drop_last());
        match paints.last() {
            None => (shown, released),
            Some(image) => (
                Some(image),
                match shown {
                    Some(previous) => released.push(previous),
                    None => released,
                },
            ),
        }
    }
}

/// The images that a number of paints show, in order.
pub open spec fn images_of<T>(paints: Seq<Option<T>>) -> Seq<T>
    decreases paints.len(),
{
    if paints.len() == 0 {
        Seq::empty()
    } else {
        match paints.last() {
            Some(image) => images_of(paints.drop_last()).push(image),
            None => images_of(paints.drop_last()),
        }
    }
}

/// Over any number of paints each image but the last is handed out exactly
/// once, in the order in which they were painted, and the last one is on the
/// screen. So between two paints at most one image is alive.
pub proof fn replaced_images_are_released_once<T>(paints: Seq<Option<T>>)
    ensures
        images_of(paints).len() == 0 ==> after_paints(None, paints) == (None::<T>, Seq::<T>::empty()),
        images_of(paints).len() > 0 ==> after_paints(None, paints) == (
            Some(images_of(paints).last()),
            images_of(paints).drop_last(),
        ),
    decreases paints.len(),
{
    if paints.len() > 0 {
        let before = paints.drop_last();
        replaced_images_are_released_once(before);
        if let Some(image) = paints.last() {
            assert(images_of(paints).drop_last() =~= images_of(before));
            if images_of(before).len() > 0 {
                assert(images_of(before).drop_last().push(images_of(before).last()) =~= images_of(
                    before,
                ));
            } else {
                assert(images_of(before) =~= Seq::<T>::empty());
            }
        }
    }
}

/// A sample that can be used is announced, and it is what the next paint
/// shows; if it has too few bytes, that paint shows nothing.
pub proof fn paint_shows_what_arrived(slot: SlotModel, sample: Option<Sample>)
    requires
        sample_frame(sample) is Some,
    ensures
        slot.received(sample).ready,
        slot.received(sample).shown() == if sample_frame(sample)->0.is_complete() {
            sample_frame(sample)
        } else {
            None
        },
{
}

/// Of two samples that can be used the later one is shown.
pub proof fn later_sample_wins(slot: SlotModel, first: Option<Sample>, second: Option<Sample>)
    requires
        sample_frame(second) is Some,
    ensures
        slot.received(first).received(second) == slot.received(second),
{
}

/// Painting again shows the same frame again, and a paint takes the
/// announcement back.
pub proof fn paint_keeps_the_frame(slot: SlotModel)
    ensures
        slot.painted().shown() == slot.shown(),
        !slot.painted().ready,
        slot.painted().painted() == slot.painted(),
{
}

/// Every slot that can come about announces only frames it has, and each of
/// them has a positive size.
pub proof fn slots_stay_well_formed(slot: SlotModel, sample: Option<Sample>)
    requires
        slot.wf(),
    ensures
        SlotModel::empty().wf(),
        slot.received(sample).wf(),
        slot.painted().wf(),
{
}

/// A sample with a width of `w`, a height of `h` and pixels `p` that arrives in
/// a slot is there afterwards with just these: width for width, height for
/// height, byte for byte. The slot then announces it.
pub proof fn arriving_frame_keeps_its_shape(slot: SlotModel, w: i32, h: i32, p: Vec<u8>)
    requires
        w > 0,
        h > 0,
    ensures
        ({
            let sample = Sample {
                size: Some(AnnouncedSize { width: Some(w), height: Some(h) }),
                pixels: Some(p),
            };
            let after = slot.received(Some(sample));
            &&& after.ready
            &&& after.frame is Some
            &&& after.frame->0.width as int == w as int
            &&& after.frame->0.height as int == h as int
            &&& after.frame->0.data == p@
        }),
{
}

/// Whatever the sample: if it can be used, the slot holds it afterwards;
/// otherwise the slot is as it was.
pub proof fn slots_hold_usable_samples_only(slot: SlotModel, sample: Option<Sample>)
    ensures
        is_usable(sample) ==> holds_sample(slot.received(sample), sample->0),
        !is_usable(sample) ==> slot.received(sample) == slot,
        sample_frame(sample) is Some <==> is_usable(sample),
{
}

/// A paint shows the frame of the slot, unchanged, if there are four bytes for
/// each of its pixels, and nothing otherwise. The frame is still there
/// afterwards.
pub proof fn paint_shows_the_whole_frame(slot: SlotModel)
    requires
        slot.wf(),
    ensures
        slot.frame is None ==> slot.shown() is None,
        slot.frame matches Some(f) ==> {
            let needed = 4 * (f.width as int * f.height as int);
            &&& needed <= f.data.len() && f.data.len() <= usize::MAX ==> slot.shown() == Some(f)
            &&& needed > f.data.len() ==> slot.shown() is None
        },
        slot.painted().frame == slot.frame,
        !slot.painted().ready,
{
    if let Some(f) = slot.frame {
        let w = f.width as int;
        let h = f.height as int;
        assert(4 * w * h == 4 * (w * h)) by (nonlinear_arith);
        assert(4 * w <= 4 * w * h) by (nonlinear_arith)
            requires
                w > 0,
                h > 0,
        ;
    }
}

/// What arrives with enough bytes is what the next paint shows: a frame of the
/// announced width and height, with the bytes that were delivered.
pub proof fn paint_gives_back_the_sample(slot: SlotModel, w: i32, h: i32, p: Vec<u8>)
    requires
        w > 0,
        h > 0,
        4 * (w as int * h as int) <= p@.len() <= usize::MAX,
    ensures
        ({
            let sample = Sample {
                size: Some(AnnouncedSize { width: Some(w), height: Some(h) }),
                pixels: Some(p),
            };
            let shown = slot.received(Some(sample)).shown();
            &&& shown is Some
            &&& shown->0.width as int == w as int
            &&& shown->0.height as int == h as int
            &&& shown->0.data == p@
        }),
{
    let sample = Sample {
        size: Some(AnnouncedSize { width: Some(w), height: Some(h) }),
        pixels: Some(p),
    };
    arriving_frame_keeps_its_shape(slot, w, h, p);
    paint_shows_the_whole_frame(slot.received(Some(sample)));
}

/// A frame is seen as what it is.
pub proof fn frames_are_seen_as_they_are(frame: RgbaFrame)
    ensures
        frame@.data == frame.data@,
        frame@.width == frame.width,
        frame@.height == frame.height,
{
}

} // verus!
