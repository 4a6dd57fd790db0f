//! The frame clock and submission pipeline.
//!
//! A `Renderer` owns the fixed raster configuration and the frame counter.
//! Each tick the caller asks for a `Frame` token, draws into its own pixel
//! buffer, and submits the token together with the buffer; the renderer
//! copies the buffer, records it (in ghost state) as queued for encoding,
//! and advances the clock.  Encoding itself -- the subprocess, its input
//! stream and the writer thread -- happens outside the library: the caller
//! sends each returned copy onward in submission order and reports the
//! encoder's exit status to `finish`.

use vstd::prelude::*;

use crate::frame::Frame;
use crate::rat::Rat;
use crate::rat::rat_le;
use crate::rat::rat_lt;
use crate::rat::rat_one;

verus! {

/// The top-level orchestrator of one render.
pub struct Renderer {
    /// Raster width in pixels, fixed at construction.
    pub frame_width: u32,
    /// Raster height in pixels, fixed at construction.
    pub frame_height: u32,
    /// Length of the video in whole seconds, fixed at construction.
    pub duration_secs: u32,
    /// Frames per second, fixed at construction.
    pub fps: u32,
    /// `duration_secs * fps`, the exact number of frames of the render.
    pub total_frame_count: u64,
    /// Number of frames submitted so far.
    pub frame_counter: u64,
    /// A frame token is outstanding: set by `get_frame`, cleared by
    /// `submit`.  While it is set no further token can be issued, so at
    /// most one frame is live at a time.
    pub frame_live: bool,
    /// Set by `finish`: no further frames may be submitted.
    pub closed: bool,
    /// The pixel buffers handed to the encoder, in submission order.
    pub queued: Ghost<Seq<Seq<u8>>>,
}

proof fn lemma_u32_mul_fits(a: u64, b: u64)
    by (nonlinear_arith)
    requires
        a <= u32::MAX,
        b <= u32::MAX,
    ensures
        a * b <= u64::MAX,
        a >= 1 && b >= 1 ==> a * b >= 1,
{
}

/// Copies a byte buffer, so the caller can hand the copy onward while the
/// original keeps being drawn into.
pub(crate) fn copy_bytes(src: &Vec<u8>) -> (r: Vec<u8>)
    ensures
        r@ == src@,
{
    let mut out: Vec<u8> = Vec::new();
    let mut i: usize = 0;
    while i < src.len()
        invariant
            i <= src@.len(),
            out@ == src@.subrange(0, i as int),
        decreases src@.len() - i,
    {
        out.push(src[i]);
        proof {
            assert(out@ =~= src@.subrange(0, i + 1));
        }
        i = i + 1;
    }
    proof {
        assert(out@ =~= src@);
    }
    out
}

impl Renderer {
    /// Well-formed: the frame total is exactly `duration_secs * fps`, the
    /// counter never passes it, and one correctly sized buffer is queued
    /// per submitted frame.
    pub open spec fn wf(self) -> bool {
        &&& self.total_frame_count == self.duration_secs * self.fps
        &&& self.total_frame_count >= 1
        &&& self.frame_counter <= self.total_frame_count
        &&& (self.frame_live ==> self.frame_counter < self.total_frame_count)
        &&& self.queued@.len() == self.frame_counter
        &&& forall|i: int|
            0 <= i < self.queued@.len() ==> (#[trigger] self.queued@[i]).len()
                == self.frame_bytes()
    }

    /// The size in bytes of one frame: four bytes per pixel.
    pub open spec fn frame_bytes(self) -> int {
        self.frame_width * self.frame_height * 4
    }

    /// The normalized global progress `frame_counter / total_frame_count`.
    pub open spec fn t_spec(self) -> Rat {
        Rat { num: self.frame_counter, den: self.total_frame_count }
    }

    /// Configures a render: `duration_secs * fps` frames of
    /// `width * height` pixels.  The caller spawns the encoder process for
    /// this configuration and drains the submitted copies to it.
    pub fn new(duration_secs: u32, fps: u32, width: u32, height: u32) -> (r: Renderer)
        requires
            duration_secs >= 1,
            fps >= 1,
        ensures
            r.wf(),
            r.duration_secs == duration_secs,
            r.fps == fps,
            r.frame_width == width,
            r.frame_height == height,
            r.total_frame_count == duration_secs * fps,
            r.frame_counter == 0,
            !r.frame_live,
            !r.closed,
            r.queued@ == Seq::<Seq<u8>>::empty(),
    {
        proof {
            lemma_u32_mul_fits(duration_secs as u64, fps as u64);
        }
        let total: u64 = (duration_secs as u64) * (fps as u64);
        Renderer {
            frame_width: width,
            frame_height: height,
            duration_secs,
            fps,
            total_frame_count: total,
            frame_counter: 0,
            frame_live: false,
            closed: false,
            queued: Ghost(Seq::empty()),
        }
    }

    /// The raster dimensions `(width, height)`.
    pub fn get_frame_size(&self) -> (r: (u32, u32))
        ensures
            r == (self.frame_width, self.frame_height),
    {
        (self.frame_width, self.frame_height)
    }

    /// Issues the frame token for the current tick while frames remain;
    /// returns nothing once the full duration has been produced, which is
    /// the pipeline's sole termination signal.
    ///
    /// No token may be outstanding: a second frame cannot be requested
    /// while one is live, so at most one frame is in flight at a time,
    /// and only `submit` releases it.
    pub fn get_frame(&mut self) -> (r: Option<Frame>)
        requires
            old(self).wf(),
            !old(self).frame_live,
        ensures
            final(self).wf(),
            r.is_some() <==> old(self).frame_counter < old(self).total_frame_count,
            r.is_some() ==> r.unwrap().idx() == old(self).frame_counter
                && final(self).frame_live,
            r.is_none() ==> *final(self) == *old(self),
            final(self).frame_counter == old(self).frame_counter,
            final(self).queued@ == old(self).queued@,
            final(self).frame_width == old(self).frame_width,
            final(self).frame_height == old(self).frame_height,
            final(self).duration_secs == old(self).duration_secs,
            final(self).fps == old(self).fps,
            final(self).total_frame_count == old(self).total_frame_count,
            final(self).closed == old(self).closed,
    {
        if self.frame_counter < self.total_frame_count {
            self.frame_live = true;
            Some(Frame::issue(self.frame_counter))
        } else {
            None
        }
    }

    /// Consumes the current frame token together with the caller's pixel
    /// buffer: the buffer is copied, the copy is recorded as queued for the
    /// encoder, and the clock advances by exactly one tick.  The returned
    /// copy is what the caller sends to the encoder; the original buffer
    /// may be drawn into again immediately.
    pub fn submit(&mut self, frame: Frame, data: &Vec<u8>) -> (copy: Vec<u8>)
        requires
            old(self).wf(),
            !old(self).closed,
            old(self).frame_live,
            frame.idx() == old(self).frame_counter,
            old(self).frame_counter < old(self).total_frame_count,
            data@.len() == old(self).frame_bytes(),
        ensures
            final(self).wf(),
            final(self).frame_counter == old(self).frame_counter + 1,
            final(self).queued@ == old(self).queued@.push(data@),
            copy@ == data@,
            !final(self).frame_live,
            final(self).frame_width == old(self).frame_width,
            final(self).frame_height == old(self).frame_height,
            final(self).duration_secs == old(self).duration_secs,
            final(self).fps == old(self).fps,
            final(self).total_frame_count == old(self).total_frame_count,
            !final(self).closed,
    {
        // the token is consumed here; a submitted frame cannot be reused
        let _ = frame.index();
        let copy = copy_bytes(data);
        self.frame_counter = self.frame_counter + 1;
        self.frame_live = false;
        self.queued = Ghost(self.queued@.push(data@));
        copy
    }

    /// Marks the render complete once every frame has been submitted.  The
    /// caller closes the encoder's input, joins its writer, waits for the
    /// encoder process and reports its exit status here; the render
    /// succeeded exactly when the encoder exited successfully.
    pub fn finish(&mut self, encoder_exit_ok: bool) -> (r: bool)
        requires
            old(self).wf(),
            !old(self).closed,
            old(self).frame_counter == old(self).total_frame_count,
        ensures
            final(self).wf(),
            final(self).closed,
            r == encoder_exit_ok,
            !final(self).frame_live,
            final(self).queued@ == old(self).queued@,
            final(self).frame_counter == old(self).frame_counter,
            final(self).total_frame_count == old(self).total_frame_count,
    {
        self.closed = true;
        encoder_exit_ok
    }

    /// The normalized global progress, `frame_counter / total_frame_count`,
    /// as an exact rational in `[0, 1]`.
    pub fn t(&self) -> (r: Rat)
        requires
            self.wf(),
        ensures
            r == self.t_spec(),
            r.wf(),
    {
        Rat { num: self.frame_counter, den: self.total_frame_count }
    }

    /// Converts an absolute duration in seconds to the normalized time it
    /// spans: `seconds * fps / total_frame_count`.  The duration must fit
    /// inside the render.
    pub fn get_duration_parameter(&self, seconds: Rat) -> (r: Rat)
        requires
            self.wf(),
            seconds.wf(),
            rat_le(seconds, (Rat { num: self.duration_secs as u64, den: 1 })),
            seconds.num * self.fps <= u64::MAX,
            seconds.den * self.total_frame_count <= u64::MAX,
        ensures
            r.wf(),
            r.num == seconds.num * self.fps,
            r.den == seconds.den * self.total_frame_count,
            rat_le(r, rat_one()),
    {
        let scaled = seconds.checked_mul(Rat::new(self.fps as u64, 1)).unwrap();
        let r = scaled.checked_div(Rat::new(self.total_frame_count, 1)).unwrap();
        proof {
            assert(seconds.num * self.fps <= seconds.den * self.total_frame_count)
                by (nonlinear_arith)
                requires
                    seconds.num <= self.duration_secs * seconds.den,
                    self.total_frame_count == self.duration_secs * self.fps,
            ;
        }
        r
    }

    /// The exact number of frames of the render, `duration_secs * fps`.
    pub fn total_frame_count(&self) -> (r: u64)
        ensures
            r == self.total_frame_count,
    {
        self.total_frame_count
    }

    /// The number of frames submitted so far.
    pub fn frame_count(&self) -> (r: u64)
        ensures
            r == self.frame_counter,
    {
        self.frame_counter
    }
}

/// Law: the normalized clock is strictly increasing -- of two states of one
/// render, the one with more submitted frames has the strictly later
/// normalized time.  Successive `t()` samples therefore form the strictly
/// increasing sequence `0, 1/N, 2/N, ...` for `N = total_frame_count`.
pub proof fn lemma_t_strictly_increasing(a: Renderer, b: Renderer)
    requires
        a.wf(),
        b.wf(),
        a.total_frame_count == b.total_frame_count,
        a.frame_counter < b.frame_counter,
    ensures
        rat_lt(a.t_spec(), b.t_spec()),
{
    assert(a.frame_counter * b.total_frame_count < b.frame_counter * a.total_frame_count)
        by (nonlinear_arith)
        requires
            a.frame_counter < b.frame_counter,
            a.total_frame_count == b.total_frame_count,
            b.total_frame_count >= 1,
    ;
}

/// Law: the duration parameter round-trips.  If `p` is the normalized time
/// of `seconds` (that is, `p == seconds * fps / total_frame_count`), then
/// scaling back, `p * total_frame_count / fps == seconds` exactly; the
/// equation below is that identity in cross-multiplied form.
pub proof fn lemma_duration_parameter_round_trip(r: Renderer, seconds: Rat, p: Rat)
    requires
        r.wf(),
        seconds.wf(),
        p.num == seconds.num * r.fps,
        p.den == seconds.den * r.total_frame_count,
    ensures
        p.num * r.total_frame_count * seconds.den == seconds.num * (p.den * r.fps),
{
    assert((seconds.num * r.fps) * r.total_frame_count * seconds.den == seconds.num * ((
    seconds.den * r.total_frame_count) * r.fps)) by (nonlinear_arith);
}

} // verus!
