use rand::Rng;
use vstd::prelude::*;

verus! {

/// Width of the frames the renderer synthesizes when no source is attached.
pub const FRAME_WIDTH: u32 = 1280;

/// Height of the frames the renderer synthesizes when no source is attached.
pub const FRAME_HEIGHT: u32 = 720;

/// A planar 4:2:0 frame: a luma plane of `width` x `height` bytes and two
/// chroma planes of half the width and half the height, row-major, unpadded.
#[derive(Debug, Clone)]
pub struct YuvFrame {
    pub width: u32,
    pub height: u32,
    pub y: Vec<u8>,
    pub u: Vec<u8>,
    pub v: Vec<u8>,
}

/// Number of bytes of a plane of the given size.
pub open spec fn plane_len(width: u32, height: u32) -> nat {
    width as nat * height as nat
}

/// Whether a frame of the given size can be held in memory at all.
pub open spec fn frame_fits(width: u32, height: u32) -> bool {
    plane_len(width, height) <= usize::MAX
}

impl YuvFrame {
    pub open spec fn chroma_width(&self) -> u32 {
        self.width / 2
    }

    pub open spec fn chroma_height(&self) -> u32 {
        self.height / 2
    }

    /// Each plane holds exactly the bytes its size calls for.
    pub open spec fn wf(&self) -> bool {
        &&& self.y@.len() == plane_len(self.width, self.height)
        &&& self.u@.len() == plane_len(self.chroma_width(), self.chroma_height())
        &&& self.v@.len() == plane_len(self.chroma_width(), self.chroma_height())
    }

    /// Tests `wf`, for callers that build frames from outside data.
    pub fn is_well_formed(&self) -> (r: bool)
        ensures
            r == self.wf(),
    {
        let w = self.width as u64;
        let h = self.height as u64;
        let cw = (self.width / 2) as u64;
        let ch = (self.height / 2) as u64;
        assert(w * h <= u32::MAX * u32::MAX) by (nonlinear_arith)
            requires w <= u32::MAX, h <= u32::MAX;
        assert(cw * ch <= w * h) by (nonlinear_arith)
            requires cw <= w, ch <= h;
        self.y.len() as u64 == w * h && self.u.len() as u64 == cw * ch && self.v.len() as u64 == cw
            * ch
    }

    /// A frame whose three planes hold `value` in every byte.
    pub fn filled(width: u32, height: u32, value: u8) -> (r: Self)
        requires
            frame_fits(width, height),
        ensures
            r.wf(),
            r.width == width,
            r.height == height,
            forall|i: int| 0 <= i < r.y@.len() ==> r.y@[i] == value,
            forall|i: int| 0 <= i < r.u@.len() ==> r.u@[i] == value,
            forall|i: int| 0 <= i < r.v@.len() ==> r.v@[i] == value,
    {
        let n = luma_len(width, height);
        proof {
            lemma_chroma_smaller(width, height);
        }
        let m = luma_len(width / 2, height / 2);
        YuvFrame {
            width,
            height,
            y: constant_plane(n, value),
            u: constant_plane(m, value),
            v: constant_plane(m, value),
        }
    }

    /// A frame of the given size whose bytes are drawn independently and
    /// uniformly from 0..255 (255 itself never comes).
    pub fn synthetic(width: u32, height: u32) -> (r: Self)
        requires
            frame_fits(width, height),
        ensures
            r.wf(),
            r.width == width,
            r.height == height,
            forall|i: int| 0 <= i < r.y@.len() ==> r.y@[i] < 255,
            forall|i: int| 0 <= i < r.u@.len() ==> r.u@[i] < 255,
            forall|i: int| 0 <= i < r.v@.len() ==> r.v@[i] < 255,
    {
        let n = luma_len(width, height);
        proof {
            lemma_chroma_smaller(width, height);
        }
        let m = luma_len(width / 2, height / 2);
        YuvFrame {
            width,
            height,
            y: noise_plane(n),
            u: noise_plane(m),
            v: noise_plane(m),
        }
    }
}

proof fn lemma_chroma_smaller(width: u32, height: u32)
    ensures
        plane_len(width / 2, height / 2) <= plane_len(width, height),
{
    let w = width as nat;
    let h = height as nat;
    let cw = (width / 2) as nat;
    let ch = (height / 2) as nat;
    assert(cw * ch <= w * h) by (nonlinear_arith)
        requires cw <= w, ch <= h;
}

fn luma_len(width: u32, height: u32) -> (r: usize)
    requires
        frame_fits(width, height),
    ensures
        r == plane_len(width, height),
{
    (width as usize) * (height as usize)
}

fn constant_plane(n: usize, value: u8) -> (r: Vec<u8>)
    ensures
        r@.len() == n,
        forall|i: int| 0 <= i < n ==> r@[i] == value,
{
    let mut r: Vec<u8> = Vec::with_capacity(n);
    let mut k: usize = 0;
    while k < n
        invariant
            k <= n,
            r@.len() == k,
            forall|i: int| 0 <= i < k ==> r@[i] == value,
        decreases n - k,
    {
        r.push(value);
        k = k + 1;
    }
    r
}

fn noise_plane(n: usize) -> (r: Vec<u8>)
    ensures
        r@.len() == n,
        forall|i: int| 0 <= i < n ==> r@[i] < 255,
{
    let mut r: Vec<u8> = Vec::with_capacity(n);
    let mut k: usize = 0;
    while k < n
        invariant
            k <= n,
            r@.len() == k,
            forall|i: int| 0 <= i < k ==> r@[i] < 255,
        decreases n - k,
    {
        r.push(random_below(255));
        k = k + 1;
    }
    r
}

/// Relies on rand's `thread_rng().gen_range(0, high)`: a value in `[0, high)`;
/// it panics when the range is empty, hence the `requires`.
#[verifier::external_body]
fn random_below(high: u8) -> (r: u8)
    requires
        high > 0,
    ensures
        r < high,
{
    rand::thread_rng().gen_range(0, high)
}

} // verus!
