//! The bookkeeping shared by every pass's offscreen render targets:
//! their pixel formats and filters, the half-float fallback rule, and the
//! ping-pong buffer pairs the rain simulation steps through.

use vstd::prelude::*;

verus! {

/// Internal pixel format for an offscreen render target. The rain
/// "compute" buffers need `Rgba16F` (real fractional values, not just
/// 0..255) to hold brightness/age/decay state; `Rgba8` is the fallback
/// where the platform can't render to a half-float target.
#[derive(Clone, Copy, PartialEq, Eq, Debug, Structural)]
pub enum TargetFormat {
    Rgba16F,
    Rgba8,
}

/// Texture filtering for a render target. The compute buffers need
/// `Nearest` (their texels are exact indices/booleans that must not be
/// interpolated); the bloom pyramid and the screen-resolution targets need
/// `Linear` so up/downsampling between pyramid levels looks smooth.
#[derive(Clone, Copy, PartialEq, Eq, Debug, Structural)]
pub enum TargetFilter {
    Nearest,
    Linear,
}

/// The format to retry with when creating a render target of `format`
/// fails: a half-float target falls back to `Rgba8` (rendering to a
/// half-float attachment is an extension on WebGL2, not guaranteed);
/// an `Rgba8` failure is final.
pub open spec fn spec_fallback_format(format: TargetFormat) -> Option<TargetFormat> {
    match format {
        TargetFormat::Rgba16F => Some(TargetFormat::Rgba8),
        TargetFormat::Rgba8 => None,
    }
}

pub fn fallback_format(format: TargetFormat) -> (r: Option<TargetFormat>)
    ensures
        r == spec_fallback_format(format),
{
    match format {
        TargetFormat::Rgba16F => Some(TargetFormat::Rgba8),
        TargetFormat::Rgba8 => None,
    }
}

/// A ping-ponged pair of buffers for a value that's computed each frame
/// from its own previous frame's output. `write()` is where this frame's
/// pass draws into (and, before the swap, what later passes of the same
/// frame read); `read()` is last frame's output. Call `swap` once per
/// frame after drawing into `write()`.
pub struct PingPong<T> {
    a: T,
    b: T,
    write_is_a: bool,
}

impl<T> PingPong<T> {
    /// The first buffer of the pair.
    pub closed spec fn first(&self) -> T {
        self.a
    }

    /// The second buffer of the pair.
    pub closed spec fn second(&self) -> T {
        self.b
    }

    /// Whether the first buffer is the one currently written to.
    pub closed spec fn writes_to_a(&self) -> bool {
        self.write_is_a
    }

    /// The buffer currently written to.
    pub open spec fn spec_write(&self) -> T {
        if self.writes_to_a() { self.first() } else { self.second() }
    }

    /// The buffer currently read from.
    pub open spec fn spec_read(&self) -> T {
        if self.writes_to_a() { self.second() } else { self.first() }
    }

    /// A pair that first writes into `a` and reads from `b`.
    pub fn new(a: T, b: T) -> (r: Self)
        ensures
            r.first() == a,
            r.second() == b,
            r.writes_to_a(),
    {
        PingPong { a, b, write_is_a: true }
    }

    /// Both buffers, in the order they were given to `new`.
    pub fn buffers(&self) -> (r: (&T, &T))
        ensures
            *r.0 == self.first(),
            *r.1 == self.second(),
    {
        (&self.a, &self.b)
    }

    /// Mutable access to both buffers (e.g. to resize them), in the order
    /// they were given to `new`; their roles are unchanged.
    pub fn buffers_mut(&mut self) -> (r: (&mut T, &mut T))
        ensures
            *r.0 == old(self).first(),
            *r.1 == old(self).second(),
            final(self).first() == *final(r.0),
            final(self).second() == *final(r.1),
            final(self).writes_to_a() == old(self).writes_to_a(),
    {
        (&mut self.a, &mut self.b)
    }

    pub fn write(&self) -> (r: &T)
        ensures
            *r == self.spec_write(),
    {
        if self.write_is_a {
            &self.a
        } else {
            &self.b
        }
    }

    pub fn read(&self) -> (r: &T)
        ensures
            *r == self.spec_read(),
    {
        if self.write_is_a {
            &self.b
        } else {
            &self.a
        }
    }

    /// Exchanges the roles of the two buffers.
    pub fn swap(&mut self)
        ensures
            final(self).first() == old(self).first(),
            final(self).second() == old(self).second(),
            final(self).writes_to_a() == !old(self).writes_to_a(),
    {
        self.write_is_a = !self.write_is_a;
    }
}

/// After a swap, the buffer just written is the one read, and the buffer
/// read before is the one written.
pub proof fn lemma_swap_exchanges_roles<T>(before: PingPong<T>, after: PingPong<T>)
    requires
        after.first() == before.first(),
        after.second() == before.second(),
        after.writes_to_a() == !before.writes_to_a(),
    ensures
        after.spec_read() == before.spec_write(),
        after.spec_write() == before.spec_read(),
{
}

/// Swapping twice restores both roles.
pub proof fn lemma_swap_twice_restores<T>(
    before: PingPong<T>,
    middle: PingPong<T>,
    after: PingPong<T>,
)
    requires
        middle.first() == before.first(),
        middle.second() == before.second(),
        middle.writes_to_a() == !before.writes_to_a(),
        after.first() == middle.first(),
        after.second() == middle.second(),
        after.writes_to_a() == !middle.writes_to_a(),
    ensures
        after.spec_write() == before.spec_write(),
        after.spec_read() == before.spec_read(),
{
}


/// A half-float target falls back to `Rgba8`, and the fallback format has
/// no fallback of its own: a target creation is retried at most once.
pub proof fn lemma_fallback_retries_once(format: TargetFormat)
    ensures
        format == TargetFormat::Rgba16F ==> spec_fallback_format(format) == Some(
            TargetFormat::Rgba8,
        ),
        format == TargetFormat::Rgba8 ==> spec_fallback_format(format) is None,
        spec_fallback_format(format) matches Some(next) ==> spec_fallback_format(next) is None,
{
}

} // verus!
