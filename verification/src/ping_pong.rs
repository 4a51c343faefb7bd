//! A pair of textures that are written alternately: each pass reads the
//! texture written by the previous pass and writes the other one.
use vstd::prelude::*;

verus! {

/// Which of the two textures of a pair is meant.
#[derive(Clone, Copy, PartialEq, Eq, Structural, Debug)]
pub enum PingPongTextureType {
    A,
    B,
}

impl PingPongTextureType {
    /// The other texture of the pair.
    pub open spec fn other(self) -> PingPongTextureType {
        match self {
            PingPongTextureType::A => PingPongTextureType::B,
            PingPongTextureType::B => PingPongTextureType::A,
        }
    }
}

/// One render pass of a ping-pong pair: it samples `source` and renders
/// into `destination`.
#[derive(Clone, Copy)]
pub struct PingPongWrite<'a, T> {
    pub source: &'a T,
    pub destination: &'a T,
}

/// Two textures of the same size and the record of which one holds the
/// latest result.
#[derive(Clone)]
pub struct PingPongTextures<T> {
    texture_a: T,
    texture_b: T,
    read: PingPongTextureType,
}

/// What a ping-pong pair is: its two textures and the one that the next pass
/// reads.
pub struct PingPongState<T> {
    pub texture_a: T,
    pub texture_b: T,
    pub read: PingPongTextureType,
}

impl<T> PingPongState<T> {
    /// The texture that `which` names.
    pub open spec fn texture(self, which: PingPongTextureType) -> T {
        match which {
            PingPongTextureType::A => self.texture_a,
            PingPongTextureType::B => self.texture_b,
        }
    }

    /// The texture that the next pass samples: the one holding the latest
    /// result.
    pub open spec fn source(self) -> T {
        self.texture(self.read)
    }

    /// The texture that the next pass renders into.
    pub open spec fn destination(self) -> T {
        self.texture(self.read.other())
    }

    /// The pair as it stands after one more pass.
    pub open spec fn after_write(self) -> Self {
        PingPongState { read: self.read.other(), ..self }
    }
}

impl<T> View for PingPongTextures<T> {
    type V = PingPongState<T>;

    closed spec fn view(&self) -> PingPongState<T> {
        PingPongState { texture_a: self.texture_a, texture_b: self.texture_b, read: self.read }
    }
}

impl<T> PingPongTextures<T> {
    /// A pair whose first pass reads `texture_a`.
    pub fn new(texture_a: T, texture_b: T) -> (r: Self)
        ensures
            r@ == (PingPongState { texture_a, texture_b, read: PingPongTextureType::A }),
    {
        PingPongTextures { texture_a, texture_b, read: PingPongTextureType::A }
    }

    /// Which texture the next pass reads.
    pub fn read(&self) -> (r: PingPongTextureType)
        ensures
            r == self@.read,
    {
        self.read
    }

    /// The texture that holds the latest result, the one the next pass reads.
    pub fn read_current(&self) -> (r: &T)
        ensures
            *r == self@.source(),
    {
        match self.read {
            PingPongTextureType::A => &self.texture_a,
            PingPongTextureType::B => &self.texture_b,
        }
    }

    /// The first pass, which copies the camera output into the pair: it goes
    /// from texture A to texture B and leaves the pair unchanged.
    pub fn initial_write(&mut self) -> (w: PingPongWrite<'_, T>)
        ensures
            final(self)@ == old(self)@,
            *w.source == old(self)@.texture_a,
            *w.destination == old(self)@.texture_b,
    {
        PingPongWrite { source: &self.texture_a, destination: &self.texture_b }
    }

    /// The next pass: it reads the texture that holds the latest result,
    /// writes the other one, and records that the other one now holds the
    /// latest result.
    pub fn write(&mut self) -> (w: PingPongWrite<'_, T>)
        ensures
            final(self)@ == old(self)@.after_write(),
            *w.source == old(self)@.source(),
            *w.destination == old(self)@.destination(),
    {
        if self.read == PingPongTextureType::A {
            self.read = PingPongTextureType::B;
            PingPongWrite { source: &self.texture_a, destination: &self.texture_b }
        } else {
            self.read = PingPongTextureType::A;
            PingPongWrite { source: &self.texture_b, destination: &self.texture_a }
        }
    }
}

/// Two passes bring the pair back to the state it started in.
pub proof fn lemma_write_twice_restores<T>(p: PingPongState<T>)
    ensures
        p.after_write().after_write() == p,
{
}

/// Each pass samples the texture that the pass before it rendered into, and
/// that texture is also the one `read_current` gives after the earlier pass.
pub proof fn lemma_pass_reads_previous_result<T>(p: PingPongState<T>)
    ensures
        p.after_write().source() == p.destination(),
        p.after_write().destination() == p.source(),
{
}

/// A pass never samples and renders into the same texture of the pair, and
/// passes never replace the textures themselves.
pub proof fn lemma_write_keeps_textures<T>(p: PingPongState<T>)
    ensures
        p.read.other() != p.read,
        p.after_write().texture_a == p.texture_a,
        p.after_write().texture_b == p.texture_b,
{
}

/// The textures that one camera view renders its distance field through: one
/// pair for the shape and one for its inverse.
#[derive(Clone)]
pub struct SdfTextures<T> {
    pub regular: PingPongTextures<T>,
    pub invert: PingPongTextures<T>,
}

impl<T> SdfTextures<T> {
    /// Both pairs start by reading their texture A.
    pub fn new(regular_a: T, regular_b: T, invert_a: T, invert_b: T) -> (r: Self)
        ensures
            r.regular@ == (PingPongState {
                texture_a: regular_a,
                texture_b: regular_b,
                read: PingPongTextureType::A,
            }),
            r.invert@ == (PingPongState {
                texture_a: invert_a,
                texture_b: invert_b,
                read: PingPongTextureType::A,
            }),
    {
        SdfTextures {
            regular: PingPongTextures::new(regular_a, regular_b),
            invert: PingPongTextures::new(invert_a, invert_b),
        }
    }
}

} // verus!
