//! The noise source: a texture of two-channel random bytes, and the rule by
//! which a particle picks its random bytes from it on each pass.

use vstd::prelude::*;

verus! {

/// Texels along each side of the noise texture used by the simulation.
pub const NOISE_SIDE: u32 = 512;

/// The random bytes that one respawn consumes.
#[derive(Clone, Copy, PartialEq, Eq, Structural, Debug)]
pub struct RespawnDraw {
    pub life: u8,
    pub angle: u8,
    pub speed: u8,
}

/// A `width` by `height` texture of texels of two bytes each, stored row by
/// row, the two channels of a texel side by side.
pub struct NoiseSource {
    width: u32,
    height: u32,
    data: Vec<u8>,
}

/// The texel that the particle at `index` reads on the pass that starts from
/// generation `generation`: consecutive particles read consecutive texels, and
/// each pass shifts the window by one.
pub open spec fn texel_for(count: nat, index: int, generation: int) -> int {
    (index + generation) % (count as int)
}

impl NoiseSource {
    pub closed spec fn spec_width(&self) -> u32 {
        self.width
    }

    pub closed spec fn spec_height(&self) -> u32 {
        self.height
    }

    pub open spec fn texel_count(&self) -> nat {
        (self.spec_width() * self.spec_height()) as nat
    }

    pub closed spec fn bytes(&self) -> Seq<u8> {
        self.data@
    }

    pub open spec fn wf(&self) -> bool {
        &&& self.spec_width() > 0
        &&& self.spec_height() > 0
        &&& self.bytes().len() == 2 * self.texel_count()
    }

    /// The draw that the particle at `index` takes on the pass that starts from
    /// generation `generation`: angle and speed from the two channels of its
    /// texel, life from the first channel of the texel after it.
    pub open spec fn spec_draw(&self, index: int, generation: int) -> RespawnDraw {
        let n = self.texel_count();
        let t = texel_for(n, index, generation);
        let u = (t + 1) % (n as int);
        RespawnDraw {
            life: self.bytes()[2 * u],
            angle: self.bytes()[2 * t],
            speed: self.bytes()[2 * t + 1],
        }
    }

    /// A noise source over `data`, or `None` unless both sides are positive and
    /// `data` holds exactly two bytes per texel.
    pub fn new(width: u32, height: u32, data: Vec<u8>) -> (r: Option<NoiseSource>)
        ensures
            r is Some <==> (width > 0 && height > 0 && data@.len() == 2 * (width * height)),
            r matches Some(s) ==> (s.wf() && s.spec_width() == width && s.spec_height() == height
                && s.bytes() == data@),
    {
        proof {
            assert(width as int * height as int <= 0xffff_ffff * 0xffff_ffff) by (nonlinear_arith)
                requires
                    width as int <= 0xffff_ffff,
                    height as int <= 0xffff_ffff,
            ;
        }
        let needed: u128 = 2 * (width as u128 * height as u128);
        if width > 0 && height > 0 && data.len() as u128 == needed {
            Some(NoiseSource { width, height, data })
        } else {
            None
        }
    }

    pub fn width(&self) -> (r: u32)
        ensures
            r == self.spec_width(),
    {
        self.width
    }

    pub fn height(&self) -> (r: u32)
        ensures
            r == self.spec_height(),
    {
        self.height
    }

    /// The texture's bytes, row by row, two channels per texel.
    pub fn data(&self) -> (r: &Vec<u8>)
        ensures
            r@ == self.bytes(),
    {
        &self.data
    }

    /// The index of the texel that the particle at `index` reads on the pass
    /// that starts from generation `generation`.
    pub fn texel_index(&self, index: usize, generation: u64) -> (r: usize)
        requires
            self.wf(),
        ensures
            r == texel_for(self.texel_count(), index as int, generation as int),
            r < self.texel_count(),
    {
        let count: usize = self.data.len() / 2;
        proof {
            self.lemma_has_texels();
        }
        let c: u128 = count as u128;
        let a: u128 = index as u128 % c;
        let b: u128 = generation as u128 % c;
        proof {
            vstd::arithmetic::div_mod::lemma_add_mod_noop(index as int, generation as int, c as int);
        }
        ((a + b) % c) as usize
    }

    proof fn lemma_has_texels(&self)
        requires
            self.wf(),
        ensures
            self.texel_count() > 0,
    {
        let (w, h) = (self.spec_width() as int, self.spec_height() as int);
        assert(w * h > 0) by (nonlinear_arith)
            requires w > 0, h > 0;
    }

    /// The random bytes that the particle at `index` consumes if it respawns on
    /// the pass that starts from generation `generation`.
    pub fn draw(&self, index: usize, generation: u64) -> (r: RespawnDraw)
        requires
            self.wf(),
        ensures
            r == self.spec_draw(index as int, generation as int),
    {
        let count: usize = self.data.len() / 2;
        let t = self.texel_index(index, generation);
        let u: usize = (t + 1) % count;
        RespawnDraw { life: self.data[2 * u], angle: self.data[2 * t], speed: self.data[2 * t + 1] }
    }
}

} // verus!
