//! The blocks that carry a light to a shader: groups of four binary32 words,
//! so that every field starts on a 16-byte boundary, and their bytes in the
//! order in which a graphics buffer takes them.

use crate::binary32::{negation, ONE, ZERO};
use crate::light::{DirectionalLight, PointLight};
use crate::math::Vec3;
use vstd::prelude::*;

verus! {

/// The number of bytes that a point light takes in a buffer.
pub const POINT_LIGHT_BYTES: usize = 48;

/// The number of bytes that a directional light takes in a buffer.
pub const DIRECTIONAL_LIGHT_BYTES: usize = 32;

/// The four bytes of a word, least significant first.
pub open spec fn word_bytes(word: u32) -> Seq<u8> {
    seq![
        (word & 0xff) as u8,
        ((word >> 8) & 0xff) as u8,
        ((word >> 16) & 0xff) as u8,
        ((word >> 24) & 0xff) as u8,
    ]
}

/// The sixteen bytes of a group of four words, first word first.
pub open spec fn group_bytes(group: Seq<u32>) -> Seq<u8>
    recommends
        group.len() == 4,
{
    word_bytes(group[0]) + word_bytes(group[1]) + word_bytes(group[2]) + word_bytes(group[3])
}

/// A group takes sixteen bytes, whatever it holds.
pub proof fn lemma_group_bytes_len(group: Seq<u32>)
    ensures
        group_bytes(group).len() == 16,
{
}

/// The bytes of a word tell the word.
pub proof fn lemma_word_bytes_tell_the_word(a: u32, b: u32)
    requires
        word_bytes(a) == word_bytes(b),
    ensures
        a == b,
{
    assert(word_bytes(a)[0] == word_bytes(b)[0]);
    assert(word_bytes(a)[1] == word_bytes(b)[1]);
    assert(word_bytes(a)[2] == word_bytes(b)[2]);
    assert(word_bytes(a)[3] == word_bytes(b)[3]);
    assert(a == b) by (bit_vector)
        requires
            (a & 0xff) as u8 == (b & 0xff) as u8,
            ((a >> 8) & 0xff) as u8 == ((b >> 8) & 0xff) as u8,
            ((a >> 16) & 0xff) as u8 == ((b >> 16) & 0xff) as u8,
            ((a >> 24) & 0xff) as u8 == ((b >> 24) & 0xff) as u8,
    ;
}

/// The bytes of a group tell the group.
pub proof fn lemma_group_bytes_tell_the_group(a: Seq<u32>, b: Seq<u32>)
    requires
        a.len() == 4,
        b.len() == 4,
        group_bytes(a) == group_bytes(b),
    ensures
        a == b,
{
    assert forall|i: int| 0 <= i < 4 implies a[i] == b[i] by {
        assert(group_bytes(a).subrange(4 * i, 4 * i + 4) == word_bytes(a[i]));
        assert(group_bytes(b).subrange(4 * i, 4 * i + 4) == word_bytes(b[i]));
        lemma_word_bytes_tell_the_word(a[i], b[i]);
    }
    assert(a =~= b);
}

/// Appends the bytes of `word` to `buffer`.
fn push_word(buffer: &mut Vec<u8>, word: u32)
    ensures
        final(buffer)@ == old(buffer)@ + word_bytes(word),
{
    buffer.push((word & 0xff) as u8);
    buffer.push(((word >> 8) & 0xff) as u8);
    buffer.push(((word >> 16) & 0xff) as u8);
    buffer.push(((word >> 24) & 0xff) as u8);
}

/// Appends the bytes of `group` to `buffer`.
fn push_group(buffer: &mut Vec<u8>, group: &[u32; 4])
    ensures
        final(buffer)@ == old(buffer)@ + group_bytes(group@),
{
    push_word(buffer, group[0]);
    push_word(buffer, group[1]);
    push_word(buffer, group[2]);
    push_word(buffer, group[3]);
}

/// A point light as a shader reads it.
#[derive(Clone, Copy, Debug, PartialEq, Eq)]
pub struct PointLightUniform {
    /// Where the light is in the world, with `1.0` in the fourth place.
    pub pos: [u32; 4],
    /// The colour of the light scaled by its intensity.
    pub color: [u32; 4],
    /// The inverse square of the range, the radius, and two places that are
    /// kept at zero.
    pub light_params: [u32; 4],
}

impl PointLightUniform {
    /// Lays out the block for `light` at `world_position`.
    ///
    /// The two products come from the caller: `premultiplied_color` is the
    /// colour of `light` scaled by its intensity, and `inverse_square_range`
    /// is one over the square of its range, which is meant to be above zero.
    pub fn new(
        light: &PointLight,
        world_position: &Vec3,
        premultiplied_color: [u32; 4],
        inverse_square_range: u32,
    ) -> (uniform: PointLightUniform)
        ensures
            uniform.pos@ == seq![world_position.x, world_position.y, world_position.z, ONE],
            uniform.color == premultiplied_color,
            uniform.light_params@ == seq![inverse_square_range, light.radius, ZERO, ZERO],
    {
        PointLightUniform {
            pos: [world_position.x, world_position.y, world_position.z, ONE],
            color: premultiplied_color,
            light_params: [inverse_square_range, light.radius, ZERO, ZERO],
        }
    }

    /// The bytes of the block as they lie in a buffer.
    pub open spec fn layout(&self) -> Seq<u8> {
        group_bytes(self.pos@) + group_bytes(self.color@) + group_bytes(self.light_params@)
    }

    /// No field of the block straddles a 16-byte boundary: the position
    /// fills the first sixteen bytes, the colour the next, the parameters
    /// the last, and the block takes none beyond these.
    pub proof fn lemma_fields_are_aligned(&self)
        ensures
            self.layout().len() == POINT_LIGHT_BYTES,
            self.layout().subrange(0, 16) == group_bytes(self.pos@),
            self.layout().subrange(16, 32) == group_bytes(self.color@),
            self.layout().subrange(32, 48) == group_bytes(self.light_params@),
    {
        lemma_group_bytes_len(self.pos@);
        lemma_group_bytes_len(self.color@);
        lemma_group_bytes_len(self.light_params@);
    }

    /// Every byte of the layout counts: two blocks with the same bytes hold
    /// the same words.
    pub proof fn lemma_layout_tells_the_block(&self, other: &PointLightUniform)
        requires
            self.layout() == other.layout(),
        ensures
            self.pos@ == other.pos@,
            self.color@ == other.color@,
            self.light_params@ == other.light_params@,
    {
        self.lemma_fields_are_aligned();
        other.lemma_fields_are_aligned();
        lemma_group_bytes_tell_the_group(self.pos@, other.pos@);
        lemma_group_bytes_tell_the_group(self.color@, other.color@);
        lemma_group_bytes_tell_the_group(self.light_params@, other.light_params@);
    }

    /// The bytes of the block: the position, then the colour, then the
    /// parameters, each word least significant byte first.
    pub fn as_bytes(&self) -> (bytes: Vec<u8>)
        ensures
            bytes@ == self.layout(),
            bytes@.len() == POINT_LIGHT_BYTES,
    {
        let mut bytes: Vec<u8> = Vec::with_capacity(POINT_LIGHT_BYTES);
        push_group(&mut bytes, &self.pos);
        push_group(&mut bytes, &self.color);
        push_group(&mut bytes, &self.light_params);
        bytes
    }
}

/// A directional light as a shader reads it.
#[derive(Clone, Copy, Debug, PartialEq, Eq)]
pub struct DirectionalLightUniform {
    /// The direction towards the light, with `0.0` in the fourth place.
    pub dir: [u32; 4],
    /// The colour of the light scaled by its illuminance and the exposure.
    pub color: [u32; 4],
}

impl DirectionalLightUniform {
    /// Lays out the block for `light`.
    ///
    /// The direction is turned round, so that a shader can multiply it with
    /// a surface normal as it is. The product comes from the caller:
    /// `premultiplied_color` is the colour of `light` scaled by its
    /// illuminance and by the exposure of the camera.
    pub fn new(light: &DirectionalLight, premultiplied_color: [u32; 4]) -> (uniform:
        DirectionalLightUniform)
        ensures
            uniform.dir@ == seq![
                negation(light@.direction.x),
                negation(light@.direction.y),
                negation(light@.direction.z),
                ZERO,
            ],
            uniform.color == premultiplied_color,
    {
        let towards = light.get_direction().negated();
        DirectionalLightUniform {
            dir: [towards.x, towards.y, towards.z, ZERO],
            color: premultiplied_color,
        }
    }

    /// The bytes of the block as they lie in a buffer.
    pub open spec fn layout(&self) -> Seq<u8> {
        group_bytes(self.dir@) + group_bytes(self.color@)
    }

    /// No field of the block straddles a 16-byte boundary: the direction
    /// fills the first sixteen bytes, the colour the last, and the block
    /// takes none beyond these.
    pub proof fn lemma_fields_are_aligned(&self)
        ensures
            self.layout().len() == DIRECTIONAL_LIGHT_BYTES,
            self.layout().subrange(0, 16) == group_bytes(self.dir@),
            self.layout().subrange(16, 32) == group_bytes(self.color@),
    {
        lemma_group_bytes_len(self.dir@);
        lemma_group_bytes_len(self.color@);
    }

    /// Every byte of the layout counts: two blocks with the same bytes hold
    /// the same words.
    pub proof fn lemma_layout_tells_the_block(&self, other: &DirectionalLightUniform)
        requires
            self.layout() == other.layout(),
        ensures
            self.dir@ == other.dir@,
            self.color@ == other.color@,
    {
        self.lemma_fields_are_aligned();
        other.lemma_fields_are_aligned();
        lemma_group_bytes_tell_the_group(self.dir@, other.dir@);
        lemma_group_bytes_tell_the_group(self.color@, other.color@);
    }

    /// The bytes of the block: the direction, then the colour, each word
    /// least significant byte first.
    pub fn as_bytes(&self) -> (bytes: Vec<u8>)
        ensures
            bytes@ == self.layout(),
            bytes@.len() == DIRECTIONAL_LIGHT_BYTES,
    {
        let mut bytes: Vec<u8> = Vec::with_capacity(DIRECTIONAL_LIGHT_BYTES);
        push_group(&mut bytes, &self.dir);
        push_group(&mut bytes, &self.color);
        bytes
    }
}

} // verus!
