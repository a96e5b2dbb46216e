//! Byte layouts of the uniform buffers read by the shaders. Values arrive
//! already encoded (four bytes per float, a vector padded to sixteen bytes);
//! these functions place them at the offsets the shaders expect.

use vstd::prelude::*;

verus! {

pub const F32_SIZE: usize = 4;

pub const VEC3_SIZE: usize = 3 * F32_SIZE;

/// A vector in a uniform buffer is padded to sixteen bytes.
pub const VEC3_UNIFORM_SIZE: usize = 4 * F32_SIZE;

pub const MAT4_SIZE: usize = 16 * F32_SIZE;

pub const MAT3_SIZE: usize = 9 * F32_SIZE;

pub const VERTEX_SIZE: usize = 14 * F32_SIZE;

/// A transform matrix, a normal matrix, a color and a shininess.
pub const INSTANCE_SIZE: usize = MAT4_SIZE + MAT3_SIZE + VEC3_SIZE + F32_SIZE;

/// The combined projection-view matrix, then the camera position.
pub const CAMERA_SIZE: usize = MAT4_SIZE + VEC3_UNIFORM_SIZE;

/// The fixed part of the lighting buffer: ambient color, ambient intensity,
/// the light count and padding to a multiple of sixteen bytes.
pub const LIGHTING_SIZE_FIXED: usize = VEC3_UNIFORM_SIZE + F32_SIZE + 12;

/// Position, diffuse and specular colors, two intensities and padding.
pub const POINT_LIGHT_SIZE: usize = 3 * VEC3_UNIFORM_SIZE + 2 * F32_SIZE + 8;

/// `n` zero bytes.
pub open spec fn zeros(n: nat) -> Seq<u8> {
    Seq::new(n, |i: int| 0u8)
}

/// The little-endian bytes of `v`.
pub open spec fn le_bytes(v: u32) -> Seq<u8> {
    seq![
        (v % 256) as u8,
        ((v / 256) % 256) as u8,
        ((v / 65536) % 256) as u8,
        ((v / 16777216) % 256) as u8,
    ]
}

/// The concatenation of encoded point lights, in order.
pub open spec fn concat_lights(lights: Seq<[u8; POINT_LIGHT_SIZE]>) -> Seq<u8>
    decreases lights.len(),
{
    if lights.len() == 0 {
        Seq::empty()
    } else {
        concat_lights(lights.drop_last()) + lights.last()@
    }
}

/// The light count as the shader reads it: a 32-bit signed integer, so a
/// count beyond its range wraps.
pub open spec fn light_count_bytes(n: nat) -> Seq<u8> {
    le_bytes((n % 0x1_0000_0000) as u32)
}

/// Copies `src` into `buf` at `offset`.
fn write_at<const N: usize, const M: usize>(buf: &mut [u8; N], offset: usize, src: &[u8; M])
    requires
        offset + M <= N,
    ensures
        final(buf)@ == old(buf)@.subrange(0, offset as int) + src@ + old(buf)@.subrange(
            offset + M,
            N as int,
        ),
{
    let ghost start = buf@;
    let mut i: usize = 0;
    while i < M
        invariant
            offset + M <= N,
            i <= M,
            buf@.len() == N,
            forall|j: int| 0 <= j < offset ==> buf@[j] == start[j],
            forall|j: int| 0 <= j < i ==> buf@[offset + j] == src@[j],
            forall|j: int| offset + M <= j < N ==> buf@[j] == start[j],
        decreases M - i,
    {
        buf[offset + i] = src[i];
        i = i + 1;
    }
    assert(buf@ =~= start.subrange(0, offset as int) + src@ + start.subrange(
        offset + M,
        N as int,
    ));
}

/// Packs the camera uniform: the projection-view matrix (sixteen floats,
/// column-major) followed by the padded camera position.
pub fn camera_uniform_bytes(
    proj_view: &[u8; MAT4_SIZE],
    position: &[u8; VEC3_UNIFORM_SIZE],
) -> (r: [u8; CAMERA_SIZE])
    ensures
        r@ == proj_view@ + position@,
        r@.subrange(0, MAT4_SIZE as int) == proj_view@,
        r@.subrange(MAT4_SIZE as int, CAMERA_SIZE as int) == position@,
{
    let mut result = [0u8; CAMERA_SIZE];
    write_at(&mut result, 0, proj_view);
    write_at(&mut result, MAT4_SIZE, position);
    assert(result@ =~= proj_view@ + position@);
    assert(result@.subrange(0, MAT4_SIZE as int) =~= proj_view@);
    assert(result@.subrange(MAT4_SIZE as int, CAMERA_SIZE as int) =~= position@);
    result
}

/// Packs one point light: position, diffuse color, specular color, diffuse
/// intensity, specular intensity, then eight bytes of padding.
pub fn point_light_bytes(
    position: &[u8; VEC3_UNIFORM_SIZE],
    diffuse_color: &[u8; VEC3_UNIFORM_SIZE],
    specular_color: &[u8; VEC3_UNIFORM_SIZE],
    diffuse_intensity: &[u8; F32_SIZE],
    specular_intensity: &[u8; F32_SIZE],
) -> (r: [u8; POINT_LIGHT_SIZE])
    ensures
        r@ == position@ + diffuse_color@ + specular_color@ + diffuse_intensity@
            + specular_intensity@ + zeros(8),
{
    let mut result = [0u8; POINT_LIGHT_SIZE];
    let ghost blank = result@;
    write_at(&mut result, 0, position);
    write_at(&mut result, VEC3_UNIFORM_SIZE, diffuse_color);
    write_at(&mut result, 2 * VEC3_UNIFORM_SIZE, specular_color);
    write_at(&mut result, 3 * VEC3_UNIFORM_SIZE, diffuse_intensity);
    write_at(&mut result, 3 * VEC3_UNIFORM_SIZE + F32_SIZE, specular_intensity);
    assert(result@ =~= position@ + diffuse_color@ + specular_color@ + diffuse_intensity@
        + specular_intensity@ + zeros(8));
    result
}

fn push_all<const M: usize>(out: &mut Vec<u8>, src: &[u8; M])
    ensures
        final(out)@ == old(out)@ + src@,
{
    let ghost start = out@;
    let mut i: usize = 0;
    while i < M
        invariant
            i <= M,
            out@ == start + src@.subrange(0, i as int),
        decreases M - i,
    {
        out.push(src[i]);
        i = i + 1;
        assert(src@.subrange(0, i as int) =~= src@.subrange(0, i - 1) + seq![src@[i - 1]]);
    }
    assert(src@.subrange(0, M as int) =~= src@);
}

/// Packs the lighting buffer: ambient color, ambient intensity, the number of
/// point lights as a little-endian 32-bit integer, eight bytes of padding,
/// then each point light in order.
pub fn lighting_bytes(
    ambient_color: &[u8; VEC3_UNIFORM_SIZE],
    ambient_intensity: &[u8; F32_SIZE],
    point_lights: &Vec<[u8; POINT_LIGHT_SIZE]>,
) -> (r: Vec<u8>)
    ensures
        r@ == ambient_color@ + ambient_intensity@ + light_count_bytes(point_lights@.len())
            + zeros(8) + concat_lights(point_lights@),
        r@.len() == LIGHTING_SIZE_FIXED + POINT_LIGHT_SIZE * point_lights@.len(),
{
    let mut result: Vec<u8> = Vec::new();
    push_all(&mut result, ambient_color);
    push_all(&mut result, ambient_intensity);
    let n: u64 = point_lights.len() as u64;
    let c: u32 = (n % 0x1_0000_0000) as u32;
    let count: [u8; 4] = [
        (c % 256) as u8,
        ((c / 256) % 256) as u8,
        ((c / 65536) % 256) as u8,
        ((c / 16777216) % 256) as u8,
    ];
    push_all(&mut result, &count);
    push_all(&mut result, &[0u8; 8]);
    let ghost fixed = result@;
    assert(fixed =~= ambient_color@ + ambient_intensity@ + light_count_bytes(point_lights@.len())
        + zeros(8));
    let mut i: usize = 0;
    while i < point_lights.len()
        invariant
            i <= point_lights@.len(),
            result@ == fixed + concat_lights(point_lights@.subrange(0, i as int)),
        decreases point_lights@.len() - i,
    {
        push_all(&mut result, &point_lights[i]);
        i = i + 1;
        assert(point_lights@.subrange(0, i as int).drop_last() =~= point_lights@.subrange(
            0,
            i - 1,
        ));
    }
    assert(point_lights@.subrange(0, i as int) =~= point_lights@);
    proof {
        lemma_concat_lights_len(point_lights@);
    }
    result
}

proof fn lemma_concat_lights_len(lights: Seq<[u8; POINT_LIGHT_SIZE]>)
    ensures
        concat_lights(lights).len() == POINT_LIGHT_SIZE * lights.len(),
    decreases lights.len(),
{
    if lights.len() > 0 {
        lemma_concat_lights_len(lights.drop_last());
    }
}

} // verus!
