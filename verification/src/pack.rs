//! Writing the camera block and the sphere buffer, and reading them back.

use vstd::prelude::*;
use crate::camera::CameraUniform;
use crate::layout::{
    camera_uniform_at, camera_uniform_bytes, count_at, lemma_camera_uniform_roundtrip,
    lemma_records_words_push, lemma_scene_roundtrip, lemma_words_bytes_concat, records_words, row,
    scene_bytes, scene_fits, scene_framed, scene_len, sphere_at, sphere_words, spheres_at,
    vec3_at, vec3_row, word_at, words_bytes, CAMERA_DOWN_SKY_OFFSET, CAMERA_FORWARD_OFFSET,
    CAMERA_MAX_DISTANCE_OFFSET, CAMERA_MIN_DISTANCE_OFFSET, CAMERA_POSITION_OFFSET,
    CAMERA_RIGHT_OFFSET, CAMERA_UNIFORM_SIZE, CAMERA_UP_OFFSET, CAMERA_UP_SKY_OFFSET,
    SCENE_HEADER_SIZE, SPHERE_COLOR_OFFSET, SPHERE_POSITION_OFFSET, SPHERE_RADIUS_OFFSET,
    SPHERE_STRIDE,
};
use crate::scalar::Scalar;
use crate::scene::{SceneStorage, Sphere};
use crate::vector::Vec3;

verus! {

/// Why a buffer could not be laid out.
#[derive(Clone, Copy, Debug, PartialEq, Eq, Structural)]
pub enum PackError {
    /// The scene holds more spheres than a sphere buffer can declare or than
    /// this machine can address.
    TooManySpheres,
}

fn push_word(out: &mut Vec<u8>, word: u32)
    ensures
        final(out)@ == old(out)@ + words_bytes(seq![word]),
{
    out.push((word % 256) as u8);
    out.push((word / 256 % 256) as u8);
    out.push((word / 65536 % 256) as u8);
    out.push((word / 16777216) as u8);
    assert(out@ =~= old(out)@ + words_bytes(seq![word]));
}

fn push_row(out: &mut Vec<u8>, a: u32, b: u32, c: u32, d: u32)
    ensures
        final(out)@ == old(out)@ + words_bytes(row(a, b, c, d)),
{
    push_word(out, a);
    push_word(out, b);
    push_word(out, c);
    push_word(out, d);
    proof {
        lemma_words_bytes_concat(seq![a], seq![b]);
        lemma_words_bytes_concat(seq![a] + seq![b], seq![c]);
        lemma_words_bytes_concat(seq![a] + seq![b] + seq![c], seq![d]);
        assert(seq![a] + seq![b] + seq![c] + seq![d] =~= row(a, b, c, d));
        assert(out@ =~= old(out)@ + words_bytes(row(a, b, c, d)));
    }
}

fn read_word(bytes: &[u8], at: usize) -> (word: u32)
    requires
        at + 4 <= bytes.len(),
    ensures
        word == word_at(bytes@, at as int),
{
    let b0: u32 = bytes[at] as u32;
    let b1: u32 = bytes[at + 1] as u32;
    let b2: u32 = bytes[at + 2] as u32;
    let b3: u32 = bytes[at + 3] as u32;
    b0 + 256 * b1 + 65536 * b2 + 16777216 * b3
}

fn read_vec3(bytes: &[u8], at: usize) -> (v: Vec3)
    requires
        at + 12 <= bytes.len(),
    ensures
        v == vec3_at(bytes@, at as int),
{
    Vec3 {
        x: Scalar { bits: read_word(bytes, at) },
        y: Scalar { bits: read_word(bytes, at + 4) },
        z: Scalar { bits: read_word(bytes, at + 8) },
    }
}

impl CameraUniform {
    /// The bytes of the block, as the camera buffer takes them. There are
    /// always `CAMERA_UNIFORM_SIZE` of them.
    pub fn pack(&self) -> (bytes: Vec<u8>)
        ensures
            bytes@ == camera_uniform_bytes(*self),
            bytes@.len() == CAMERA_UNIFORM_SIZE,
    {
        let mut out: Vec<u8> = Vec::with_capacity(CAMERA_UNIFORM_SIZE);
        let ghost r0 = vec3_row(self.position, 0);
        let ghost r1 = r0 + vec3_row(self.forward, 0);
        let ghost r2 = r1 + vec3_row(self.right, 0);
        let ghost r3 = r2 + vec3_row(self.up, 0);
        let ghost r4 = r3 + vec3_row(self.up_sky_color, 0);
        let ghost r5 = r4 + vec3_row(self.down_sky_color, self.min_distance.bits);
        let ghost r6 = r5 + row(self.max_distance.bits, 0, 0, 0);
        push_row(&mut out, self.position.x.bits, self.position.y.bits, self.position.z.bits, 0);
        assert(out@ =~= words_bytes(r0));
        push_row(&mut out, self.forward.x.bits, self.forward.y.bits, self.forward.z.bits, 0);
        proof {
            lemma_words_bytes_concat(r0, vec3_row(self.forward, 0));
        }
        push_row(&mut out, self.right.x.bits, self.right.y.bits, self.right.z.bits, 0);
        proof {
            lemma_words_bytes_concat(r1, vec3_row(self.right, 0));
        }
        push_row(&mut out, self.up.x.bits, self.up.y.bits, self.up.z.bits, 0);
        proof {
            lemma_words_bytes_concat(r2, vec3_row(self.up, 0));
        }
        push_row(
            &mut out,
            self.up_sky_color.x.bits,
            self.up_sky_color.y.bits,
            self.up_sky_color.z.bits,
            0,
        );
        proof {
            lemma_words_bytes_concat(r3, vec3_row(self.up_sky_color, 0));
        }
        push_row(
            &mut out,
            self.down_sky_color.x.bits,
            self.down_sky_color.y.bits,
            self.down_sky_color.z.bits,
            self.min_distance.bits,
        );
        proof {
            lemma_words_bytes_concat(r4, vec3_row(self.down_sky_color, self.min_distance.bits));
        }
        push_row(&mut out, self.max_distance.bits, 0, 0, 0);
        proof {
            lemma_words_bytes_concat(r5, row(self.max_distance.bits, 0, 0, 0));
            assert(out@ == words_bytes(r6));
            lemma_camera_uniform_roundtrip(*self);
        }
        out
    }

    /// Reads a block back. The bytes must be exactly one block long.
    pub fn unpack(bytes: &[u8]) -> (found: Option<CameraUniform>)
        ensures
            found == (if bytes@.len() == CAMERA_UNIFORM_SIZE {
                Some(camera_uniform_at(bytes@))
            } else {
                None
            }),
    {
        if bytes.len() != CAMERA_UNIFORM_SIZE {
            return None;
        }
        Some(
            CameraUniform {
                position: read_vec3(bytes, CAMERA_POSITION_OFFSET),
                forward: read_vec3(bytes, CAMERA_FORWARD_OFFSET),
                right: read_vec3(bytes, CAMERA_RIGHT_OFFSET),
                up: read_vec3(bytes, CAMERA_UP_OFFSET),
                up_sky_color: read_vec3(bytes, CAMERA_UP_SKY_OFFSET),
                down_sky_color: read_vec3(bytes, CAMERA_DOWN_SKY_OFFSET),
                min_distance: Scalar { bits: read_word(bytes, CAMERA_MIN_DISTANCE_OFFSET) },
                max_distance: Scalar { bits: read_word(bytes, CAMERA_MAX_DISTANCE_OFFSET) },
            },
        )
    }
}

/// The number of bytes that a sphere buffer for `count` spheres takes. A
/// count that no buffer can declare, or whose buffer this machine cannot
/// address, is refused.
pub fn scene_len_for(count: usize) -> (len: Result<usize, PackError>)
    ensures
        scene_fits(count as nat) ==> len == Ok::<usize, PackError>(
            scene_len(count as nat) as usize,
        ),
        !scene_fits(count as nat) ==> len == Err::<usize, PackError>(PackError::TooManySpheres),
{
    if count > u32::MAX as usize {
        return Err(PackError::TooManySpheres);
    }
    let records = match count.checked_mul(SPHERE_STRIDE) {
        Some(records) => records,
        None => {
            return Err(PackError::TooManySpheres);
        },
    };
    match records.checked_add(SCENE_HEADER_SIZE) {
        Some(len) => Ok(len),
        None => Err(PackError::TooManySpheres),
    }
}

fn push_sphere(out: &mut Vec<u8>, sphere: Sphere)
    ensures
        final(out)@ == old(out)@ + words_bytes(sphere_words(sphere)),
{
    push_row(
        out,
        sphere.position.x.bits,
        sphere.position.y.bits,
        sphere.position.z.bits,
        sphere.radius.bits,
    );
    push_row(out, sphere.color.x.bits, sphere.color.y.bits, sphere.color.z.bits, 0);
    proof {
        lemma_words_bytes_concat(
            vec3_row(sphere.position, sphere.radius.bits),
            vec3_row(sphere.color, 0),
        );
        assert(out@ =~= old(out)@ + words_bytes(sphere_words(sphere)));
    }
}

fn read_sphere(bytes: &[u8], at: usize) -> (sphere: Sphere)
    requires
        at + SPHERE_STRIDE <= bytes.len(),
    ensures
        sphere == sphere_at(bytes@, at as int),
{
    Sphere {
        position: read_vec3(bytes, at + SPHERE_POSITION_OFFSET),
        radius: Scalar { bits: read_word(bytes, at + SPHERE_RADIUS_OFFSET) },
        color: read_vec3(bytes, at + SPHERE_COLOR_OFFSET),
    }
}

impl SceneStorage {
    /// The number of bytes that `pack` gives for this scene.
    pub fn packed_len(&self) -> (len: Result<usize, PackError>)
        ensures
            scene_fits(self@.len()) ==> len == Ok::<usize, PackError>(
                scene_len(self@.len()) as usize,
            ),
            !scene_fits(self@.len()) ==> len == Err::<usize, PackError>(PackError::TooManySpheres),
    {
        scene_len_for(self.len())
    }

    /// The bytes of the sphere buffer: the count, then one record for each
    /// sphere in order. A scene that no buffer can hold is refused.
    pub fn pack(&self) -> (packed: Result<Vec<u8>, PackError>)
        ensures
            scene_fits(self@.len()) ==> packed is Ok && packed->Ok_0@ == scene_bytes(self@)
                && packed->Ok_0@.len() == scene_len(self@.len()),
            !scene_fits(self@.len()) ==> packed == Err::<Vec<u8>, PackError>(
                PackError::TooManySpheres,
            ),
    {
        let count = self.len();
        let total = match scene_len_for(count) {
            Ok(total) => total,
            Err(error) => {
                return Err(error);
            },
        };
        let mut out: Vec<u8> = Vec::with_capacity(total);
        let ghost header = row(count as u32, 0, 0, 0);
        push_row(&mut out, count as u32, 0, 0, 0);
        assert(out@ =~= words_bytes(header + records_words(self@.take(0))));
        let mut index: usize = 0;
        while index < count
            invariant
                index <= count,
                count == self@.len(),
                header == row(count as u32, 0, 0, 0),
                out@ == words_bytes(header + records_words(self@.take(index as int))),
            decreases count - index,
        {
            let sphere = match self.get(index) {
                Some(sphere) => sphere,
                None => Sphere::default(),
            };
            push_sphere(&mut out, sphere);
            proof {
                let done = self@.take(index as int);
                assert(self@.take(index + 1) =~= done.push(sphere));
                lemma_records_words_push(done, sphere);
                assert(header + (records_words(done) + sphere_words(sphere)) =~= (header
                    + records_words(done)) + sphere_words(sphere));
                lemma_words_bytes_concat(header + records_words(done), sphere_words(sphere));
            }
            index = index + 1;
        }
        proof {
            assert(self@.take(count as int) =~= self@);
            lemma_scene_roundtrip(self@);
        }
        Ok(out)
    }

    /// Reads a sphere buffer back. The bytes must be a header followed by
    /// exactly as many records as the header declares.
    pub fn unpack(bytes: &[u8]) -> (found: Option<SceneStorage>)
        ensures
            scene_framed(bytes@) ==> found is Some && found->Some_0@ == spheres_at(
                bytes@,
                count_at(bytes@) as nat,
            ),
            !scene_framed(bytes@) ==> found is None,
    {
        if bytes.len() < SCENE_HEADER_SIZE {
            return None;
        }
        let declared = read_word(bytes, 0);
        let body = bytes.len() - SCENE_HEADER_SIZE;
        if body % SPHERE_STRIDE != 0 || body / SPHERE_STRIDE != declared as usize {
            return None;
        }
        let count = declared as usize;
        let mut scene = SceneStorage::new();
        let mut index: usize = 0;
        while index < count
            invariant
                index <= count,
                bytes.len() == SCENE_HEADER_SIZE + count * SPHERE_STRIDE,
                scene@ == spheres_at(bytes@, index as nat),
            decreases count - index,
        {
            let sphere = read_sphere(bytes, SCENE_HEADER_SIZE + index * SPHERE_STRIDE);
            scene.push(sphere);
            assert(scene@ =~= spheres_at(bytes@, (index + 1) as nat));
            index = index + 1;
        }
        Some(scene)
    }
}

} // verus!
