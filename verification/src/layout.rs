//! The byte layout that the shader reads.
//!
//! Everything the shader reads is a 32-bit word, written lowest byte first.
//! The words stand in rows of four: a vector takes the first three words of a
//! row, a single number may take the fourth, and what is left of a row is a
//! gap of zero words.

use vstd::prelude::*;
use crate::camera::CameraUniform;
use crate::scalar::Scalar;
use crate::scene::Sphere;
use crate::vector::Vec3;

verus! {

/// Bytes of one word.
pub const WORD_SIZE: usize = 4;

/// Bytes of one row of four words.
pub const ROW_SIZE: usize = 16;

/// Bytes of the camera block: seven rows.
pub const CAMERA_UNIFORM_SIZE: usize = 112;

/// Byte at which each field of the camera block starts.
pub const CAMERA_POSITION_OFFSET: usize = 0;

pub const CAMERA_FORWARD_OFFSET: usize = 16;

pub const CAMERA_RIGHT_OFFSET: usize = 32;

pub const CAMERA_UP_OFFSET: usize = 48;

pub const CAMERA_UP_SKY_OFFSET: usize = 64;

pub const CAMERA_DOWN_SKY_OFFSET: usize = 80;

pub const CAMERA_MIN_DISTANCE_OFFSET: usize = 92;

pub const CAMERA_MAX_DISTANCE_OFFSET: usize = 96;

/// Bytes in front of the first sphere record: the count and its gap.
pub const SCENE_HEADER_SIZE: usize = 16;

/// Bytes from one sphere record to the next: two rows.
pub const SPHERE_STRIDE: usize = 32;

/// Byte of a sphere record at which each of its fields starts.
pub const SPHERE_POSITION_OFFSET: usize = 0;

pub const SPHERE_RADIUS_OFFSET: usize = 12;

pub const SPHERE_COLOR_OFFSET: usize = 16;

/// Byte `k` of `word`, counted from the lowest.
pub open spec fn word_byte(word: u32, k: int) -> u8 {
    if k == 0 {
        (word % 256) as u8
    } else if k == 1 {
        (word / 256 % 256) as u8
    } else if k == 2 {
        (word / 65536 % 256) as u8
    } else {
        (word / 16777216) as u8
    }
}

/// The bytes of `words`: four for each word, lowest first.
pub open spec fn words_bytes(words: Seq<u32>) -> Seq<u8> {
    Seq::new(4 * words.len(), |i: int| word_byte(words[i / 4], i % 4))
}

/// The word whose four bytes start at `at`.
pub open spec fn word_at(bytes: Seq<u8>, at: int) -> u32 {
    (bytes[at] + 256 * bytes[at + 1] + 65536 * bytes[at + 2] + 16777216 * bytes[at + 3]) as u32
}

/// The number whose word starts at `at`.
pub open spec fn scalar_at(bytes: Seq<u8>, at: int) -> Scalar {
    Scalar { bits: word_at(bytes, at) }
}

/// The vector whose three words start at `at`.
pub open spec fn vec3_at(bytes: Seq<u8>, at: int) -> Vec3 {
    Vec3 { x: scalar_at(bytes, at), y: scalar_at(bytes, at + 4), z: scalar_at(bytes, at + 8) }
}

/// One row of four words.
pub open spec fn row(a: u32, b: u32, c: u32, d: u32) -> Seq<u32> {
    seq![a, b, c, d]
}

/// The row that holds `v` in its first three words and `last` in its fourth.
pub open spec fn vec3_row(v: Vec3, last: u32) -> Seq<u32> {
    row(v.x.bits, v.y.bits, v.z.bits, last)
}

/// Word `index` of `words` can be read back from their bytes.
pub proof fn lemma_word_at_words_bytes(words: Seq<u32>, index: int)
    requires
        0 <= index < words.len(),
    ensures
        word_at(words_bytes(words), 4 * index) == words[index],
{
    let bytes = words_bytes(words);
    let w = words[index];
    assert(bytes[4 * index] == word_byte(w, 0));
    assert(bytes[4 * index + 1] == word_byte(w, 1));
    assert(bytes[4 * index + 2] == word_byte(w, 2));
    assert(bytes[4 * index + 3] == word_byte(w, 3));
}

/// The bytes of two runs of words, one after the other, are the bytes of the
/// first run followed by those of the second.
pub proof fn lemma_words_bytes_concat(front: Seq<u32>, back: Seq<u32>)
    ensures
        words_bytes(front + back) == words_bytes(front) + words_bytes(back),
{
    let whole = words_bytes(front + back);
    let parts = words_bytes(front) + words_bytes(back);
    assert(whole.len() == parts.len());
    assert forall|i: int| 0 <= i < whole.len() implies whole[i] == parts[i] by {
        if i < 4 * front.len() {
            assert((front + back)[i / 4] == front[i / 4]);
        } else {
            let j = i - 4 * front.len();
            assert(j / 4 == i / 4 - front.len());
            assert(j % 4 == i % 4);
            assert((front + back)[i / 4] == back[j / 4]);
        }
    }
    assert(whole =~= parts);
}

/// The words of the camera block: a row for each of the six vectors, the
/// distance at which rays start in the free word behind the last vector, and
/// the distance at which they end at the start of a row of its own.
pub open spec fn camera_uniform_words(u: CameraUniform) -> Seq<u32> {
    vec3_row(u.position, 0) + vec3_row(u.forward, 0) + vec3_row(u.right, 0) + vec3_row(u.up, 0)
        + vec3_row(u.up_sky_color, 0) + vec3_row(u.down_sky_color, u.min_distance.bits) + row(
        u.max_distance.bits,
        0,
        0,
        0,
    )
}

/// The bytes of the camera block.
pub open spec fn camera_uniform_bytes(u: CameraUniform) -> Seq<u8> {
    words_bytes(camera_uniform_words(u))
}

/// The camera block that `bytes` holds.
pub open spec fn camera_uniform_at(bytes: Seq<u8>) -> CameraUniform {
    CameraUniform {
        position: vec3_at(bytes, CAMERA_POSITION_OFFSET as int),
        forward: vec3_at(bytes, CAMERA_FORWARD_OFFSET as int),
        right: vec3_at(bytes, CAMERA_RIGHT_OFFSET as int),
        up: vec3_at(bytes, CAMERA_UP_OFFSET as int),
        up_sky_color: vec3_at(bytes, CAMERA_UP_SKY_OFFSET as int),
        down_sky_color: vec3_at(bytes, CAMERA_DOWN_SKY_OFFSET as int),
        min_distance: scalar_at(bytes, CAMERA_MIN_DISTANCE_OFFSET as int),
        max_distance: scalar_at(bytes, CAMERA_MAX_DISTANCE_OFFSET as int),
    }
}

/// The vector in the first three words of a row can be read back from the
/// bytes of any run of words that holds the row.
pub proof fn lemma_vec3_at_words_bytes(words: Seq<u32>, index: int, v: Vec3)
    requires
        0 <= index,
        index + 3 <= words.len(),
        words[index] == v.x.bits,
        words[index + 1] == v.y.bits,
        words[index + 2] == v.z.bits,
    ensures
        vec3_at(words_bytes(words), 4 * index) == v,
{
    lemma_word_at_words_bytes(words, index);
    lemma_word_at_words_bytes(words, index + 1);
    lemma_word_at_words_bytes(words, index + 2);
}

/// Every camera block has the declared size, and reading it back gives the
/// values that were laid out.
pub proof fn lemma_camera_uniform_roundtrip(u: CameraUniform)
    ensures
        camera_uniform_bytes(u).len() == CAMERA_UNIFORM_SIZE,
        camera_uniform_at(camera_uniform_bytes(u)) == u,
{
    let words = camera_uniform_words(u);
    assert(words.len() == 28);
    lemma_vec3_at_words_bytes(words, 0, u.position);
    lemma_vec3_at_words_bytes(words, 4, u.forward);
    lemma_vec3_at_words_bytes(words, 8, u.right);
    lemma_vec3_at_words_bytes(words, 12, u.up);
    lemma_vec3_at_words_bytes(words, 16, u.up_sky_color);
    lemma_vec3_at_words_bytes(words, 20, u.down_sky_color);
    lemma_word_at_words_bytes(words, 23);
    lemma_word_at_words_bytes(words, 24);
}

/// The two rows of a sphere record: the position with the radius in the
/// fourth word, then the colour with a gap behind it.
pub open spec fn sphere_words(s: Sphere) -> Seq<u32> {
    vec3_row(s.position, s.radius.bits) + vec3_row(s.color, 0)
}

/// The records of `spheres`, one after the other with nothing in between.
pub open spec fn records_words(spheres: Seq<Sphere>) -> Seq<u32>
    decreases spheres.len(),
{
    if spheres.len() == 0 {
        Seq::empty()
    } else {
        records_words(spheres.drop_last()) + sphere_words(spheres.last())
    }
}

/// The words of the sphere buffer: a row that starts with the number of
/// spheres, then their records.
pub open spec fn scene_words(spheres: Seq<Sphere>) -> Seq<u32> {
    row(spheres.len() as u32, 0, 0, 0) + records_words(spheres)
}

/// The bytes of the sphere buffer.
pub open spec fn scene_bytes(spheres: Seq<Sphere>) -> Seq<u8> {
    words_bytes(scene_words(spheres))
}

/// Bytes of the sphere buffer for `count` spheres.
pub open spec fn scene_len(count: nat) -> nat {
    SCENE_HEADER_SIZE as nat + count * SPHERE_STRIDE as nat
}

/// Whether a sphere buffer for `count` spheres can be laid out: the count
/// must fit its word, and the length of the buffer must be addressable.
pub open spec fn scene_fits(count: nat) -> bool {
    count <= u32::MAX && scene_len(count) <= usize::MAX
}

/// The number of spheres that `bytes` declares.
pub open spec fn count_at(bytes: Seq<u8>) -> u32 {
    word_at(bytes, 0)
}

/// The sphere whose record starts at `at`.
pub open spec fn sphere_at(bytes: Seq<u8>, at: int) -> Sphere {
    Sphere {
        position: vec3_at(bytes, at + SPHERE_POSITION_OFFSET as int),
        radius: scalar_at(bytes, at + SPHERE_RADIUS_OFFSET as int),
        color: vec3_at(bytes, at + SPHERE_COLOR_OFFSET as int),
    }
}

/// The first `count` spheres that `bytes` holds behind the header.
pub open spec fn spheres_at(bytes: Seq<u8>, count: nat) -> Seq<Sphere> {
    Seq::new(count, |k: int| sphere_at(bytes, SCENE_HEADER_SIZE as int + k * SPHERE_STRIDE as int))
}

/// Whether `bytes` are a whole sphere buffer: a header, and as many records
/// behind it as the header declares.
pub open spec fn scene_framed(bytes: Seq<u8>) -> bool {
    bytes.len() >= SCENE_HEADER_SIZE && bytes.len() == scene_len(count_at(bytes) as nat)
}

/// The records of a list with one more sphere are the records of the list,
/// then the record of that sphere.
pub proof fn lemma_records_words_push(spheres: Seq<Sphere>, sphere: Sphere)
    ensures
        records_words(spheres.push(sphere)) == records_words(spheres) + sphere_words(sphere),
{
    assert(spheres.push(sphere).drop_last() =~= spheres);
}

/// Each sphere takes eight words, and the record of sphere `k` is made of
/// the words from `8 k` on.
pub proof fn lemma_records_words_index(spheres: Seq<Sphere>)
    ensures
        records_words(spheres).len() == 8 * spheres.len(),
        forall|k: int|
            0 <= k < spheres.len() ==> records_words(spheres).subrange(8 * k, 8 * k + 8)
                == sphere_words(#[trigger] spheres[k]),
    decreases spheres.len(),
{
    if spheres.len() > 0 {
        let front = spheres.drop_last();
        let last = sphere_words(spheres.last());
        lemma_records_words_index(front);
        assert(last.len() == 8);
        assert forall|k: int| 0 <= k < spheres.len() implies records_words(spheres).subrange(
            8 * k,
            8 * k + 8,
        ) == sphere_words(#[trigger] spheres[k]) by {
            if k < front.len() {
                assert(front[k] == spheres[k]);
                assert(records_words(spheres).subrange(8 * k, 8 * k + 8) =~= records_words(
                    front,
                ).subrange(8 * k, 8 * k + 8));
            } else {
                assert(records_words(spheres).subrange(8 * k, 8 * k + 8) =~= last);
            }
        }
    }
}

/// The sphere buffer of `count` spheres has a header and `count` records, its
/// first word is the count, and each sphere can be read back from its record.
pub proof fn lemma_scene_roundtrip(spheres: Seq<Sphere>)
    requires
        spheres.len() <= u32::MAX,
    ensures
        scene_bytes(spheres).len() == scene_len(spheres.len()),
        count_at(scene_bytes(spheres)) == spheres.len(),
        scene_framed(scene_bytes(spheres)),
        spheres_at(scene_bytes(spheres), spheres.len()) == spheres,
{
    let words = scene_words(spheres);
    let bytes = scene_bytes(spheres);
    lemma_records_words_index(spheres);
    assert(words.len() == 4 + 8 * spheres.len());
    lemma_word_at_words_bytes(words, 0);
    assert forall|k: int| 0 <= k < spheres.len() implies #[trigger] spheres_at(
        bytes,
        spheres.len(),
    )[k] == spheres[k] by {
        let s = spheres[k];
        let base = 4 + 8 * k;
        let record = records_words(spheres).subrange(8 * k, 8 * k + 8);
        assert(record == sphere_words(s));
        assert(words[base] == record[0]);
        assert(words[base + 1] == record[1]);
        assert(words[base + 2] == record[2]);
        assert(words[base + 3] == record[3]);
        assert(words[base + 4] == record[4]);
        assert(words[base + 5] == record[5]);
        assert(words[base + 6] == record[6]);
        lemma_vec3_at_words_bytes(words, base, s.position);
        lemma_word_at_words_bytes(words, base + 3);
        lemma_vec3_at_words_bytes(words, base + 4, s.color);
        assert(4 * base == SCENE_HEADER_SIZE + k * SPHERE_STRIDE);
    }
    assert(spheres_at(bytes, spheres.len()) =~= spheres);
}

} // verus!
