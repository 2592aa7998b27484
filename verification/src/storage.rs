//! The sphere buffer on the device: how large it is, and when it is replaced.

use vstd::prelude::*;

verus! {

/// How the bytes of this frame reach the sphere buffer.
#[derive(Clone, Copy, Debug, PartialEq, Eq, Structural)]
pub enum UploadAction {
    /// The bytes are written over the start of the buffer that is bound.
    Overwrite,
    /// A buffer of `capacity` bytes is made with the bytes in it and bound in
    /// place of the old one, which is released after that.
    Reallocate { capacity: usize },
}

/// The size of the buffer after `len` bytes were uploaded to one of
/// `capacity` bytes: it grows to what it must hold and never shrinks.
pub open spec fn capacity_after(capacity: usize, len: usize) -> usize {
    if len > capacity {
        len
    } else {
        capacity
    }
}

/// What an upload of `len` bytes to a buffer of `capacity` bytes asks of the
/// caller.
pub open spec fn upload_action(capacity: usize, len: usize) -> UploadAction {
    if len > capacity {
        UploadAction::Reallocate { capacity: len }
    } else {
        UploadAction::Overwrite
    }
}

/// The size of the buffer after the uploads of `lens` bytes, in order.
pub open spec fn capacity_after_all(capacity: usize, lens: Seq<usize>) -> usize
    decreases lens.len(),
{
    if lens.len() == 0 {
        capacity
    } else {
        capacity_after(capacity_after_all(capacity, lens.drop_last()), lens.last())
    }
}

/// The one buffer that holds the spheres on the device, known by its size.
#[derive(Clone, Copy, Debug, PartialEq, Eq)]
pub struct StorageSlot {
    capacity: usize,
}

impl StorageSlot {
    /// Bytes of the buffer that is bound.
    pub closed spec fn size(&self) -> usize {
        self.capacity
    }

    /// The slot for a buffer that was made with `len` bytes in it.
    pub fn new(len: usize) -> (slot: StorageSlot)
        ensures
            slot.size() == len,
    {
        StorageSlot { capacity: len }
    }

    pub fn capacity(&self) -> (bytes: usize)
        ensures
            bytes == self.size(),
    {
        self.capacity
    }

    /// Decides how `len` bytes reach the buffer. They are written in place
    /// where they fit; else the buffer is replaced by one of exactly `len`
    /// bytes.
    pub fn plan_upload(&mut self, len: usize) -> (action: UploadAction)
        ensures
            action == upload_action(old(self).size(), len),
            final(self).size() == capacity_after(old(self).size(), len),
            final(self).size() >= old(self).size(),
            final(self).size() >= len,
    {
        if len > self.capacity {
            self.capacity = len;
            UploadAction::Reallocate { capacity: len }
        } else {
            UploadAction::Overwrite
        }
    }
}

/// Whatever is uploaded, the buffer ends at least as large as it started and
/// at least as large as each upload.
pub proof fn lemma_capacity_never_shrinks(capacity: usize, lens: Seq<usize>)
    ensures
        capacity_after_all(capacity, lens) >= capacity,
        forall|i: int| 0 <= i < lens.len() ==> capacity_after_all(capacity, lens) >= lens[i],
    decreases lens.len(),
{
    if lens.len() > 0 {
        lemma_capacity_never_shrinks(capacity, lens.drop_last());
        assert forall|i: int| 0 <= i < lens.len() implies capacity_after_all(capacity, lens)
            >= lens[i] by {
            if i < lens.len() - 1 {
                assert(lens.drop_last()[i] == lens[i]);
            }
        }
    }
}

/// An upload that is no longer than an earlier one is written in place and
/// leaves the size of the buffer as it is.
pub proof fn lemma_smaller_upload_keeps_buffer(capacity: usize, larger: usize, smaller: usize)
    requires
        smaller <= larger,
    ensures
        upload_action(capacity_after(capacity, larger), smaller) == UploadAction::Overwrite,
        capacity_after(capacity_after(capacity, larger), smaller) == capacity_after(
            capacity,
            larger,
        ),
{
}

} // verus!
