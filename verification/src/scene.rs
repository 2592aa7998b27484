//! The list of spheres that the shader draws.

use vstd::prelude::*;
use crate::scalar::{Scalar, ONE_BITS, ZERO_BITS};
use crate::vector::Vec3;

verus! {

/// One sphere of the scene.
#[derive(Clone, Copy, Debug, PartialEq, Eq, Structural)]
pub struct Sphere {
    pub position: Vec3,
    pub radius: Scalar,
    pub color: Vec3,
}

impl Sphere {
    /// The sphere that an editor adds: at the origin, of radius one, white.
    pub open spec fn unit() -> Sphere {
        Sphere {
            position: Vec3::of_bits(ZERO_BITS, ZERO_BITS, ZERO_BITS),
            radius: Scalar { bits: ONE_BITS },
            color: Vec3::of_bits(ONE_BITS, ONE_BITS, ONE_BITS),
        }
    }
}

impl Default for Sphere {
    fn default() -> (s: Sphere)
        ensures
            s == Sphere::unit(),
    {
        Sphere {
            position: Vec3::from_bits(ZERO_BITS, ZERO_BITS, ZERO_BITS),
            radius: Scalar::from_bits(ONE_BITS),
            color: Vec3::from_bits(ONE_BITS, ONE_BITS, ONE_BITS),
        }
    }
}

/// Why a change to the scene was refused.
#[derive(Clone, Copy, Debug, PartialEq, Eq, Structural)]
pub enum SceneError {
    /// The index names no sphere of the scene.
    IndexOutOfRange,
}

/// What an editor did to the sphere it was showing.
#[derive(Clone, Copy, Debug, PartialEq, Eq, Structural)]
pub enum SphereEdit {
    /// The sphere stays, with these values.
    Keep(Sphere),
    /// The sphere is deleted.
    Delete,
}

/// The spheres of the scene, in the order in which they were added. The
/// shader finds a sphere by its index in this order.
#[derive(Debug, PartialEq, Eq)]
pub struct SceneStorage {
    spheres: Vec<Sphere>,
}

impl View for SceneStorage {
    type V = Seq<Sphere>;

    closed spec fn view(&self) -> Seq<Sphere> {
        self.spheres@
    }
}

impl Clone for SceneStorage {
    fn clone(&self) -> (copy: SceneStorage)
        ensures
            copy@ == self@,
    {
        let mut copy = SceneStorage::new();
        let mut index: usize = 0;
        while index < self.spheres.len()
            invariant
                index <= self.spheres.len(),
                copy@ == self@.take(index as int),
            decreases self.spheres.len() - index,
        {
            copy.spheres.push(self.spheres[index]);
            assert(copy@ =~= self@.take(index + 1));
            index = index + 1;
        }
        assert(self@.take(self@.len() as int) =~= self@);
        copy
    }
}

impl SceneStorage {
    /// A scene without spheres.
    pub fn new() -> (scene: SceneStorage)
        ensures
            scene@ == Seq::<Sphere>::empty(),
    {
        SceneStorage { spheres: Vec::new() }
    }

    /// The scene that a session starts with: one default sphere.
    pub fn initial() -> (scene: SceneStorage)
        ensures
            scene@ == seq![Sphere::unit()],
    {
        let mut scene = SceneStorage::new();
        scene.push_default();
        scene
    }

    pub fn len(&self) -> (n: usize)
        ensures
            n == self@.len(),
    {
        self.spheres.len()
    }

    /// The sphere at `index`, if there is one.
    pub fn get(&self, index: usize) -> (found: Option<Sphere>)
        ensures
            found == (if index < self@.len() {
                Some(self@[index as int])
            } else {
                None
            }),
    {
        if index < self.spheres.len() {
            Some(self.spheres[index])
        } else {
            None
        }
    }

    /// Appends `sphere`; the spheres already there keep their indices.
    pub fn push(&mut self, sphere: Sphere)
        ensures
            final(self)@ == old(self)@.push(sphere),
    {
        self.spheres.push(sphere);
    }

    /// Appends the default sphere.
    pub fn push_default(&mut self)
        ensures
            final(self)@ == old(self)@.push(Sphere::unit()),
    {
        self.spheres.push(Sphere::default());
    }

    /// Replaces the sphere at `index`. An index out of range is refused and
    /// the scene stays as it was.
    pub fn set(&mut self, index: usize, sphere: Sphere) -> (done: Result<(), SceneError>)
        ensures
            index < old(self)@.len() ==> done == Ok::<(), SceneError>(())
                && final(self)@ == old(self)@.update(index as int, sphere),
            index >= old(self)@.len() ==> done == Err::<(), SceneError>(
                SceneError::IndexOutOfRange,
            ) && final(self)@ == old(self)@,
    {
        if index < self.spheres.len() {
            self.spheres[index] = sphere;
            Ok(())
        } else {
            Err(SceneError::IndexOutOfRange)
        }
    }

    /// Moves the sphere at `index`.
    pub fn set_position(&mut self, index: usize, position: Vec3) -> (done: Result<(), SceneError>)
        ensures
            index < old(self)@.len() ==> done == Ok::<(), SceneError>(())
                && final(self)@ == old(self)@.update(
                index as int,
                (Sphere { position, ..old(self)@[index as int] }),
            ),
            index >= old(self)@.len() ==> done == Err::<(), SceneError>(
                SceneError::IndexOutOfRange,
            ) && final(self)@ == old(self)@,
    {
        if index < self.spheres.len() {
            let current = self.spheres[index];
            self.spheres[index] = Sphere { position, ..current };
            Ok(())
        } else {
            Err(SceneError::IndexOutOfRange)
        }
    }

    /// Changes the radius of the sphere at `index`.
    pub fn set_radius(&mut self, index: usize, radius: Scalar) -> (done: Result<(), SceneError>)
        ensures
            index < old(self)@.len() ==> done == Ok::<(), SceneError>(())
                && final(self)@ == old(self)@.update(
                index as int,
                (Sphere { radius, ..old(self)@[index as int] }),
            ),
            index >= old(self)@.len() ==> done == Err::<(), SceneError>(
                SceneError::IndexOutOfRange,
            ) && final(self)@ == old(self)@,
    {
        if index < self.spheres.len() {
            let current = self.spheres[index];
            self.spheres[index] = Sphere { radius, ..current };
            Ok(())
        } else {
            Err(SceneError::IndexOutOfRange)
        }
    }

    /// Changes the colour of the sphere at `index`.
    pub fn set_color(&mut self, index: usize, color: Vec3) -> (done: Result<(), SceneError>)
        ensures
            index < old(self)@.len() ==> done == Ok::<(), SceneError>(())
                && final(self)@ == old(self)@.update(
                index as int,
                (Sphere { color, ..old(self)@[index as int] }),
            ),
            index >= old(self)@.len() ==> done == Err::<(), SceneError>(
                SceneError::IndexOutOfRange,
            ) && final(self)@ == old(self)@,
    {
        if index < self.spheres.len() {
            let current = self.spheres[index];
            self.spheres[index] = Sphere { color, ..current };
            Ok(())
        } else {
            Err(SceneError::IndexOutOfRange)
        }
    }

    /// Takes the sphere at `index` out and hands it back. Every later sphere
    /// moves one index down. An index out of range is refused and the scene
    /// stays as it was.
    pub fn remove(&mut self, index: usize) -> (removed: Result<Sphere, SceneError>)
        ensures
            index < old(self)@.len() ==> removed == Ok::<Sphere, SceneError>(
                old(self)@[index as int],
            ) && final(self)@ == old(self)@.remove(index as int),
            index >= old(self)@.len() ==> removed == Err::<Sphere, SceneError>(
                SceneError::IndexOutOfRange,
            ) && final(self)@ == old(self)@,
    {
        if index < self.spheres.len() {
            Ok(self.spheres.remove(index))
        } else {
            Err(SceneError::IndexOutOfRange)
        }
    }

    /// One step of a pass over the scene by index: applies what the editor
    /// did to the sphere at `index` and returns the index to visit next.
    /// After a deletion that is `index` again, since the next sphere has
    /// moved there.
    pub fn apply_edit(&mut self, index: usize, edit: SphereEdit) -> (next: Result<
        usize,
        SceneError,
    >)
        ensures
            index >= old(self)@.len() ==> next == Err::<usize, SceneError>(
                SceneError::IndexOutOfRange,
            ) && final(self)@ == old(self)@,
            index < old(self)@.len() ==> match edit {
                SphereEdit::Keep(sphere) => next == Ok::<usize, SceneError>((index + 1) as usize)
                    && final(self)@ == old(self)@.update(index as int, sphere),
                SphereEdit::Delete => next == Ok::<usize, SceneError>(index) && final(self)@
                    == old(self)@.remove(index as int),
            },
    {
        if index >= self.spheres.len() {
            return Err(SceneError::IndexOutOfRange);
        }
        match edit {
            SphereEdit::Keep(sphere) => {
                self.spheres[index] = sphere;
                Ok(index + 1)
            },
            SphereEdit::Delete => {
                self.spheres.remove(index);
                Ok(index)
            },
        }
    }
}

/// Removing the sphere at `index` shortens the scene by one, leaves the
/// spheres before `index` where they were and moves each later sphere one
/// index down.
pub proof fn lemma_remove_shifts(spheres: Seq<Sphere>, index: int)
    requires
        0 <= index < spheres.len(),
    ensures
        spheres.remove(index).len() == spheres.len() - 1,
        forall|j: int| 0 <= j < index ==> spheres.remove(index)[j] == spheres[j],
        forall|j: int|
            index <= j < spheres.len() - 1 ==> spheres.remove(index)[j] == spheres[j + 1],
{
}

} // verus!
