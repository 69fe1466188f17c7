//! Coordinate frames and values bound to them.
//!
//! A frame holds one transform, the product of every transform applied to
//! it so far, which maps the frame's own coordinates to those of the world.
//! Multiplying two transforms is arithmetic and left to the caller: a frame
//! says which product an application asks for ([`Composition`]) and then
//! stores the product it is given.
//!
//! Frames that several values share live in a store ([`Frames`]) and are
//! named by handles ([`SharedCoordSys`]); a copy of a handle names the same
//! frame.

use vstd::prelude::*;
use crate::transform::Composition;
use crate::transform::Transform;

verus! {

/// A frame with a single owner.
#[derive(Debug)]
pub struct CoordSys {
    transform: Transform,
}

impl View for CoordSys {
    type V = Transform;

    closed spec fn view(&self) -> Transform {
        self.transform
    }
}

impl CoordSys {
    /// The frame that coincides with the world.
    pub fn new() -> (r: CoordSys)
        ensures
            r@.identity(),
    {
        CoordSys { transform: Transform::id() }
    }

    /// The frame's transform.
    pub fn transform(&self) -> (r: Transform)
        ensures
            r == self@,
    {
        self.transform
    }

    /// What applying `t` in the world's coordinates asks for: `t` after the
    /// frame's transform.
    pub fn apply(&self, t: &Transform) -> (r: Composition)
        ensures
            r.outer == *t,
            r.inner == self@,
    {
        self.transform.apply(t)
    }

    /// What applying `t` in the frame's own coordinates asks for: the
    /// frame's transform after `t`.
    pub fn apply_rel(&self, t: Transform) -> (r: Composition)
        ensures
            r.outer == self@,
            r.inner == t,
    {
        Composition { outer: self.transform, inner: t }
    }

    /// Makes `composed` the frame's transform.
    pub fn settle(&mut self, composed: Transform)
        ensures
            final(self)@ == composed,
    {
        self.transform = composed;
    }
}

/// The frames that values share, each in a slot of its own.
#[derive(Debug)]
pub struct Frames {
    systems: Vec<CoordSys>,
}

impl View for Frames {
    type V = Seq<Transform>;

    closed spec fn view(&self) -> Seq<Transform> {
        Seq::new(self.systems@.len(), |i: int| self.systems@[i]@)
    }
}

/// The name of a shared frame: the slot it has in its store.
#[derive(Clone, Copy, Debug)]
pub struct SharedCoordSys {
    pub slot: usize,
}

impl Frames {
    /// Whether the store holds a frame under the name `sys`.
    pub open spec fn holds(self, sys: SharedCoordSys) -> bool {
        sys.slot < self@.len()
    }

    /// A store without frames.
    pub fn new() -> (r: Frames)
        ensures
            r@.len() == 0,
    {
        Frames { systems: Vec::new() }
    }

    /// Whether the store holds a frame under the name `sys`.
    pub fn contains(&self, sys: &SharedCoordSys) -> (r: bool)
        ensures
            r == self.holds(*sys),
    {
        sys.slot < self.systems.len()
    }

    /// How many frames the store holds.
    pub fn len(&self) -> (r: usize)
        ensures
            r == self@.len(),
    {
        self.systems.len()
    }
}

impl SharedCoordSys {
    /// A new frame in `frames` that coincides with the world. Every other
    /// frame stays as it is.
    pub fn new(frames: &mut Frames) -> (r: SharedCoordSys)
        ensures
            r.slot == old(frames)@.len(),
            final(frames)@.len() == old(frames)@.len() + 1,
            forall|i: int| 0 <= i < old(frames)@.len() ==> final(frames)@[i] == old(frames)@[i],
            final(frames)@[r.slot as int].identity(),
    {
        let slot = frames.systems.len();
        frames.systems.push(CoordSys::new());
        SharedCoordSys { slot }
    }

    /// The frame's transform.
    pub fn transform(&self, frames: &Frames) -> (r: Transform)
        requires
            frames.holds(*self),
        ensures
            r == frames@[self.slot as int],
    {
        frames.systems[self.slot].transform()
    }

    /// What applying `t` in the world's coordinates asks for: `t` after the
    /// frame's transform.
    pub fn apply(&self, frames: &Frames, t: &Transform) -> (r: Composition)
        requires
            frames.holds(*self),
        ensures
            r.outer == *t,
            r.inner == frames@[self.slot as int],
    {
        frames.systems[self.slot].apply(t)
    }

    /// What applying `t` in the frame's own coordinates asks for: the
    /// frame's transform after `t`.
    pub fn apply_rel(&self, frames: &Frames, t: Transform) -> (r: Composition)
        requires
            frames.holds(*self),
        ensures
            r.outer == frames@[self.slot as int],
            r.inner == t,
    {
        frames.systems[self.slot].apply_rel(t)
    }

    /// Makes `composed` the frame's transform. Every value bound to the
    /// frame sees the change; every other frame stays as it is.
    pub fn settle(&self, frames: &mut Frames, composed: Transform)
        requires
            old(frames).holds(*self),
        ensures
            final(frames)@ == old(frames)@.update(self.slot as int, composed),
    {
        frames.systems[self.slot].settle(composed);
        assert(frames@ =~= old(frames)@.update(self.slot as int, composed));
    }
}

/// A value in the coordinates of a frame of its own.
#[derive(Debug)]
pub struct SelfRelative<T> {
    pub local: T,
    pub sys: CoordSys,
}

impl<T> SelfRelative<T> {
    /// `x` in a new frame that coincides with the world.
    pub fn new(x: T) -> (r: SelfRelative<T>)
        ensures
            r.local == x,
            r.sys@.identity(),
    {
        SelfRelative { local: x, sys: CoordSys::new() }
    }

    /// The value in the frame's own coordinates.
    pub fn as_rel(&self) -> (r: &T)
        ensures
            *r == self.local,
    {
        &self.local
    }

    /// What applying `t` in the world's coordinates asks for: `t` after the
    /// frame's transform. The value itself is not touched.
    pub fn apply(&self, t: &Transform) -> (r: Composition)
        ensures
            r.outer == *t,
            r.inner == self.sys@,
    {
        self.sys.apply(t)
    }

    /// The value in the frame's own coordinates, to be changed in place.
    /// The frame stays as it is.
    pub fn as_rel_mut(&mut self) -> (r: &mut T)
        ensures
            *r == old(self).local,
            final(self).local == *final(r),
            final(self).sys == old(self).sys,
    {
        &mut self.local
    }
}

/// A value in the coordinates of a shared frame.
#[derive(Debug)]
pub struct Relative<T> {
    pub local: T,
    pub sys: SharedCoordSys,
}

impl<T> Relative<T> {
    /// `x` in the coordinates of the frame `sys`.
    pub fn new(sys: &SharedCoordSys, x: T) -> (r: Relative<T>)
        ensures
            r.local == x,
            r.sys == *sys,
    {
        Relative { local: x, sys: *sys }
    }

    /// The value in the frame's own coordinates.
    pub fn as_rel(&self) -> (r: &T)
        ensures
            *r == self.local,
    {
        &self.local
    }

    /// What applying `t` in the world's coordinates asks for: `t` after the
    /// frame's transform. The value itself is not touched.
    pub fn apply(&self, frames: &Frames, t: &Transform) -> (r: Composition)
        requires
            frames.holds(self.sys),
        ensures
            r.outer == *t,
            r.inner == frames@[self.sys.slot as int],
    {
        self.sys.apply(frames, t)
    }

    /// The value in the frame's own coordinates, to be changed in place.
    /// The binding to the frame stays as it is.
    pub fn as_rel_mut(&mut self) -> (r: &mut T)
        ensures
            *r == old(self).local,
            final(self).local == *final(r),
            final(self).sys == old(self).sys,
    {
        &mut self.local
    }

    /// What `f` makes of the value in the frame's own coordinates and the
    /// name of the frame.
    pub fn abs_map_ref<R, F: FnOnce(&T, &SharedCoordSys) -> R>(&self, f: F) -> (r: R)
        requires
            f.requires((&self.local, &self.sys)),
        ensures
            f.ensures((&self.local, &self.sys), r),
    {
        f(&self.local, &self.sys)
    }
}

} // verus!
