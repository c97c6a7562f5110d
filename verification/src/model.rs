//! The data a project is made of, and the views the contracts speak of.

use vstd::prelude::*;

verus! {

/// A position in the plane.
///
/// Each coordinate is carried as the 32-bit pattern of a single-precision
/// number. The library stores and returns coordinates; it never computes
/// with them.
#[derive(Debug, PartialEq, Eq, Structural, Clone, Copy)]
pub struct Point {
    pub x: u32,
    pub y: u32,
}

/// A straight wall segment. It belongs to the project that lists it.
#[derive(Debug, PartialEq, Eq)]
pub struct Wall {
    /// Chosen by the caller; nothing keeps two walls of one project apart.
    pub id: String,
    pub start: Point,
    pub end: Point,
    /// The 32-bit pattern of a single-precision number, as in [`Point`].
    pub thickness: u32,
}

/// What a [`Wall`] holds, as plain values.
pub struct WallView {
    pub id: Seq<char>,
    pub start: Point,
    pub end: Point,
    pub thickness: u32,
}

impl View for Wall {
    type V = WallView;

    open spec fn view(&self) -> WallView {
        WallView { id: self.id@, start: self.start, end: self.end, thickness: self.thickness }
    }
}

impl Clone for Wall {
    fn clone(&self) -> (res: Self)
        ensures
            res == *self,
    {
        Wall { id: self.id.clone(), start: self.start, end: self.end, thickness: self.thickness }
    }
}

/// A named collection of walls, in the order in which they were given.
#[derive(Debug, PartialEq, Eq)]
pub struct Project {
    pub id: String,
    pub name: String,
    pub walls: Vec<Wall>,
}

/// What a [`Project`] holds, as plain values.
pub struct ProjectView {
    pub id: Seq<char>,
    pub name: Seq<char>,
    pub walls: Seq<WallView>,
}

impl View for Project {
    type V = ProjectView;

    open spec fn view(&self) -> ProjectView {
        ProjectView {
            id: self.id@,
            name: self.name@,
            walls: Seq::new(self.walls@.len(), |i: int| self.walls@[i]@),
        }
    }
}

impl Clone for Project {
    fn clone(&self) -> (res: Self)
        ensures
            res@ == self@,
    {
        let walls = self.walls.clone();
        assert(walls@ =~= self.walls@);
        Project { id: self.id.clone(), name: self.name.clone(), walls }
    }
}

/// The body of a request to create a project: its name and nothing else.
#[derive(Debug, PartialEq, Eq)]
pub struct CreateProject {
    pub name: String,
}

/// The project that a creation under `id` with `name` yields: no walls yet.
pub open spec fn fresh_project(id: Seq<char>, name: Seq<char>) -> ProjectView {
    ProjectView { id, name, walls: Seq::empty() }
}

} // verus!
