//! Collects the corners and triangles of the ground that guards can walk on.

use vstd::prelude::*;
use crate::geometry::Vec2;

verus! {

/// `vertices` with `vertex` behind them, unless they hold it already.
pub open spec fn with_vertex(vertices: Seq<Vec2>, vertex: Vec2) -> Seq<Vec2> {
    if vertices.contains(vertex) {
        vertices
    } else {
        vertices.push(vertex)
    }
}

/// Whether `index` is the first place at which `vertices` hold `vertex`.
pub open spec fn is_first_index(vertices: Seq<Vec2>, vertex: Vec2, index: int) -> bool {
    &&& 0 <= index < vertices.len()
    &&& vertices[index] == vertex
    &&& forall|j: int| 0 <= j < index ==> vertices[j] != vertex
}

/// The first place at which `vertices` hold `vertex`.
pub open spec fn first_index(vertices: Seq<Vec2>, vertex: Vec2) -> int {
    choose|index: int| is_first_index(vertices, vertex, index)
}

/// A vertex has one first place at most.
pub proof fn lemma_first_index_is(vertices: Seq<Vec2>, vertex: Vec2, index: int)
    requires
        is_first_index(vertices, vertex, index),
    ensures
        first_index(vertices, vertex) == index,
{
    let other = first_index(vertices, vertex);
    assert(is_first_index(vertices, vertex, other));
    if other < index {
        assert(vertices[other] != vertex);
    } else if index < other {
        assert(vertices[index] != vertex);
    }
}

/// The corners and triangles collected so far.
pub struct NavMeshBuilderView {
    pub vertices: Seq<Vec2>,
    /// Each triangle names its corners by their places in `vertices`.
    pub triangles: Seq<(u32, u32, u32)>,
}

impl NavMeshBuilderView {
    /// No corner is held twice, and every triangle names corners that are
    /// held.
    pub open spec fn wf(self) -> bool {
        &&& forall|i: int, j: int|
            0 <= i < j < self.vertices.len() ==> self.vertices[i] != self.vertices[j]
        &&& forall|t: int|
            0 <= t < self.triangles.len() ==> {
                &&& (#[trigger] self.triangles[t]).0 < self.vertices.len()
                &&& self.triangles[t].1 < self.vertices.len()
                &&& self.triangles[t].2 < self.vertices.len()
            }
    }

    /// The collection after the triangle `a`, `b`, `c` was put in: corners
    /// that were not held yet are held now, behind the others, and the
    /// triangle names the three by their places.
    pub open spec fn with_triangle(self, a: Vec2, b: Vec2, c: Vec2) -> NavMeshBuilderView {
        let vertices = with_vertex(with_vertex(with_vertex(self.vertices, a), b), c);
        NavMeshBuilderView {
            vertices,
            triangles: self.triangles.push(
                (
                    first_index(vertices, a) as u32,
                    first_index(vertices, b) as u32,
                    first_index(vertices, c) as u32,
                ),
            ),
        }
    }

    /// The collection after the rectangle with the corners `a`, `b`, `c`,
    /// `d`, named in order round it, was put in as two triangles that share
    /// the line from `a` to `c`.
    pub open spec fn with_rect(self, a: Vec2, b: Vec2, c: Vec2, d: Vec2) -> NavMeshBuilderView {
        let vertices = with_vertex(
            with_vertex(with_vertex(with_vertex(self.vertices, a), b), c),
            d,
        );
        let ia = first_index(vertices, a) as u32;
        let ib = first_index(vertices, b) as u32;
        let ic = first_index(vertices, c) as u32;
        let id = first_index(vertices, d) as u32;
        NavMeshBuilderView {
            vertices,
            triangles: self.triangles.push((ia, ib, ic)).push((ia, id, ic)),
        }
    }
}

/// Collects triangles and keeps each corner once.
#[derive(Clone, Debug)]
pub struct NavMeshBuilder {
    vertices: Vec<Vec2>,
    triangles: Vec<(u32, u32, u32)>,
}

impl View for NavMeshBuilder {
    type V = NavMeshBuilderView;

    closed spec fn view(&self) -> NavMeshBuilderView {
        NavMeshBuilderView { vertices: self.vertices@, triangles: self.triangles@ }
    }
}

impl NavMeshBuilder {
    /// An empty collection.
    pub fn new() -> (builder: NavMeshBuilder)
        ensures
            builder@.vertices.len() == 0,
            builder@.triangles.len() == 0,
            builder@.wf(),
    {
        NavMeshBuilder { vertices: Vec::new(), triangles: Vec::new() }
    }

    /// The place of `vertex` among the corners, which holds it from now on.
    fn vertex_index(&mut self, vertex: Vec2) -> (index: usize)
        ensures
            final(self)@.vertices == with_vertex(old(self)@.vertices, vertex),
            final(self)@.triangles == old(self)@.triangles,
            is_first_index(final(self)@.vertices, vertex, index as int),
    {
        let mut i: usize = 0;
        while i < self.vertices.len()
            invariant
                i <= self.vertices@.len(),
                *self == *old(self),
                forall|j: int| 0 <= j < i ==> self.vertices@[j] != vertex,
            decreases self.vertices@.len() - i,
        {
            if self.vertices[i] == vertex {
                assert(self.vertices@.contains(vertex));
                return i;
            }
            i += 1;
        }
        self.vertices.push(vertex);
        self.vertices.len() - 1
    }

    /// Puts in the triangle with the corners `a`, `b`, `c`.
    pub fn insert_triangle(&mut self, a: Vec2, b: Vec2, c: Vec2)
        requires
            old(self)@.vertices.len() + 3 <= u32::MAX,
        ensures
            final(self)@ == old(self)@.with_triangle(a, b, c),
            old(self)@.wf() ==> final(self)@.wf(),
            final(self)@.vertices.len() <= old(self)@.vertices.len() + 3,
    {
        let ia: usize = self.vertex_index(a);
        let ghost va = self@.vertices;
        let ib: usize = self.vertex_index(b);
        let ghost vb = self@.vertices;
        let ic: usize = self.vertex_index(c);
        let ghost vc = self@.vertices;
        proof {
            lemma_first_index_kept(va, b, a, ia as int);
            lemma_first_index_kept(vb, c, a, ia as int);
            lemma_first_index_kept(vb, c, b, ib as int);
            lemma_first_index_is(vc, a, ia as int);
            lemma_first_index_is(vc, b, ib as int);
            lemma_first_index_is(vc, c, ic as int);
            if old(self)@.wf() {
                lemma_no_vertex_twice(old(self)@.vertices, a);
                lemma_no_vertex_twice(va, b);
                lemma_no_vertex_twice(vb, c);
            }
        }
        self.triangles.push((ia as u32, ib as u32, ic as u32));
    }

    /// Puts in the rectangle with the corners `a`, `b`, `c`, `d`, named
    /// in order round it.
    pub fn insert_rect(&mut self, a: Vec2, b: Vec2, c: Vec2, d: Vec2)
        requires
            old(self)@.vertices.len() + 4 <= u32::MAX,
        ensures
            final(self)@ == old(self)@.with_rect(a, b, c, d),
            old(self)@.wf() ==> final(self)@.wf(),
            final(self)@.vertices.len() <= old(self)@.vertices.len() + 4,
    {
        let ia: usize = self.vertex_index(a);
        let ghost va = self@.vertices;
        let ib: usize = self.vertex_index(b);
        let ghost vb = self@.vertices;
        let ic: usize = self.vertex_index(c);
        let ghost vc = self@.vertices;
        let id: usize = self.vertex_index(d);
        let ghost vd = self@.vertices;
        proof {
            lemma_first_index_kept(va, b, a, ia as int);
            lemma_first_index_kept(vb, c, a, ia as int);
            lemma_first_index_kept(vc, d, a, ia as int);
            lemma_first_index_kept(vb, c, b, ib as int);
            lemma_first_index_kept(vc, d, b, ib as int);
            lemma_first_index_kept(vc, d, c, ic as int);
            lemma_first_index_is(vd, a, ia as int);
            lemma_first_index_is(vd, b, ib as int);
            lemma_first_index_is(vd, c, ic as int);
            lemma_first_index_is(vd, d, id as int);
            if old(self)@.wf() {
                lemma_no_vertex_twice(old(self)@.vertices, a);
                lemma_no_vertex_twice(va, b);
                lemma_no_vertex_twice(vb, c);
                lemma_no_vertex_twice(vc, d);
            }
        }
        self.triangles.push((ia as u32, ib as u32, ic as u32));
        self.triangles.push((ia as u32, id as u32, ic as u32));
    }

    /// The corners, each once, in the order in which they came in.
    pub fn vertices(&self) -> (vertices: &Vec<Vec2>)
        ensures
            vertices@ == self@.vertices,
    {
        &self.vertices
    }

    /// The triangles, in the order in which they came in.
    pub fn triangles(&self) -> (triangles: &Vec<(u32, u32, u32)>)
        ensures
            triangles@ == self@.triangles,
    {
        &self.triangles
    }
}

/// A corner keeps its first place when another corner is put in.
pub proof fn lemma_first_index_kept(vertices: Seq<Vec2>, added: Vec2, vertex: Vec2, index: int)
    requires
        is_first_index(vertices, vertex, index),
    ensures
        is_first_index(with_vertex(vertices, added), vertex, index),
{
}

/// Putting a corner in never makes the corners hold one twice.
pub proof fn lemma_no_vertex_twice(vertices: Seq<Vec2>, added: Vec2)
    requires
        forall|i: int, j: int| 0 <= i < j < vertices.len() ==> vertices[i] != vertices[j],
    ensures
        forall|i: int, j: int|
            0 <= i < j < with_vertex(vertices, added).len() ==> with_vertex(vertices, added)[i]
                != with_vertex(vertices, added)[j],
{
    if !vertices.contains(added) {
        let grown = vertices.push(added);
        assert forall|i: int, j: int| 0 <= i < j < grown.len() implies grown[i] != grown[j] by {
            if j == vertices.len() {
                assert(vertices.contains(vertices[i]));
            }
        }
    }
}

} // verus!
