//! The vertex list that the GPU fills and the display front-end draws.

use vstd::prelude::*;

verus! {

/// A screen position: X, then Y.
#[derive(Debug, Copy, Clone, PartialEq, Eq, Structural)]
pub struct Position(pub i16, pub i16);

impl Position {
    /// The position that a command word holds: X in the low half, Y in the
    /// high half.
    pub open spec fn spec_from_command(value: u32) -> Position {
        Position(value as i16, (value >> 16) as i16)
    }

    pub fn from_command(value: u32) -> (p: Position)
        ensures
            p == Position::spec_from_command(value),
    {
        Position(
            #[verifier::truncate]
            (value as i16),
            #[verifier::truncate]
            ((value >> 16) as i16),
        )
    }
}

/// A colour: red, green, blue.
#[derive(Debug, Copy, Clone, PartialEq, Eq, Structural)]
pub struct Color(pub u8, pub u8, pub u8);

impl Color {
    /// The colour that a command word holds: red in the lowest byte, then
    /// green, then blue.
    pub open spec fn spec_from_command(value: u32) -> Color {
        Color(value as u8, (value >> 8) as u8, (value >> 16) as u8)
    }

    pub fn from_command(value: u32) -> (c: Color)
        ensures
            c == Color::spec_from_command(value),
    {
        Color(
            #[verifier::truncate]
            (value as u8),
            #[verifier::truncate]
            ((value >> 8) as u8),
            #[verifier::truncate]
            ((value >> 16) as u8),
        )
    }
}

/// One corner of a triangle.
#[derive(Debug, Copy, Clone, PartialEq, Eq, Structural)]
pub struct Vertex {
    pub position: Position,
    pub color: Color,
}

/// The most vertices that the list holds; a primitive that would not fit is
/// dropped.
pub const MAX_BUFFER_SIZE: usize = 5_000_000;

/// The three vertices of a triangle.
pub open spec fn triangle_vertices(positions: Seq<Position>, colors: Seq<Color>) -> Seq<Vertex> {
    seq![
        Vertex { position: positions[0], color: colors[0] },
        Vertex { position: positions[1], color: colors[1] },
        Vertex { position: positions[2], color: colors[2] },
    ]
}

/// The six vertices of the two triangles that make a quad: corners 0, 1, 2,
/// then corners 3, 2, 1.
pub open spec fn quad_vertices(positions: Seq<Position>, colors: Seq<Color>) -> Seq<Vertex> {
    seq![
        Vertex { position: positions[0], color: colors[0] },
        Vertex { position: positions[1], color: colors[1] },
        Vertex { position: positions[2], color: colors[2] },
        Vertex { position: positions[3], color: colors[3] },
        Vertex { position: positions[2], color: colors[2] },
        Vertex { position: positions[1], color: colors[1] },
    ]
}

/// The list `held` after a primitive made of `added` arrived.
pub open spec fn spec_push(held: Seq<Vertex>, added: Seq<Vertex>) -> Seq<Vertex> {
    if held.len() + added.len() > MAX_BUFFER_SIZE {
        held
    } else {
        held + added
    }
}

/// The triangles waiting to be drawn, three vertices each.
pub struct Renderer {
    vertices: Vec<Vertex>,
}

impl View for Renderer {
    type V = Seq<Vertex>;

    closed spec fn view(&self) -> Seq<Vertex> {
        self.vertices@
    }
}

impl Renderer {
    /// The list never grows past `MAX_BUFFER_SIZE`.
    pub open spec fn wf(&self) -> bool {
        self@.len() <= MAX_BUFFER_SIZE
    }

    pub fn new() -> (r: Renderer)
        ensures
            r.wf(),
            r@ == Seq::<Vertex>::empty(),
    {
        Renderer { vertices: Vec::new() }
    }

    /// Appends a triangle, unless the list is full.
    pub fn push_triangle(&mut self, positions: [Position; 3], colors: [Color; 3])
        requires
            old(self).wf(),
        ensures
            final(self).wf(),
            final(self)@ == spec_push(old(self)@, triangle_vertices(positions@, colors@)),
    {
        if self.vertices.len() + 3 > MAX_BUFFER_SIZE {
            return ;
        }
        self.vertices.push(Vertex { position: positions[0], color: colors[0] });
        self.vertices.push(Vertex { position: positions[1], color: colors[1] });
        self.vertices.push(Vertex { position: positions[2], color: colors[2] });
        assert(self@ =~= old(self)@ + triangle_vertices(positions@, colors@));
    }

    /// Appends a quad as two triangles, unless the list is full.
    pub fn push_quad(&mut self, positions: [Position; 4], colors: [Color; 4])
        requires
            old(self).wf(),
        ensures
            final(self).wf(),
            final(self)@ == spec_push(old(self)@, quad_vertices(positions@, colors@)),
    {
        if self.vertices.len() + 6 > MAX_BUFFER_SIZE {
            return ;
        }
        self.vertices.push(Vertex { position: positions[0], color: colors[0] });
        self.vertices.push(Vertex { position: positions[1], color: colors[1] });
        self.vertices.push(Vertex { position: positions[2], color: colors[2] });
        self.vertices.push(Vertex { position: positions[3], color: colors[3] });
        self.vertices.push(Vertex { position: positions[2], color: colors[2] });
        self.vertices.push(Vertex { position: positions[1], color: colors[1] });
        assert(self@ =~= old(self)@ + quad_vertices(positions@, colors@));
    }

    /// The number of vertices waiting.
    pub fn len(&self) -> (n: usize)
        ensures
            n == self@.len(),
    {
        self.vertices.len()
    }

    /// The vertex at `index`.
    pub fn vertex(&self, index: usize) -> (v: Vertex)
        requires
            index < self@.len(),
        ensures
            v == self@[index as int],
    {
        self.vertices[index]
    }

    /// Empties the list, once its triangles are drawn.
    pub fn clear(&mut self)
        ensures
            final(self).wf(),
            final(self)@ == Seq::<Vertex>::empty(),
    {
        self.vertices.clear();
    }
}

} // verus!
