//! Growable vertex/index buffers and the record of what was submitted.
//!
//! Each finished batch becomes a `Submission`; the unverified shell around
//! the library forwards every submission to the draw surface as one draw
//! call. The size threshold exists with cross-unit batching in mind, but the
//! painter deliberately submits after every unit with zero-based indices, so
//! batches never accumulate across units.

use vstd::prelude::*;
use crate::parts::VertexData;

verus! {

/// Buffered vertex count at which a flush is considered overdue.
pub const BATCH_VERTEX_THRESHOLD: usize = 500;

/// One finished batch: a vertex list and a triangle index list, ready for a
/// single draw call.
pub struct Submission {
    pub vertices: Vec<VertexData>,
    pub indices: Vec<u16>,
}

/// Accumulates vertices and indices, then moves them out as one `Submission`.
pub struct BufferedDrawBatcher {
    pub vertex_buffer: Vec<VertexData>,
    pub index_buffer: Vec<u16>,
    pub submissions: Vec<Submission>,
}

impl BufferedDrawBatcher {
    pub fn new() -> (r: BufferedDrawBatcher)
        ensures
            r.vertex_buffer@.len() == 0,
            r.index_buffer@.len() == 0,
            r.submissions@.len() == 0,
    {
        BufferedDrawBatcher {
            vertex_buffer: Vec::new(),
            index_buffer: Vec::new(),
            submissions: Vec::new(),
        }
    }

    pub fn clear_buffers(&mut self)
        ensures
            final(self).vertex_buffer@.len() == 0,
            final(self).index_buffer@.len() == 0,
            final(self).submissions == old(self).submissions,
    {
        self.vertex_buffer.clear();
        self.index_buffer.clear();
    }

    /// Appends copies of the given vertices and indices to the open buffers.
    pub fn extend(&mut self, vertices: &Vec<VertexData>, indices: &Vec<u16>)
        ensures
            final(self).vertex_buffer@ == old(self).vertex_buffer@ + vertices@,
            final(self).index_buffer@ == old(self).index_buffer@ + indices@,
            final(self).submissions == old(self).submissions,
    {
        let mut i: usize = 0;
        while i < vertices.len()
            invariant
                0 <= i <= vertices@.len(),
                self.vertex_buffer@ == old(self).vertex_buffer@ + vertices@.take(i as int),
                self.index_buffer == old(self).index_buffer,
                self.submissions == old(self).submissions,
            decreases vertices@.len() - i,
        {
            self.vertex_buffer.push(vertices[i]);
            i = i + 1;
            assert(vertices@.take(i as int) =~= vertices@.take(i as int - 1).push(
                vertices@[i as int - 1],
            ));
        }
        assert(vertices@.take(vertices@.len() as int) =~= vertices@);
        let mut j: usize = 0;
        while j < indices.len()
            invariant
                0 <= j <= indices@.len(),
                self.vertex_buffer@ == old(self).vertex_buffer@ + vertices@,
                self.index_buffer@ == old(self).index_buffer@ + indices@.take(j as int),
                self.submissions == old(self).submissions,
            decreases indices@.len() - j,
        {
            self.index_buffer.push(indices[j]);
            j = j + 1;
            assert(indices@.take(j as int) =~= indices@.take(j as int - 1).push(
                indices@[j as int - 1],
            ));
        }
        assert(indices@.take(indices@.len() as int) =~= indices@);
    }

    /// Whether the open buffers have grown past the batching threshold.
    pub fn too_many_vertices_in_buffer(&self) -> (r: bool)
        ensures
            r == (self.vertex_buffer@.len() >= BATCH_VERTEX_THRESHOLD),
    {
        self.vertex_buffer.len() >= BATCH_VERTEX_THRESHOLD
    }

    /// Closes the open buffers into a new `Submission`; an empty buffer
    /// submits nothing. The buffers are empty afterwards either way.
    pub fn renderize(&mut self)
        ensures
            final(self).vertex_buffer@.len() == 0,
            final(self).index_buffer@.len() == 0,
            old(self).vertex_buffer@.len() == 0 ==> final(self).submissions == old(
                self,
            ).submissions,
            old(self).vertex_buffer@.len() > 0 ==> final(self).submissions@ == old(
                self,
            ).submissions@.push(
                Submission {
                    vertices: old(self).vertex_buffer,
                    indices: old(self).index_buffer,
                },
            ),
    {
        if self.vertex_buffer.len() == 0 {
            self.clear_buffers();
            return ;
        }
        let mut vertices: Vec<VertexData> = Vec::new();
        let mut indices: Vec<u16> = Vec::new();
        core::mem::swap(&mut vertices, &mut self.vertex_buffer);
        core::mem::swap(&mut indices, &mut self.index_buffer);
        self.submissions.push(Submission { vertices, indices });
    }

    /// Hands the recorded submissions to the caller and forgets them; the
    /// unverified shell forwards each one to the draw surface.
    pub fn take_submissions(&mut self) -> (r: Vec<Submission>)
        ensures
            r == old(self).submissions,
            final(self).submissions@.len() == 0,
            final(self).vertex_buffer == old(self).vertex_buffer,
            final(self).index_buffer == old(self).index_buffer,
    {
        let mut r: Vec<Submission> = Vec::new();
        core::mem::swap(&mut r, &mut self.submissions);
        r
    }
}

} // verus!
