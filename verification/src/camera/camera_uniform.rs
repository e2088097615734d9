use crate::binding::{BindGroupLayoutEntry, BindingType, BufferUsages, ShaderStage};
use vstd::prelude::*;

verus! {

/// Size in bytes of a column-major 4x4 matrix of single-precision numbers.
pub const MATRIX_SIZE: usize = 64;

/// The host-side mirror of the uniform buffer that holds the camera's
/// view-projection matrix, as the 64 bytes that the vertex stage reads.
///
/// The mirror changes only when it is synchronised; nothing recomputes it
/// behind the caller's back.
pub struct CameraUniform {
    view_projection: [u8; 64],
}

impl View for CameraUniform {
    type V = Seq<u8>;

    /// The bytes of the matrix as of the last synchronisation.
    closed spec fn view(&self) -> Seq<u8> {
        self.view_projection@
    }
}

/// One write into a buffer: `data` goes to the bytes from `offset` on.
pub struct BufferWrite {
    pub offset: u64,
    pub data: Vec<u8>,
}

impl CameraUniform {
    /// The layout slot through which the vertex stage reads the matrix.
    pub open spec fn spec_layout_entry() -> BindGroupLayoutEntry {
        BindGroupLayoutEntry {
            binding: 0,
            visibility: ShaderStage::Vertex,
            ty: BindingType::UniformBuffer,
        }
    }

    /// What the matrix buffer is used for: read as a uniform, written by copies.
    pub open spec fn spec_buffer_usage() -> BufferUsages {
        BufferUsages { uniform: true, copy_dst: true, vertex: false, index: false }
    }

    /// The mirror always holds one whole matrix.
    pub proof fn lemma_len(&self)
        ensures
            self@.len() == MATRIX_SIZE,
    {
    }

    /// A mirror that holds `view_projection`.
    pub fn new(view_projection: [u8; 64]) -> (r: Self)
        ensures
            r@ == view_projection@,
    {
        CameraUniform { view_projection }
    }

    /// Synchronises the mirror with a freshly computed matrix.
    pub fn update_view_projection(&mut self, view_projection: [u8; 64])
        ensures
            final(self)@ == view_projection@,
    {
        self.view_projection = view_projection;
    }

    /// The bytes with which the buffer is created, and from which it is
    /// refreshed.
    pub fn contents(&self) -> (bytes: Vec<u8>)
        ensures
            bytes@ == self@,
            bytes@.len() == MATRIX_SIZE,
    {
        let mut bytes: Vec<u8> = Vec::new();
        let mut i: usize = 0;
        while i < 64
            invariant
                i <= 64,
                bytes@.len() == i,
                forall|j: int| 0 <= j < i ==> bytes@[j] == self.view_projection@[j],
            decreases 64 - i,
        {
            bytes.push(self.view_projection[i]);
            i += 1;
        }
        assert(bytes@ =~= self@);
        bytes
    }

    /// The write that brings the buffer up to date: the whole matrix, from
    /// the buffer's first byte.
    pub fn upload(&self) -> (write: BufferWrite)
        ensures
            write.offset == 0,
            write.data@ == self@,
    {
        BufferWrite { offset: 0, data: self.contents() }
    }

    /// Synchronises the mirror with `view_projection` and returns the write
    /// that brings the buffer up to date with it: all 64 bytes, at offset 0.
    pub fn sync(&mut self, view_projection: [u8; 64]) -> (write: BufferWrite)
        ensures
            final(self)@ == view_projection@,
            write.offset == 0,
            write.data@ == view_projection@,
            write.data@.len() == MATRIX_SIZE,
    {
        self.update_view_projection(view_projection);
        self.upload()
    }

    /// What the matrix buffer is used for.
    pub fn buffer_usage() -> (r: BufferUsages)
        ensures
            r == Self::spec_buffer_usage(),
    {
        BufferUsages { uniform: true, copy_dst: true, vertex: false, index: false }
    }

    /// The layout slot of the matrix buffer.
    pub fn layout_entry() -> (r: BindGroupLayoutEntry)
        ensures
            r == Self::spec_layout_entry(),
    {
        BindGroupLayoutEntry {
            binding: 0,
            visibility: ShaderStage::Vertex,
            ty: BindingType::UniformBuffer,
        }
    }
}

} // verus!
