use vstd::prelude::*;
use crate::Context;

verus! {

/// How the index list assembles primitives.
#[derive(Clone, Copy, Debug, PartialEq, Eq, Structural)]
pub enum PrimitiveTopology {
    TriangleList,
    TriangleStrip,
}

/// Vertex with position, normal, main texture coordinates and lightmap
/// coordinates: ten 32-bit float bit patterns, kept as raw words.
#[allow(non_camel_case_types)]
#[derive(Clone, Copy, Debug, Default, PartialEq, Eq, Structural)]
pub struct Pntl_32F {
    pub pos_x: u32,
    pub pos_y: u32,
    pub pos_z: u32,
    pub nor_x: u32,
    pub nor_y: u32,
    pub nor_z: u32,
    pub texc_u: u32,
    pub texc_v: u32,
    pub lmap_u: u32,
    pub lmap_v: u32,
}

/// Skinned vertex with up to three bone influences; the bone ids and
/// weights are 32-bit float bit patterns like every other attribute.
#[allow(non_camel_case_types)]
#[derive(Clone, Copy, Debug, Default, PartialEq, Eq, Structural)]
pub struct Pntlb3_32F {
    pub base: Pntl_32F,
    pub bone_id_0: u32,
    pub bone_id_1: u32,
    pub bone_id_2: u32,
    pub bone_weight_0: u32,
    pub bone_weight_1: u32,
    pub bone_weight_2: u32,
}

/// Skinned vertex with up to seven bone influences.
#[allow(non_camel_case_types)]
#[derive(Clone, Copy, Debug, Default, PartialEq, Eq, Structural)]
pub struct Pntlb7_32F {
    pub base: Pntl_32F,
    pub bone_id_0: u32,
    pub bone_id_1: u32,
    pub bone_id_2: u32,
    pub bone_id_3: u32,
    pub bone_id_4: u32,
    pub bone_id_5: u32,
    pub bone_id_6: u32,
    pub bone_weight_0: u32,
    pub bone_weight_1: u32,
    pub bone_weight_2: u32,
    pub bone_weight_3: u32,
    pub bone_weight_4: u32,
    pub bone_weight_5: u32,
    pub bone_weight_6: u32,
}

/// An uploaded index buffer: either 16-bit or 32-bit indices.
#[derive(Debug)]
pub enum IndexBuffer {
    U16(Vec<u16>),
    U32(Vec<u32>),
}

impl IndexBuffer {
    /// Number of indices in the buffer.
    pub open spec fn len_spec(self) -> nat {
        match self {
            IndexBuffer::U16(v) => v@.len(),
            IndexBuffer::U32(v) => v@.len(),
        }
    }

    pub fn len(&self) -> (n: usize)
        ensures
            n == self.len_spec(),
    {
        match self {
            IndexBuffer::U16(v) => v.len(),
            IndexBuffer::U32(v) => v.len(),
        }
    }
}

/// Two index buffers with the same width and the same indices.
pub open spec fn same_indices(a: IndexBuffer, b: IndexBuffer) -> bool {
    match (a, b) {
        (IndexBuffer::U16(x), IndexBuffer::U16(y)) => x@ == y@,
        (IndexBuffer::U32(x), IndexBuffer::U32(y)) => x@ == y@,
        _ => false,
    }
}

/// An immutable GPU vertex/index buffer pair plus its primitive topology.
/// Content never changes after upload; the handle is the identity under
/// which the pair was uploaded, so meshes referencing the same upload carry
/// equal handles.
#[derive(Debug)]
pub struct MeshData {
    handle: u64,
    vertices: Vec<Pntl_32F>,
    indices: IndexBuffer,
    topology: PrimitiveTopology,
}

impl MeshData {
    /// The identity of the uploaded buffer pair.
    pub closed spec fn handle_spec(self) -> u64 {
        self.handle
    }

    pub closed spec fn vertices_spec(self) -> Seq<Pntl_32F> {
        self.vertices@
    }

    pub closed spec fn indices_spec(self) -> IndexBuffer {
        self.indices
    }

    pub closed spec fn topology_spec(self) -> PrimitiveTopology {
        self.topology
    }

    /// Upload 16-bit index data together with its vertex data.
    pub fn new_u16(
        ctx: &mut Context,
        vertex_data: Vec<Pntl_32F>,
        index_data: Vec<u16>,
        topology: PrimitiveTopology,
    ) -> (m: Self)
        requires
            old(ctx).next_handle_spec() < u64::MAX,
        ensures
            m.handle_spec() == old(ctx).next_handle_spec(),
            m.vertices_spec() == vertex_data@,
            m.indices_spec() == IndexBuffer::U16(index_data),
            m.topology_spec() == topology,
            final(ctx).next_handle_spec() == old(ctx).next_handle_spec() + 1,
            final(ctx).device_spec() == old(ctx).device_spec(),
            final(ctx).queue_spec() == old(ctx).queue_spec(),
    {
        let handle = ctx.alloc_handle();
        MeshData { handle, vertices: vertex_data, indices: IndexBuffer::U16(index_data), topology }
    }

    /// Wrap vertex and 16-bit index buffers that were filled elsewhere.
    pub fn from_bufs_u16(
        ctx: &mut Context,
        vertices: Vec<Pntl_32F>,
        indices: Vec<u16>,
        topology: PrimitiveTopology,
    ) -> (m: Self)
        requires
            old(ctx).next_handle_spec() < u64::MAX,
        ensures
            m.handle_spec() == old(ctx).next_handle_spec(),
            m.vertices_spec() == vertices@,
            m.indices_spec() == IndexBuffer::U16(indices),
            m.topology_spec() == topology,
            final(ctx).next_handle_spec() == old(ctx).next_handle_spec() + 1,
            final(ctx).device_spec() == old(ctx).device_spec(),
            final(ctx).queue_spec() == old(ctx).queue_spec(),
    {
        Self::new_u16(ctx, vertices, indices, topology)
    }

    /// Upload 32-bit index data together with its vertex data.
    pub fn new_u32(
        ctx: &mut Context,
        vertex_data: Vec<Pntl_32F>,
        index_data: Vec<u32>,
        topology: PrimitiveTopology,
    ) -> (m: Self)
        requires
            old(ctx).next_handle_spec() < u64::MAX,
        ensures
            m.handle_spec() == old(ctx).next_handle_spec(),
            m.vertices_spec() == vertex_data@,
            m.indices_spec() == IndexBuffer::U32(index_data),
            m.topology_spec() == topology,
            final(ctx).next_handle_spec() == old(ctx).next_handle_spec() + 1,
            final(ctx).device_spec() == old(ctx).device_spec(),
            final(ctx).queue_spec() == old(ctx).queue_spec(),
    {
        let handle = ctx.alloc_handle();
        MeshData { handle, vertices: vertex_data, indices: IndexBuffer::U32(index_data), topology }
    }

    /// Wrap vertex and 32-bit index buffers that were filled elsewhere.
    pub fn from_bufs_u32(
        ctx: &mut Context,
        vertices: Vec<Pntl_32F>,
        indices: Vec<u32>,
        topology: PrimitiveTopology,
    ) -> (m: Self)
        requires
            old(ctx).next_handle_spec() < u64::MAX,
        ensures
            m.handle_spec() == old(ctx).next_handle_spec(),
            m.vertices_spec() == vertices@,
            m.indices_spec() == IndexBuffer::U32(indices),
            m.topology_spec() == topology,
            final(ctx).next_handle_spec() == old(ctx).next_handle_spec() + 1,
            final(ctx).device_spec() == old(ctx).device_spec(),
            final(ctx).queue_spec() == old(ctx).queue_spec(),
    {
        Self::new_u32(ctx, vertices, indices, topology)
    }

    /// Another reference to the same upload: equal handle, equal content.
    /// Meshes sharing one upload each hold such a reference.
    pub fn duplicate(&self) -> (m: Self)
        ensures
            m.handle_spec() == self.handle_spec(),
            m.vertices_spec() == self.vertices_spec(),
            same_indices(m.indices_spec(), self.indices_spec()),
            m.topology_spec() == self.topology_spec(),
    {
        let mut vertices: Vec<Pntl_32F> = Vec::new();
        let nv = self.vertices.len();
        for i in 0..nv
            invariant
                vertices@ =~= self.vertices@.take(i as int),
        {
            vertices.push(self.vertices[i]);
        }
        assert(vertices@ =~= self.vertices@);
        let indices = match &self.indices {
            IndexBuffer::U16(v) => {
                let mut out: Vec<u16> = Vec::new();
                let n = v.len();
                for i in 0..n
                    invariant
                        out@ =~= v@.take(i as int),
                {
                    out.push(v[i]);
                }
                assert(out@ =~= v@);
                IndexBuffer::U16(out)
            },
            IndexBuffer::U32(v) => {
                let mut out: Vec<u32> = Vec::new();
                let n = v.len();
                for i in 0..n
                    invariant
                        out@ =~= v@.take(i as int),
                {
                    out.push(v[i]);
                }
                assert(out@ =~= v@);
                IndexBuffer::U32(out)
            },
        };
        MeshData { handle: self.handle, vertices, indices, topology: self.topology }
    }

    pub fn vertices(&self) -> (v: &Vec<Pntl_32F>)
        ensures
            v@ == self.vertices_spec(),
    {
        &self.vertices
    }

    pub fn indices(&self) -> (i: &IndexBuffer)
        ensures
            *i == self.indices_spec(),
    {
        &self.indices
    }

    pub fn topology(&self) -> (t: PrimitiveTopology)
        ensures
            t == self.topology_spec(),
    {
        self.topology
    }

    pub fn handle(&self) -> (h: u64)
        ensures
            h == self.handle_spec(),
    {
        self.handle
    }
}

} // verus!
