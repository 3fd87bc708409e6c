use vstd::prelude::*;
use crate::mesh_data::MeshData;
use crate::mesh_group::{remove_id_seq, MeshGroup};
use crate::texture::Texture;
use crate::transform::Transform;

verus! {

/// Number of material texture layers on a mesh.
pub const LAYERS: usize = 7;

/// Spec-level snapshot of the two pieces of mesh state the descriptor
/// coherency rules relate: the texture assigned to each layer and the image
/// handle the cached descriptor of each layer references.
pub struct MeshBindings {
    pub textures: Seq<Texture>,
    pub desc: Seq<u64>,
}

/// The operations on a mesh that the coherency rules quantify over:
/// replacing a texture slot, reconciling the cached descriptors, and being
/// drawn (which reads but never changes the bindings).
pub enum MeshEvent {
    SetTex { layer: usize, tex: Texture },
    Refresh,
    Draw,
}

/// The descriptor contents that binding exactly these textures produces.
pub open spec fn desc_of(textures: Seq<Texture>) -> Seq<u64> {
    Seq::new(textures.len(), |i: int| textures[i].image_spec().handle)
}

/// Every cached descriptor references the image of the texture currently
/// assigned to its layer.
pub open spec fn coherent(b: MeshBindings) -> bool {
    &&& b.desc.len() == b.textures.len()
    &&& forall|i: int|
        0 <= i < b.textures.len() ==> b.desc[i] == b.textures[i].image_spec().handle
}

/// How each mesh operation transforms the bindings.
pub open spec fn apply_mesh_event(b: MeshBindings, e: MeshEvent) -> MeshBindings {
    match e {
        MeshEvent::SetTex { layer, tex } => MeshBindings {
            textures: b.textures.update(layer as int, tex),
            desc: b.desc,
        },
        MeshEvent::Refresh => MeshBindings { textures: b.textures, desc: desc_of(b.textures) },
        MeshEvent::Draw => b,
    }
}

pub open spec fn apply_mesh_events(b: MeshBindings, evs: Seq<MeshEvent>) -> MeshBindings
    decreases evs.len(),
{
    if evs.len() == 0 {
        b
    } else {
        apply_mesh_event(apply_mesh_events(b, evs.drop_last()), evs.last())
    }
}

/// Descriptor coherency: for every sequence of texture-slot replacements,
/// draws and refreshes, the bindings that hold right after a refresh are
/// coherent — no descriptor still references a replaced image.
pub proof fn lemma_descriptor_coherency(b: MeshBindings, evs: Seq<MeshEvent>)
    requires
        evs.len() > 0,
        evs.last() == MeshEvent::Refresh,
    ensures
        coherent(apply_mesh_events(b, evs)),
{
    let prev = apply_mesh_events(b, evs.drop_last());
    assert(apply_mesh_events(b, evs) == apply_mesh_event(prev, MeshEvent::Refresh));
}

/// Coherency survives any number of draws until the next texture
/// replacement: drawing reads the bindings and never changes them.
pub proof fn lemma_draw_preserves_coherency(b: MeshBindings)
    requires
        coherent(b),
    ensures
        coherent(apply_mesh_event(b, MeshEvent::Draw)),
{
}

/// Spec-level view of a mesh.
pub struct MeshView {
    pub id: u64,
    pub mesh_data: Option<MeshData>,
    pub range_start: usize,
    pub range_end: usize,
    pub transform: Transform,
    pub textures: Seq<Texture>,
    pub desc: Seq<u64>,
}

impl MeshView {
    pub open spec fn bindings(self) -> MeshBindings {
        MeshBindings { textures: self.textures, desc: self.desc }
    }

    pub open spec fn wf(self) -> bool {
        &&& self.textures.len() == LAYERS
        &&& self.desc.len() == LAYERS
        &&& self.range_start <= self.range_end
    }
}

/// One drawable instance: a reference to uploaded mesh data, a draw range
/// into its index buffer, a transform, seven material texture layers and the
/// cached descriptor (one bound image handle per layer). Textures may be
/// replaced at any time between frames; the cached descriptor is reconciled
/// by `refresh` immediately before the mesh is drawn.
pub struct MeshInner {
    id: u64,
    mesh_data: Option<MeshData>,
    range_start: usize,
    range_end: usize,
    transform: Transform,
    textures: Vec<Texture>,
    desc: Vec<u64>,
}

impl View for MeshInner {
    type V = MeshView;

    closed spec fn view(&self) -> MeshView {
        MeshView {
            id: self.id,
            mesh_data: self.mesh_data,
            range_start: self.range_start,
            range_end: self.range_end,
            transform: self.transform,
            textures: self.textures@,
            desc: self.desc@,
        }
    }
}

/// Build the full descriptor for the given texture layers: one bound image
/// handle per layer.
fn make_desc_set(textures: &Vec<Texture>) -> (d: Vec<u64>)
    ensures
        d@ == desc_of(textures@),
{
    let mut d: Vec<u64> = Vec::new();
    let n = textures.len();
    for i in 0..n
        invariant
            n == textures@.len(),
            d@.len() == i,
            forall|j: int| 0 <= j < i ==> d@[j] == textures@[j].image_spec().handle,
    {
        d.push(textures[i].image().handle);
    }
    assert(d@ =~= desc_of(textures@));
    d
}

/// Number of layers whose cached descriptor disagrees with the texture now
/// assigned to the layer, among the first `n` layers.
pub open spec fn stale_count(textures: Seq<Texture>, desc: Seq<u64>, n: int) -> int
    decreases n,
{
    if n <= 0 {
        0
    } else {
        stale_count(textures, desc, n - 1) + if desc[n - 1] == textures[n - 1].image_spec().handle {
            0int
        } else {
            1int
        }
    }
}

impl MeshInner {
    pub open spec fn wf(self) -> bool {
        self@.wf()
    }

    pub open spec fn bindings(self) -> MeshBindings {
        self@.bindings()
    }

    /// Fresh mesh state under the given id: every layer bound to the white
    /// pixel placeholder, a full descriptor built eagerly, no mesh data, an
    /// empty draw range and the identity transform.
    pub(crate) fn new_inner(id: u64, white_pixel: Texture) -> (m: Self)
        ensures
            m@.wf(),
            m@.id == id,
            m@.mesh_data is None,
            m@.range_start == 0,
            m@.range_end == 0,
            m@.transform == Transform::identity(),
            m@.textures == Seq::new(LAYERS as nat, |i: int| white_pixel),
            coherent(m@.bindings()),
    {
        let mut textures: Vec<Texture> = Vec::new();
        for i in 0..LAYERS
            invariant
                textures@.len() == i,
            forall|j: int| 0 <= j < i ==> textures@[j] == white_pixel,
        {
            textures.push(white_pixel);
        }
        let desc = make_desc_set(&textures);
        let transform = Transform::default();
        assert(textures@ =~= Seq::new(LAYERS as nat, |i: int| white_pixel));
        MeshInner { id, mesh_data: None, range_start: 0, range_end: 0, transform, textures, desc }
    }

    pub fn id(&self) -> (id: u64)
        ensures
            id == self@.id,
    {
        self.id
    }

    /// Replace the mesh's transform.
    pub fn set_transform(&mut self, transform: Transform)
        ensures
            final(self)@ == (MeshView { transform, ..old(self)@ }),
    {
        self.transform = transform;
    }

    /// Replace or clear the mesh data this mesh draws.
    pub fn set_mesh_data(&mut self, mesh_data: Option<MeshData>)
        ensures
            final(self)@ == (MeshView { mesh_data, ..old(self)@ }),
    {
        self.mesh_data = mesh_data;
    }

    /// Set the draw range: the half-open interval of the index buffer this
    /// mesh draws.
    pub fn set_range(&mut self, start: usize, end: usize)
        requires
            start <= end,
        ensures
            final(self)@ == (MeshView { range_start: start, range_end: end, ..old(self)@ }),
    {
        self.range_start = start;
        self.range_end = end;
    }

    /// Replace the texture of one layer. The cached descriptor for that
    /// layer becomes stale until the next `refresh`.
    pub fn set_tex(&mut self, tex_i: usize, tex: Texture)
        requires
            old(self)@.wf(),
            tex_i < LAYERS,
        ensures
            final(self)@ == (MeshView {
                textures: old(self)@.textures.update(tex_i as int, tex),
                ..old(self)@
            }),
            final(self).bindings() == apply_mesh_event(
                old(self).bindings(),
                MeshEvent::SetTex { layer: tex_i, tex },
            ),
    {
        self.textures.set(tex_i, tex);
    }

    /// Reconcile the cached descriptors with the textures now assigned, one
    /// layer at a time: a layer is rebuilt exactly when the image handle
    /// embedded in its cached descriptor differs from the image handle of
    /// its current texture. Returns how many layers were rebuilt.
    pub fn refresh(&mut self) -> (rebuilt: usize)
        requires
            old(self)@.wf(),
        ensures
            final(self)@ == (MeshView { desc: desc_of(old(self)@.textures), ..old(self)@ }),
            final(self)@.wf(),
            coherent(final(self).bindings()),
            final(self).bindings() == apply_mesh_event(old(self).bindings(), MeshEvent::Refresh),
            rebuilt == stale_count(old(self)@.textures, old(self)@.desc, LAYERS as int),
    {
        let mut rebuilt: usize = 0;
        let ghost orig = self@;
        for i in 0..LAYERS
            invariant
                self@.wf(),
                self@ == (MeshView { desc: self@.desc, ..orig }),
                rebuilt == stale_count(orig.textures, orig.desc, i as int),
                rebuilt <= i,
                forall|j: int| 0 <= j < i ==> self@.desc[j] == orig.textures[j].image_spec().handle,
                forall|j: int| i <= j < LAYERS ==> self@.desc[j] == orig.desc[j],
        {
            let current = self.textures[i].image().handle;
            if self.desc[i] != current {
                self.desc.set(i, current);
                rebuilt = rebuilt + 1;
            }
        }
        assert(self@.desc =~= desc_of(orig.textures));
        assert(self.bindings() == apply_mesh_event(old(self).bindings(), MeshEvent::Refresh));
        rebuilt
    }

    pub fn transform(&self) -> (t: Transform)
        ensures
            t == self@.transform,
    {
        self.transform
    }

    pub fn range(&self) -> (r: (usize, usize))
        ensures
            r.0 == self@.range_start,
            r.1 == self@.range_end,
    {
        (self.range_start, self.range_end)
    }

    pub fn mesh_data(&self) -> (d: &Option<MeshData>)
        ensures
            *d == self@.mesh_data,
    {
        &self.mesh_data
    }

    pub fn texture(&self, tex_i: usize) -> (t: Texture)
        requires
            self@.wf(),
            tex_i < LAYERS,
        ensures
            t == self@.textures[tex_i as int],
    {
        self.textures[tex_i]
    }

    pub fn desc(&self) -> (d: &Vec<u64>)
        ensures
            d@ == self@.desc,
    {
        &self.desc
    }
}

/// The application's handle to one registered mesh. Creating it registers a
/// fresh slot in the owning group's registry; destroying it removes exactly
/// that slot. The mesh state itself lives in the registry and is reached
/// through the group by this id.
pub struct Mesh {
    id: u64,
}

impl Mesh {
    pub closed spec fn id_spec(self) -> u64 {
        self.id
    }

    /// Create a mesh in the group: allocate a fresh id, initialize every
    /// texture layer to the group's white-pixel placeholder with a full
    /// descriptor built eagerly, and register the state under the id.
    pub fn new(group: &mut MeshGroup) -> (m: Mesh)
        requires
            old(group).wf(),
            old(group).next_id_spec() < u64::MAX,
        ensures
            final(group).wf(),
            m.id_spec() == old(group).next_id_spec(),
            final(group).next_id_spec() == old(group).next_id_spec() + 1,
            final(group).skybox_spec() == old(group).skybox_spec(),
            final(group).white_pixel_spec() == old(group).white_pixel_spec(),
            final(group).ids() == old(group).ids().push(m.id_spec()),
            final(group).meshes_spec().len() == old(group).meshes_spec().len() + 1,
            final(group).meshes_spec().drop_last() == old(group).meshes_spec(),
            ({
                let mv = final(group).meshes_spec().last()@;
                &&& mv.wf()
                &&& mv.id == m.id_spec()
                &&& mv.mesh_data is None
                &&& mv.range_start == 0
                &&& mv.range_end == 0
                &&& mv.transform == Transform::identity()
                &&& mv.textures == Seq::new(
                    LAYERS as nat,
                    |i: int| old(group).white_pixel_spec(),
                )
                &&& coherent(mv.bindings())
            }),
            forall|x: u64|
                final(group).contains_id_spec(x) <==> (old(group).contains_id_spec(x) || x
                    == m.id_spec()),
    {
        let id = group.alloc_id();
        let inner = MeshInner::new_inner(id, group.white_pixel());
        group.put_mesh(inner);
        proof {
            assert(group.meshes_spec().drop_last() =~= old(group).meshes_spec());
        }
        Mesh { id }
    }

    pub fn id(&self) -> (id: u64)
        ensures
            id == self.id_spec(),
    {
        self.id
    }

    /// Destroy the mesh: its slot leaves the group's registry, and only its
    /// slot.
    pub fn destroy(self, group: &mut MeshGroup)
        requires
            old(group).wf(),
        ensures
            final(group).wf(),
            final(group).next_id_spec() == old(group).next_id_spec(),
            final(group).skybox_spec() == old(group).skybox_spec(),
            final(group).white_pixel_spec() == old(group).white_pixel_spec(),
            final(group).ids() == remove_id_seq(old(group).ids(), self.id_spec()),
            forall|x: u64|
                final(group).contains_id_spec(x) <==> (old(group).contains_id_spec(x) && x
                    != self.id_spec()),
    {
        let taken = group.take_mesh(self.id);
        proof {
            if taken is None {
                crate::mesh_group::lemma_remove_id_absent(old(group).ids(), self.id);
            }
        }
    }
}

} // verus!
