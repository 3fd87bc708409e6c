use vstd::prelude::*;
use crate::codecs::model::{
    from_nice_model, mat_range_start, mat_tex1_name, mat_tex2_name, nmdl_index_at,
    nmdl_index_count, nmdl_material_count, nmdl_vertex_at, nmdl_vertex_count, nmdl_wf,
    ModelParseError,
};
use crate::mesh::{Mesh, MeshView, LAYERS};
use crate::mesh_data::{same_indices, IndexBuffer, MeshData, PrimitiveTopology};
use crate::mesh_group::MeshGroup;
use crate::texture::{Image, ImmutableTexture, PixelFormat, Texture};
use crate::transform::Transform;
use crate::Context;

verus! {

/// A texture cache entry: starts as a placeholder and is upgraded in place
/// exactly once when its asynchronous load completes. Until then every
/// binding of the entry presents the shared white-pixel image.
pub struct TextureResource {
    tex: Option<Texture>,
    white_pixel: Texture,
}

impl TextureResource {
    /// The loaded texture, if the load has completed.
    pub closed spec fn loaded(self) -> Option<Texture> {
        self.tex
    }

    pub closed spec fn placeholder(self) -> Texture {
        self.white_pixel
    }

    /// The texture this entry currently presents.
    pub open spec fn current_spec(self) -> Texture {
        match self.loaded() {
            Some(t) => t,
            None => self.placeholder(),
        }
    }

    pub fn new(white_pixel: Texture) -> (r: Self)
        ensures
            r.loaded() is None,
            r.placeholder() == white_pixel,
    {
        TextureResource { tex: None, white_pixel }
    }

    /// Install the loaded texture if none was installed yet. Returns the
    /// given texture back when the entry was already loaded (the first
    /// installation wins), and `None` when the installation took place.
    pub fn set_texture(&mut self, tex: Texture) -> (rejected: Option<Texture>)
        ensures
            old(self).loaded() is None ==> {
                &&& final(self).loaded() == Some(tex)
                &&& rejected is None
            },
            old(self).loaded() is Some ==> {
                &&& *final(self) == *old(self)
                &&& rejected == Some(tex)
            },
            final(self).placeholder() == old(self).placeholder(),
    {
        match self.tex {
            None => {
                self.tex = Some(tex);
                None
            },
            Some(_) => Some(tex),
        }
    }

    /// The texture to bind right now: the loaded texture, or the white
    /// pixel placeholder while the load is still in flight.
    pub fn current(&self) -> (t: Texture)
        ensures
            t == self.current_spec(),
    {
        match self.tex {
            Some(t) => t,
            None => self.white_pixel,
        }
    }

    /// The GPU image this entry currently presents.
    pub fn image(&self) -> (i: Image)
        ensures
            i == self.current_spec().image_spec(),
    {
        self.current().image()
    }
}

/// Slot of the first entry whose key equals `k`, if any. Keys are never
/// inserted twice, so the first match is the only one.
pub open spec fn find_texture(s: Seq<(Vec<u8>, TextureResource)>, k: Seq<u8>) -> Option<int>
    decreases s.len(),
{
    if s.len() == 0 {
        None
    } else if s[0].0@ == k {
        Some(0)
    } else {
        match find_texture(s.drop_first(), k) {
            Some(i) => Some(i + 1),
            None => None,
        }
    }
}

proof fn lemma_find_texture_hit(s: Seq<(Vec<u8>, TextureResource)>, k: Seq<u8>, i: int)
    requires
        0 <= i < s.len(),
        s[i].0@ == k,
        forall|j: int| 0 <= j < i ==> s[j].0@ != k,
    ensures
        find_texture(s, k) == Some(i),
    decreases i,
{
    if i > 0 {
        lemma_find_texture_hit(s.drop_first(), k, i - 1);
    }
}

proof fn lemma_find_texture_miss(s: Seq<(Vec<u8>, TextureResource)>, k: Seq<u8>)
    requires
        forall|j: int| 0 <= j < s.len() ==> s[j].0@ != k,
    ensures
        find_texture(s, k) is None,
    decreases s.len(),
{
    if s.len() > 0 {
        lemma_find_texture_miss(s.drop_first(), k);
    }
}

/// Copy a path so the cache can own its key.
fn copy_key(path: &Vec<u8>) -> (r: Vec<u8>)
    ensures
        r@ == path@,
{
    let n = path.len();
    let mut r: Vec<u8> = Vec::new();
    for i in 0..n
        invariant
            r@ =~= path@.take(i as int),
    {
        r.push(path[i]);
    }
    assert(r@ =~= path@);
    r
}

/// Instantiate a loaded model into a group: one fresh mesh per material,
/// each referencing the model's upload, drawing its material's index range
/// and binding its material's textures.
fn create_meshes(group: &mut MeshGroup, model: &Model) -> (r: Vec<Mesh>)
    requires
        old(group).wf(),
        model.wf(),
        old(group).next_id_spec() + model.mats@.len() <= u64::MAX,
    ensures
        meshes_appended(
            *old(group),
            *final(group),
            r@,
            model.mesh_data,
            model.mats@,
            old(group).white_pixel_spec(),
        ),
{
    let n = model.mats.len();
    let mut out: Vec<Mesh> = Vec::new();
    for k in 0..n
        invariant
            group.wf(),
            out@.len() == k,
            group.meshes_spec().len() == old(group).meshes_spec().len() + k,
            group.next_id_spec() == old(group).next_id_spec() + k,
            group.skybox_spec() == old(group).skybox_spec(),
            group.white_pixel_spec() == old(group).white_pixel_spec(),
            forall|j: int|
                0 <= j < old(group).meshes_spec().len() ==> #[trigger] group.meshes_spec()[j]
                    == old(group).meshes_spec()[j],
            forall|j: int|
                0 <= j < k ==> {
                    let mv = (#[trigger] group.meshes_spec()[old(group).meshes_spec().len() + j])@;
                    mv.id == out@[j].id_spec() && mesh_configured(
                        mv,
                        model.mesh_data,
                        model.mats@[j],
                        old(group).white_pixel_spec(),
                    )
                },
    {
        let mesh = Mesh::new(group);
        let id = mesh.id();
        match group.take_mesh(id) {
            Some(mut inner) => {
                inner.set_mesh_data(Some(model.mesh_data.duplicate()));
                inner.set_range(model.mats[k].range_start, model.mats[k].range_end);
                inner.set_tex(0, model.mats[k].tex1);
                inner.set_tex(1, model.mats[k].tex2);
                group.put_mesh(inner);
            },
            None => {
                proof {
                    assert(false);
                }
            },
        }
        out.push(mesh);
    }
    out
}

/// Compare two byte strings.
pub fn bytes_eq(a: &Vec<u8>, b: &Vec<u8>) -> (r: bool)
    ensures
        r <==> a@ == b@,
{
    if a.len() != b.len() {
        assert(a@ != b@);
        return false;
    }
    let n = a.len();
    for i in 0..n
        invariant
            n == a@.len(),
            n == b@.len(),
            forall|j: int| 0 <= j < i ==> a@[j] == b@[j],
    {
        if a[i] != b[i] {
            return false;
        }
    }
    assert(a@ =~= b@);
    true
}

/// One material of a loaded model: its slice of the model's index buffer
/// and its two textures, resolved against the texture cache when the model
/// was loaded.
pub struct Material {
    pub range_start: usize,
    pub range_end: usize,
    pub tex1: Texture,
    pub tex2: Texture,
}

/// A loaded model: the uploaded mesh data and its material table.
pub struct Model {
    pub mesh_data: MeshData,
    pub mats: Vec<Material>,
}

impl Model {
    pub open spec fn wf(self) -> bool {
        &&& self.mats@.len() <= 255
        &&& forall|k: int|
            0 <= k < self.mats@.len() ==> (#[trigger] self.mats@[k]).range_start
                <= self.mats@[k].range_end
    }
}

/// Slot of the first model entry whose key equals `k`, if any.
pub open spec fn find_model(s: Seq<(Vec<u8>, Model)>, k: Seq<u8>) -> Option<int>
    decreases s.len(),
{
    if s.len() == 0 {
        None
    } else if s[0].0@ == k {
        Some(0)
    } else {
        match find_model(s.drop_first(), k) {
            Some(i) => Some(i + 1),
            None => None,
        }
    }
}

proof fn lemma_find_model_hit(s: Seq<(Vec<u8>, Model)>, k: Seq<u8>, i: int)
    requires
        0 <= i < s.len(),
        s[i].0@ == k,
        forall|j: int| 0 <= j < i ==> s[j].0@ != k,
    ensures
        find_model(s, k) == Some(i),
    decreases i,
{
    if i > 0 {
        lemma_find_model_hit(s.drop_first(), k, i - 1);
    }
}

/// Resource cache idempotence: caching a model under a path that had none
/// makes every later lookup of that path find exactly the cached entry, so
/// a second `get_model` of the same path reuses the first call's upload
/// instead of decoding again.
pub proof fn lemma_model_cache_round_trip(s: Seq<(Vec<u8>, Model)>, e: (Vec<u8>, Model))
    requires
        find_model(s, e.0@) is None,
    ensures
        find_model(s.push(e), e.0@) == Some(s.len() as int),
        s.push(e)[s.len() as int] == e,
    decreases s.len(),
{
    if s.len() == 0 {
        assert(s.push(e)[0] == e);
    } else {
        assert(s.push(e)[0] == s[0]);
        assert(s.push(e).drop_first() =~= s.drop_first().push(e));
        lemma_model_cache_round_trip(s.drop_first(), e);
    }
}

proof fn lemma_find_model_miss(s: Seq<(Vec<u8>, Model)>, k: Seq<u8>)
    requires
        forall|j: int| 0 <= j < s.len() ==> s[j].0@ != k,
    ensures
        find_model(s, k) is None,
    decreases s.len(),
{
    if s.len() > 0 {
        lemma_find_model_miss(s.drop_first(), k);
    }
}

/// When a cache only grows at its end, every earlier lookup still finds
/// the same slot, and a key absent before is found only among the
/// appended entries.
proof fn lemma_find_texture_extend(
    s: Seq<(Vec<u8>, TextureResource)>,
    t: Seq<(Vec<u8>, TextureResource)>,
    k: Seq<u8>,
)
    requires
        s.len() <= t.len(),
        forall|j: int| 0 <= j < s.len() ==> t[j] == s[j],
    ensures
        match find_texture(s, k) {
            Some(i) => find_texture(t, k) == Some(i),
            None => match find_texture(t, k) {
                Some(j) => j >= s.len(),
                None => true,
            },
        },
    decreases s.len(),
{
    if s.len() == 0 {
        if find_texture(t, k) matches Some(j) {
            lemma_find_texture_nonneg(t, k);
        }
    } else {
        assert(t.len() > 0);
        assert(t[0] == s[0]);
        assert forall|j: int| 0 <= j < s.drop_first().len() implies t.drop_first()[j]
            == s.drop_first()[j] by {
            assert(t.drop_first()[j] == t[j + 1]);
            assert(s.drop_first()[j] == s[j + 1]);
        }
        lemma_find_texture_extend(s.drop_first(), t.drop_first(), k);
    }
}

proof fn lemma_find_texture_nonneg(s: Seq<(Vec<u8>, TextureResource)>, k: Seq<u8>)
    ensures
        match find_texture(s, k) {
            Some(i) => 0 <= i < s.len() && s[i].0@ == k,
            None => true,
        },
    decreases s.len(),
{
    if s.len() > 0 {
        lemma_find_texture_nonneg(s.drop_first(), k);
    }
}

/// The texture a material name resolves to, relative to a texture cache:
/// a cached entry presents its current texture, an unknown name the white
/// pixel placeholder (its entry is created and loads later).
pub open spec fn resolved_texture(
    cache: Seq<(Vec<u8>, TextureResource)>,
    wp: Texture,
    name: Seq<u8>,
    tex: Texture,
) -> bool {
    match find_texture(cache, name) {
        Some(t) => tex == cache[t].1.current_spec(),
        None => tex == wp,
    }
}

/// A mesh slot configured for one material of a model: it references the
/// model's upload, draws the material's index range, binds the material's
/// two textures on the first two layers and the placeholder on the rest.
pub open spec fn mesh_configured(mv: MeshView, md: MeshData, mat: Material, wp: Texture) -> bool {
    &&& mv.wf()
    &&& (mv.mesh_data matches Some(d) && d.handle_spec() == md.handle_spec()
        && d.vertices_spec() == md.vertices_spec() && same_indices(
        d.indices_spec(),
        md.indices_spec(),
    ) && d.topology_spec() == md.topology_spec())
    &&& mv.range_start == mat.range_start
    &&& mv.range_end == mat.range_end
    &&& mv.textures[0] == mat.tex1
    &&& mv.textures[1] == mat.tex2
    &&& forall|i: int| 2 <= i < LAYERS ==> mv.textures[i] == wp
    &&& mv.transform == Transform::identity()
}

/// What instantiating a model into a group leaves behind: one fresh mesh
/// per material appended to the registry, each configured for its
/// material, the rest of the registry untouched.
pub open spec fn meshes_appended(
    g0: MeshGroup,
    g1: MeshGroup,
    meshes: Seq<Mesh>,
    md: MeshData,
    mats: Seq<Material>,
    wp: Texture,
) -> bool {
    &&& meshes.len() == mats.len()
    &&& g1.meshes_spec().len() == g0.meshes_spec().len() + mats.len()
    &&& (forall|j: int|
        0 <= j < g0.meshes_spec().len() ==> #[trigger] g1.meshes_spec()[j]
            == g0.meshes_spec()[j])
    &&& (forall|k: int|
        0 <= k < mats.len() ==> {
            let mv = (#[trigger] g1.meshes_spec()[g0.meshes_spec().len() + k])@;
            mv.id == meshes[k].id_spec() && mesh_configured(mv, md, mats[k], wp)
        })
    &&& g1.next_id_spec() == g0.next_id_spec() + mats.len()
    &&& g1.skybox_spec() == g0.skybox_spec()
    &&& g1.white_pixel_spec() == g0.white_pixel_spec()
    &&& g1.wf()
}

/// What the model built from a well-formed nmdl byte string holds: the
/// upload carries the file's vertices and 32-bit indices as a triangle
/// list under the given fresh handle, and the material table carries the
/// file's ranges with its texture names resolved against the cache.
pub open spec fn model_decodes(
    m: Model,
    b: Seq<u8>,
    handle: u64,
    cache: Seq<(Vec<u8>, TextureResource)>,
    wp: Texture,
) -> bool {
    &&& m.mesh_data.handle_spec() == handle
    &&& m.mesh_data.topology_spec() == PrimitiveTopology::TriangleList
    &&& m.mesh_data.vertices_spec().len() == nmdl_vertex_count(b)
    &&& (forall|k: int|
        0 <= k < nmdl_vertex_count(b) ==> m.mesh_data.vertices_spec()[k] == nmdl_vertex_at(b, k))
    &&& (m.mesh_data.indices_spec() matches IndexBuffer::U32(v) && v@.len() == nmdl_index_count(b)
        && (forall|k: int| 0 <= k < nmdl_index_count(b) ==> v@[k] == nmdl_index_at(b, k)))
    &&& m.mats@.len() == nmdl_material_count(b)
    &&& (forall|k: int|
        0 <= k < nmdl_material_count(b) ==> {
            let mat = #[trigger] m.mats@[k];
            &&& mat.range_start == mat_range_start(b, k)
            &&& mat.range_end == mat_range_start(b, k + 1)
            &&& resolved_texture(cache, wp, mat_tex1_name(b, k), mat.tex1)
            &&& resolved_texture(cache, wp, mat_tex2_name(b, k), mat.tex2)
        })
}

/// Process-wide cache from an asset path to its loaded GPU resource, with
/// deduplication: the first request for a path creates the entry, every
/// later request reuses it.
pub struct Resources {
    sampler: u64,
    white_pixel: Texture,
    models: Vec<(Vec<u8>, Model)>,
    textures: Vec<(Vec<u8>, TextureResource)>,
}

impl Resources {
    pub closed spec fn sampler_spec(self) -> u64 {
        self.sampler
    }

    pub closed spec fn white_pixel_spec(self) -> Texture {
        self.white_pixel
    }

    pub closed spec fn textures_spec(self) -> Seq<(Vec<u8>, TextureResource)> {
        self.textures@
    }

    pub closed spec fn models_spec(self) -> Seq<(Vec<u8>, Model)> {
        self.models@
    }

    /// Every cached model is well formed.
    pub open spec fn models_wf(self) -> bool {
        forall|i: int| 0 <= i < self.models_spec().len() ==> (#[trigger] self.models_spec()[i]).1.wf()
    }

    /// Set up the shared sampler and upload the 1x1 white-pixel placeholder
    /// texture every new mesh layer starts out bound to.
    pub(crate) fn new(ctx: &mut Context) -> (r: Self)
        requires
            old(ctx).next_handle_spec() + 2 <= u64::MAX,
        ensures
            r.white_pixel_spec().image_spec().width == 1,
            r.white_pixel_spec().image_spec().height == 1,
            r.white_pixel_spec().image_spec().format == PixelFormat::R8g8b8a8Unorm,
            r.textures_spec().len() == 0,
            r.models_spec().len() == 0,
            r.models_wf(),
            final(ctx).next_handle_spec() == old(ctx).next_handle_spec() + 2,
            final(ctx).device_spec() == old(ctx).device_spec(),
            final(ctx).queue_spec() == old(ctx).queue_spec(),
    {
        let sampler = ctx.alloc_handle();
        let wp_handle = ctx.alloc_handle();
        let white_pixel = Texture::Immutable(
            ImmutableTexture::from_image(
                Image { handle: wp_handle, width: 1, height: 1, format: PixelFormat::R8g8b8a8Unorm },
            ),
        );
        Resources { sampler, white_pixel, models: Vec::new(), textures: Vec::new() }
    }

    /// The shared white-pixel placeholder texture.
    pub fn white_pixel(&self) -> (t: &Texture)
        ensures
            *t == self.white_pixel_spec(),
    {
        &self.white_pixel
    }

    /// Number of models the cache holds.
    pub fn model_count(&self) -> (n: usize)
        ensures
            n == self.models_spec().len(),
    {
        self.models.len()
    }

    /// Number of texture entries the cache holds.
    pub fn texture_count(&self) -> (n: usize)
        ensures
            n == self.textures_spec().len(),
    {
        self.textures.len()
    }

    pub(crate) fn sampler(&self) -> (s: u64)
        ensures
            s == self.sampler_spec(),
    {
        self.sampler
    }

    /// Find the cache slot of a path, if the path was requested before.
    fn texture_index(&self, path: &Vec<u8>) -> (r: Option<usize>)
        ensures
            find_texture(self.textures_spec(), path@) == match r {
                Some(i) => Some(i as int),
                None => None::<int>,
            },
            r matches Some(i) ==> i < self.textures_spec().len()
                && self.textures_spec()[i as int].0@ == path@,
    {
        let n = self.textures.len();
        for i in 0..n
            invariant
                n == self.textures@.len(),
                forall|j: int| 0 <= j < i ==> self.textures@[j].0@ != path@,
        {
            if bytes_eq(&self.textures[i].0, path) {
                proof {
                    lemma_find_texture_hit(self.textures@, path@, i as int);
                }
                return Some(i);
            }
        }
        proof {
            lemma_find_texture_miss(self.textures@, path@);
        }
        None
    }

    /// Find the cache slot of a model path, if the path was loaded before.
    fn model_index(&self, path: &Vec<u8>) -> (r: Option<usize>)
        ensures
            find_model(self.models_spec(), path@) == match r {
                Some(i) => Some(i as int),
                None => None::<int>,
            },
            r matches Some(i) ==> i < self.models_spec().len() && self.models_spec()[i as int].0@
                == path@,
    {
        let n = self.models.len();
        for i in 0..n
            invariant
                n == self.models@.len(),
                forall|j: int| 0 <= j < i ==> self.models@[j].0@ != path@,
        {
            if bytes_eq(&self.models[i].0, path) {
                proof {
                    lemma_find_model_hit(self.models@, path@, i as int);
                }
                return Some(i);
            }
        }
        proof {
            lemma_find_model_miss(self.models@, path@);
        }
        None
    }

    /// The texture cached for a path: on the first request a placeholder
    /// entry is created (its load is carried out elsewhere and installed
    /// through `set_texture_loaded`); every later request for the same path
    /// reuses that entry. Returns the texture the entry currently presents.
    pub fn get_texture(&mut self, path: &Vec<u8>) -> (t: Texture)
        ensures
            final(self).sampler_spec() == old(self).sampler_spec(),
            final(self).white_pixel_spec() == old(self).white_pixel_spec(),
            final(self).models_spec() == old(self).models_spec(),
            forall|j: int|
                0 <= j < old(self).textures_spec().len()
                    ==> #[trigger] final(self).textures_spec()[j] == old(self).textures_spec()[j],
            match find_texture(old(self).textures_spec(), path@) {
                Some(i) => {
                    &&& *final(self) == *old(self)
                    &&& t == old(self).textures_spec()[i].1.current_spec()
                },
                None => {
                    &&& final(self).textures_spec().len() == old(self).textures_spec().len() + 1
                    &&& final(self).textures_spec().last().0@ == path@
                    &&& final(self).textures_spec().last().1.loaded() is None
                    &&& final(self).textures_spec().last().1.placeholder() == old(
                        self,
                    ).white_pixel_spec()
                    &&& final(self).textures_spec().drop_last() == old(self).textures_spec()
                    &&& t == old(self).white_pixel_spec()
                },
            },
    {
        match self.texture_index(path) {
            Some(i) => self.textures[i].1.current(),
            None => {
                let res = TextureResource::new(self.white_pixel);
                let t = res.current();
                let key = copy_key(path);
                self.textures.push((key, res));
                t
            },
        }
    }

    /// The model cached for a path, instantiated into the group: the first
    /// request decodes the bytes, uploads the mesh data once and resolves
    /// the material textures; every later request for the same path reuses
    /// exactly that upload, without decoding again. Either way one mesh
    /// per material is created in the group, configured for its material.
    pub fn get_model(
        &mut self,
        ctx: &mut Context,
        group: &mut MeshGroup,
        path: &Vec<u8>,
        data: &Vec<u8>,
    ) -> (r: Result<Vec<Mesh>, ModelParseError>)
        requires
            old(self).models_wf(),
            old(group).wf(),
            old(ctx).next_handle_spec() < u64::MAX,
            old(group).next_id_spec() + 256 <= u64::MAX,
        ensures
            final(self).models_wf(),
            final(self).sampler_spec() == old(self).sampler_spec(),
            final(self).white_pixel_spec() == old(self).white_pixel_spec(),
            final(ctx).device_spec() == old(ctx).device_spec(),
            final(ctx).queue_spec() == old(ctx).queue_spec(),
            final(group).wf(),
            match find_model(old(self).models_spec(), path@) {
                Some(i) => {
                    &&& r is Ok
                    &&& *final(ctx) == *old(ctx)
                    &&& final(self).models_spec() == old(self).models_spec()
                    &&& final(self).textures_spec() == old(self).textures_spec()
                    &&& (r matches Ok(meshes) && meshes_appended(
                        *old(group),
                        *final(group),
                        meshes@,
                        old(self).models_spec()[i].1.mesh_data,
                        old(self).models_spec()[i].1.mats@,
                        old(group).white_pixel_spec(),
                    ))
                },
                None => {
                    &&& (r is Ok <==> nmdl_wf(data@))
                    &&& (!nmdl_wf(data@) ==> *final(self) == *old(self) && *final(group) == *old(
                        group,
                    ) && *final(ctx) == *old(ctx))
                    &&& (r matches Ok(meshes) ==> {
                        &&& final(self).models_spec().len() == old(self).models_spec().len() + 1
                        &&& final(self).models_spec().drop_last() == old(self).models_spec()
                        &&& final(self).models_spec().last().0@ == path@
                        &&& model_decodes(
                            final(self).models_spec().last().1,
                            data@,
                            old(ctx).next_handle_spec(),
                            old(self).textures_spec(),
                            old(self).white_pixel_spec(),
                        )
                        &&& final(ctx).next_handle_spec() == old(ctx).next_handle_spec() + 1
                        &&& (forall|j: int|
                            0 <= j < old(self).textures_spec().len()
                                ==> #[trigger] final(self).textures_spec()[j] == old(
                                self,
                            ).textures_spec()[j])
                        &&& final(self).textures_spec().len() >= old(self).textures_spec().len()
                        &&& (forall|j: int|
                            old(self).textures_spec().len() <= j
                                < final(self).textures_spec().len()
                                ==> (#[trigger] final(self).textures_spec()[j]).1.loaded() is None
                                && final(self).textures_spec()[j].1.placeholder() == old(
                                self,
                            ).white_pixel_spec())
                        &&& meshes_appended(
                            *old(group),
                            *final(group),
                            meshes@,
                            final(self).models_spec().last().1.mesh_data,
                            final(self).models_spec().last().1.mats@,
                            old(group).white_pixel_spec(),
                        )
                    })
                },
            },
    {
        match self.model_index(path) {
            Some(i) => {
                proof {
                    assert(self.models_spec()[i as int].1.wf());
                }
                let entry = &self.models[i];
                let meshes = create_meshes(group, &entry.1);
                Ok(meshes)
            },
            None => {
                match from_nice_model(data) {
                    Err(e) => Err(e),
                    Ok(parsed) => {
                        let crate::codecs::model::NiceModel { vertices, indices, materials } =
                            parsed;
                        let mesh_data = MeshData::new_u32(
                            ctx,
                            vertices,
                            indices,
                            PrimitiveTopology::TriangleList,
                        );
                        let ghost pre_self = *self;
                        let nmats = materials.len();
                        let mut mats: Vec<Material> = Vec::new();
                        for k in 0..nmats
                            invariant
                                self.sampler_spec() == pre_self.sampler_spec(),
                                self.white_pixel_spec() == pre_self.white_pixel_spec(),
                                self.models_spec() == pre_self.models_spec(),
                                self.textures_spec().len() >= pre_self.textures_spec().len(),
                                forall|j: int|
                                    0 <= j < pre_self.textures_spec().len()
                                        ==> #[trigger] self.textures_spec()[j]
                                        == pre_self.textures_spec()[j],
                                forall|j: int|
                                    pre_self.textures_spec().len() <= j
                                        < self.textures_spec().len() ==> (#[trigger] self
                                        .textures_spec()[j]).1.loaded() is None
                                        && self.textures_spec()[j].1.placeholder()
                                        == pre_self.white_pixel_spec(),
                                mats@.len() == k,
                                forall|j: int|
                                    0 <= j < k ==> {
                                        let mat = #[trigger] mats@[j];
                                        &&& mat.range_start == materials@[j].range_start
                                        &&& mat.range_end == materials@[j].range_end
                                        &&& resolved_texture(
                                            pre_self.textures_spec(),
                                            pre_self.white_pixel_spec(),
                                            materials@[j].tex1@,
                                            mat.tex1,
                                        )
                                        &&& resolved_texture(
                                            pre_self.textures_spec(),
                                            pre_self.white_pixel_spec(),
                                            materials@[j].tex2@,
                                            mat.tex2,
                                        )
                                    },
                        {
                            let ghost s1 = *self;
                            let ghost name1 = materials@[k as int].tex1@;
                            proof {
                                lemma_find_texture_extend(
                                    pre_self.textures_spec(),
                                    s1.textures_spec(),
                                    name1,
                                );
                                lemma_find_texture_nonneg(s1.textures_spec(), name1);
                                lemma_find_texture_nonneg(pre_self.textures_spec(), name1);
                            }
                            let t1 = self.get_texture(&materials[k].tex1);
                            proof {
                                match find_texture(pre_self.textures_spec(), name1) {
                                    Some(i) => {
                                        assert(s1.textures_spec()[i]
                                            == pre_self.textures_spec()[i]);
                                        assert(t1 == pre_self.textures_spec()[i].1.current_spec());
                                    },
                                    None => {
                                        match find_texture(s1.textures_spec(), name1) {
                                            Some(t) => {
                                                assert(t >= pre_self.textures_spec().len());
                                                assert(s1.textures_spec()[t].1.loaded() is None);
                                                assert(t1 == pre_self.white_pixel_spec());
                                            },
                                            None => {
                                                assert(t1 == s1.white_pixel_spec());
                                            },
                                        }
                                    },
                                }
                                assert(resolved_texture(
                                    pre_self.textures_spec(),
                                    pre_self.white_pixel_spec(),
                                    name1,
                                    t1,
                                ));
                                assert forall|j: int|
                                    pre_self.textures_spec().len() <= j
                                        < self.textures_spec().len() implies (#[trigger] self
                                    .textures_spec()[j]).1.loaded() is None
                                    && self.textures_spec()[j].1.placeholder()
                                    == pre_self.white_pixel_spec() by {
                                    if j < s1.textures_spec().len() {
                                        assert(self.textures_spec()[j] == s1.textures_spec()[j]);
                                    } else {
                                        assert(j == self.textures_spec().len() - 1);
                                        assert(self.textures_spec()[j] == self.textures_spec().last());
                                    }
                                }
                            }
                            let ghost s2 = *self;
                            let ghost name2 = materials@[k as int].tex2@;
                            proof {
                                lemma_find_texture_extend(
                                    pre_self.textures_spec(),
                                    s2.textures_spec(),
                                    name2,
                                );
                                lemma_find_texture_nonneg(s2.textures_spec(), name2);
                                lemma_find_texture_nonneg(pre_self.textures_spec(), name2);
                            }
                            let t2 = self.get_texture(&materials[k].tex2);
                            proof {
                                match find_texture(pre_self.textures_spec(), name2) {
                                    Some(i) => {
                                        assert(s2.textures_spec()[i]
                                            == pre_self.textures_spec()[i]);
                                        assert(t2 == pre_self.textures_spec()[i].1.current_spec());
                                    },
                                    None => {
                                        match find_texture(s2.textures_spec(), name2) {
                                            Some(t) => {
                                                assert(t >= pre_self.textures_spec().len());
                                                assert(s2.textures_spec()[t].1.loaded() is None);
                                                assert(t2 == pre_self.white_pixel_spec());
                                            },
                                            None => {
                                                assert(t2 == s2.white_pixel_spec());
                                            },
                                        }
                                    },
                                }
                                assert(resolved_texture(
                                    pre_self.textures_spec(),
                                    pre_self.white_pixel_spec(),
                                    name2,
                                    t2,
                                ));
                                assert forall|j: int|
                                    pre_self.textures_spec().len() <= j
                                        < self.textures_spec().len() implies (#[trigger] self
                                    .textures_spec()[j]).1.loaded() is None
                                    && self.textures_spec()[j].1.placeholder()
                                    == pre_self.white_pixel_spec() by {
                                    if j < s2.textures_spec().len() {
                                        assert(self.textures_spec()[j] == s2.textures_spec()[j]);
                                    } else {
                                        assert(j == self.textures_spec().len() - 1);
                                        assert(self.textures_spec()[j] == self.textures_spec().last());
                                    }
                                }
                            }
                            mats.push(
                                Material {
                                    range_start: materials[k].range_start,
                                    range_end: materials[k].range_end,
                                    tex1: t1,
                                    tex2: t2,
                                },
                            );
                        }
                        let model = Model { mesh_data, mats };
                        proof {
                            assert(model.wf()) by {
                                assert forall|j: int| 0 <= j < model.mats@.len() implies (
                                #[trigger] model.mats@[j]).range_start
                                    <= model.mats@[j].range_end by {
                                    assert(materials@[j].decodes(data@, j));
                                }
                            }
                        }
                        let meshes = create_meshes(group, &model);
                        let key = copy_key(path);
                        let ghost pre_models = self.models@;
                        self.models.push((key, model));
                        proof {
                            assert(self.models@.drop_last() =~= pre_models);
                        }
                        Ok(meshes)
                    },
                }
            },
        }
    }

    /// Install the loaded texture for a path's cache entry, if the entry
    /// exists and was not loaded yet; the first installation wins. Returns
    /// whether the installation took place.
    pub fn set_texture_loaded(&mut self, path: &Vec<u8>, tex: Texture) -> (installed: bool)
        ensures
            final(self).sampler_spec() == old(self).sampler_spec(),
            final(self).white_pixel_spec() == old(self).white_pixel_spec(),
            final(self).models_spec() == old(self).models_spec(),
            match find_texture(old(self).textures_spec(), path@) {
                Some(i) => {
                    &&& installed <==> old(self).textures_spec()[i].1.loaded() is None
                    &&& final(self).textures_spec().len() == old(self).textures_spec().len()
                    &&& (installed ==> final(self).textures_spec()[i].1.loaded() == Some(tex))
                    &&& (!installed ==> final(self).textures_spec()[i].1 == old(
                        self,
                    ).textures_spec()[i].1)
                    &&& final(self).textures_spec()[i].0 == old(self).textures_spec()[i].0
                    &&& forall|j: int|
                        0 <= j < final(self).textures_spec().len() && j != i
                            ==> final(self).textures_spec()[j] == old(self).textures_spec()[j]
                },
                None => *final(self) == *old(self),
            },
    {
        match self.texture_index(path) {
            Some(i) => {
                let ghost pre = self.textures@;
                let mut entry = self.textures.remove(i);
                let rejected = entry.1.set_texture(tex);
                let installed = rejected.is_none();
                self.textures.insert(i, entry);
                proof {
                    assert(self.textures@.len() == pre.len());
                    assert(forall|j: int|
                        0 <= j < pre.len() && j != i ==> self.textures@[j] == pre[j]);
                }
                installed
            },
            None => false,
        }
    }
}

} // verus!
