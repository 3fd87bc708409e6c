use vstd::prelude::*;
use crate::mesh::{desc_of, MeshInner, MeshView};
use crate::resources::Resources;
use crate::texture::Texture;

verus! {

/// No id occurs twice.
pub open spec fn distinct_ids(ids: Seq<u64>) -> bool {
    forall|i: int, j: int| 0 <= i < j < ids.len() ==> ids[i] != ids[j]
}

/// The id sequence with the first occurrence of `id` removed.
pub open spec fn remove_id_seq(ids: Seq<u64>, id: u64) -> Seq<u64>
    decreases ids.len(),
{
    if ids.len() == 0 {
        ids
    } else if ids[0] == id {
        ids.drop_first()
    } else {
        seq![ids[0]] + remove_id_seq(ids.drop_first(), id)
    }
}

proof fn lemma_remove_id_contains(ids: Seq<u64>, id: u64, x: u64)
    requires
        distinct_ids(ids),
    ensures
        remove_id_seq(ids, id).contains(x) <==> (ids.contains(x) && x != id),
    decreases ids.len(),
{
    if ids.len() > 0 {
        assert(distinct_ids(ids.drop_first()));
        lemma_remove_id_contains(ids.drop_first(), id, x);
        if ids[0] == id {
            if ids.drop_first().contains(x) {
                let k = choose|k: int|
                    0 <= k < ids.drop_first().len() && ids.drop_first()[k] == x;
                assert(ids[k + 1] == x);
                assert(ids[0] != ids[k + 1]);
                assert(ids.contains(x) && x != id);
            }
            if ids.contains(x) && x != id {
                let j = choose|j: int| 0 <= j < ids.len() && ids[j] == x;
                assert(j >= 1);
                assert(ids.drop_first()[j - 1] == x);
                assert(ids.drop_first().contains(x));
            }
        } else {
            let rest = remove_id_seq(ids.drop_first(), id);
            let combined = seq![ids[0]] + rest;
            assert(combined[0] == ids[0]);
            if combined.contains(x) {
                let j = choose|j: int| 0 <= j < combined.len() && combined[j] == x;
                if j >= 1 {
                    assert(rest[j - 1] == x);
                    assert(rest.contains(x));
                }
            }
            if ids.contains(x) && x != id {
                let j = choose|j: int| 0 <= j < ids.len() && ids[j] == x;
                if j == 0 {
                    assert(combined.contains(x));
                } else {
                    assert(ids.drop_first()[j - 1] == x);
                    assert(ids.drop_first().contains(x));
                    let k = choose|k: int| 0 <= k < rest.len() && rest[k] == x;
                    assert(combined[k + 1] == x);
                    assert(combined.contains(x));
                }
            }
        }
    }
}

proof fn lemma_remove_id_distinct(ids: Seq<u64>, id: u64)
    requires
        distinct_ids(ids),
    ensures
        distinct_ids(remove_id_seq(ids, id)),
        remove_id_seq(ids, id).len() <= ids.len(),
        forall|i: int|
            0 <= i < remove_id_seq(ids, id).len() ==> ids.contains(
                #[trigger] remove_id_seq(ids, id)[i],
            ),
    decreases ids.len(),
{
    if ids.len() > 0 {
        assert(distinct_ids(ids.drop_first()));
        lemma_remove_id_distinct(ids.drop_first(), id);
        if ids[0] != id {
            let rest = remove_id_seq(ids.drop_first(), id);
            let combined = seq![ids[0]] + rest;
            assert forall|i: int| 0 <= i < combined.len() implies ids.contains(
                #[trigger] combined[i],
            ) by {
                if i == 0 {
                    assert(ids[0] == combined[0]);
                } else {
                    assert(rest[i - 1] == combined[i]);
                    assert(ids.drop_first().contains(combined[i]));
                    let k = choose|k: int|
                        0 <= k < ids.drop_first().len() && ids.drop_first()[k] == combined[i];
                    assert(ids[k + 1] == combined[i]);
                }
            }
            assert forall|i: int, j: int| 0 <= i < j < combined.len() implies combined[i]
                != combined[j] by {
                if i == 0 {
                    assert(rest[j - 1] == combined[j]);
                    assert(ids.drop_first().contains(combined[j]));
                    let k = choose|k: int|
                        0 <= k < ids.drop_first().len() && ids.drop_first()[k] == combined[j];
                    assert(ids[k + 1] == combined[j]);
                    assert(ids[0] != ids[k + 1]);
                } else {
                    assert(rest[i - 1] == combined[i] && rest[j - 1] == combined[j]);
                }
            }
        }
    }
}

pub proof fn lemma_remove_id_absent(ids: Seq<u64>, id: u64)
    requires
        !ids.contains(id),
    ensures
        remove_id_seq(ids, id) == ids,
    decreases ids.len(),
{
    if ids.len() > 0 {
        assert(ids[0] != id);
        assert forall|x: u64| ids.drop_first().contains(x) implies ids.contains(x) by {
            let k = choose|k: int| 0 <= k < ids.drop_first().len() && ids.drop_first()[k] == x;
            assert(ids[k + 1] == x);
        }
        lemma_remove_id_absent(ids.drop_first(), id);
        assert(seq![ids[0]] + ids.drop_first() =~= ids);
    }
}

proof fn lemma_remove_at_is_remove_id(ids: Seq<u64>, i: int)
    requires
        distinct_ids(ids),
        0 <= i < ids.len(),
    ensures
        ids.remove(i) =~= remove_id_seq(ids, ids[i]),
    decreases i,
{
    if i == 0 {
        assert(ids.remove(0) =~= ids.drop_first());
    } else {
        assert(distinct_ids(ids.drop_first()));
        lemma_remove_at_is_remove_id(ids.drop_first(), i - 1);
        assert(ids[0] != ids[i]);
        assert(ids.drop_first()[i - 1] == ids[i]);
        assert(ids.remove(i) =~= seq![ids[0]] + ids.drop_first().remove(i - 1));
    }
}

/// The registry of one scene: every live mesh created against this group
/// has exactly one slot here, keyed by a per-group monotonically increasing
/// id; the slot is removed exactly when the mesh is destroyed. The group
/// also carries the scene's skybox binding.
pub struct MeshGroup {
    next_id: u64,
    meshes: Vec<MeshInner>,
    skybox: u64,
    white_pixel: Texture,
}

impl MeshGroup {
    pub closed spec fn next_id_spec(self) -> u64 {
        self.next_id
    }

    pub closed spec fn meshes_spec(self) -> Seq<MeshInner> {
        self.meshes@
    }

    /// Image handle the skybox descriptor references.
    pub closed spec fn skybox_spec(self) -> u64 {
        self.skybox
    }

    pub closed spec fn white_pixel_spec(self) -> Texture {
        self.white_pixel
    }

    /// The ids of the currently registered meshes, in registry order.
    pub open spec fn ids(self) -> Seq<u64> {
        self.meshes_spec().map_values(|m: MeshInner| m@.id)
    }

    pub open spec fn contains_id_spec(self, id: u64) -> bool {
        self.ids().contains(id)
    }

    pub open spec fn wf(self) -> bool {
        &&& distinct_ids(self.ids())
        &&& forall|i: int|
            0 <= i < self.meshes_spec().len() ==> (#[trigger] self.meshes_spec()[i])@.wf()
                && self.meshes_spec()[i]@.id < self.next_id_spec()
    }

    /// A new, empty scene whose skybox starts out bound to the white pixel.
    pub fn new(resources: &Resources) -> (g: Self)
        ensures
            g.wf(),
            g.meshes_spec().len() == 0,
            g.next_id_spec() == 0,
            g.skybox_spec() == resources.white_pixel_spec().image_spec().handle,
            g.white_pixel_spec() == resources.white_pixel_spec(),
    {
        let white_pixel = *resources.white_pixel();
        let skybox = white_pixel.image().handle;
        MeshGroup { next_id: 0, meshes: Vec::new(), skybox, white_pixel }
    }

    /// Rebuild the skybox descriptor from the given texture, or from the
    /// white pixel when none is given.
    pub fn set_skybox(&mut self, skybox: Option<&Texture>)
        ensures
            final(self).skybox_spec() == match skybox {
                Some(t) => t.image_spec().handle,
                None => old(self).white_pixel_spec().image_spec().handle,
            },
            final(self).next_id_spec() == old(self).next_id_spec(),
            final(self).meshes_spec() == old(self).meshes_spec(),
            final(self).white_pixel_spec() == old(self).white_pixel_spec(),
    {
        self.skybox = match skybox {
            Some(t) => t.image().handle,
            None => self.white_pixel.image().handle,
        };
    }

    /// The image handle the skybox descriptor currently references.
    pub fn skybox(&self) -> (s: u64)
        ensures
            s == self.skybox_spec(),
    {
        self.skybox
    }

    pub fn white_pixel(&self) -> (t: Texture)
        ensures
            t == self.white_pixel_spec(),
    {
        self.white_pixel
    }

    pub fn len(&self) -> (n: usize)
        ensures
            n == self.meshes_spec().len(),
    {
        self.meshes.len()
    }

    pub fn mesh_at(&self, i: usize) -> (m: &MeshInner)
        requires
            i < self.meshes_spec().len(),
        ensures
            *m == self.meshes_spec()[i as int],
    {
        &self.meshes[i]
    }

    /// Registry slot currently holding the mesh with this id.
    fn index_of(&self, id: u64) -> (r: Option<usize>)
        ensures
            match r {
                Some(i) => i < self.meshes_spec().len() && self.meshes_spec()[i as int]@.id == id,
                None => !self.contains_id_spec(id),
            },
    {
        let n = self.meshes.len();
        for i in 0..n
            invariant
                n == self.meshes@.len(),
                forall|j: int| 0 <= j < i ==> (#[trigger] self.meshes@[j])@.id != id,
        {
            if self.meshes[i].id() == id {
                return Some(i);
            }
        }
        proof {
            assert forall|j: int| 0 <= j < self.ids().len() implies self.ids()[j] != id by {
                assert(self.ids()[j] == self.meshes@[j]@.id);
            }
        }
        None
    }

    pub fn contains_id(&self, id: u64) -> (r: bool)
        ensures
            r <==> self.contains_id_spec(id),
    {
        proof {
            if self.contains_id_spec(id) {
                let j = choose|j: int| 0 <= j < self.ids().len() && self.ids()[j] == id;
                assert(self.meshes_spec()[j]@.id == id);
            }
        }
        match self.index_of(id) {
            Some(_) => {
                proof {
                    let i = choose|i: int|
                        0 <= i < self.meshes_spec().len() && self.meshes_spec()[i]@.id == id;
                    assert(self.ids()[i] == id);
                }
                true
            },
            None => false,
        }
    }

    /// Take the mesh with this id out of the registry, to mutate it and put
    /// it back; also how a destroyed mesh's slot is removed.
    pub fn take_mesh(&mut self, id: u64) -> (r: Option<MeshInner>)
        requires
            old(self).wf(),
        ensures
            final(self).wf(),
            final(self).next_id_spec() == old(self).next_id_spec(),
            final(self).skybox_spec() == old(self).skybox_spec(),
            final(self).white_pixel_spec() == old(self).white_pixel_spec(),
            match r {
                Some(m) => {
                    &&& old(self).contains_id_spec(id)
                    &&& m@.id == id
                    &&& m@.wf()
                    &&& old(self).meshes_spec().contains(m)
                    &&& final(self).ids() == remove_id_seq(old(self).ids(), id)
                    &&& forall|x: u64|
                        final(self).contains_id_spec(x) <==> (old(self).contains_id_spec(x) && x
                            != id)
                    &&& (old(self).ids().len() > 0 && old(self).ids().last() == id
                        ==> final(self).meshes_spec() == old(self).meshes_spec().drop_last() && m
                        == old(self).meshes_spec().last())
                },
                None => {
                    &&& !old(self).contains_id_spec(id)
                    &&& *final(self) == *old(self)
                },
            },
    {
        proof {
            if self.contains_id_spec(id) {
                let j = choose|j: int| 0 <= j < self.ids().len() && self.ids()[j] == id;
                assert(self.meshes_spec()[j]@.id == id);
            }
        }
        match self.index_of(id) {
            Some(i) => {
                let ghost pre = self.meshes@;
                let m = self.meshes.remove(i);
                proof {
                    assert(self.meshes@ =~= pre.remove(i as int));
                    let pre_ids0 = pre.map_values(|mm: MeshInner| mm@.id);
                    if pre_ids0.len() > 0 && pre_ids0.last() == id {
                        assert(pre_ids0[i as int] == pre[i as int]@.id);
                        if i as int != pre_ids0.len() - 1 {
                            assert(pre_ids0[i as int] != pre_ids0[pre_ids0.len() - 1]);
                        }
                        assert(i as int == pre_ids0.len() - 1);
                        assert(self.meshes@ =~= pre.drop_last());
                    }
                    assert(pre.contains(m)) by {
                        assert(pre[i as int] == m);
                    }
                    let pre_ids = pre.map_values(|mm: MeshInner| mm@.id);
                    assert(self.ids() =~= pre_ids.remove(i as int));
                    lemma_remove_at_is_remove_id(pre_ids, i as int);
                    lemma_remove_id_distinct(pre_ids, id);
                    assert forall|x: u64| self.contains_id_spec(x) implies (pre_ids.contains(x) && x
                        != id) by {
                        lemma_remove_id_contains(pre_ids, id, x);
                    }
                    assert forall|x: u64| pre_ids.contains(x) && x != id implies self
                        .contains_id_spec(x) by {
                        lemma_remove_id_contains(pre_ids, id, x);
                    }
                    assert forall|j: int| 0 <= j < self.meshes@.len() implies (
                    #[trigger] self.meshes@[j])@.wf() && self.meshes@[j]@.id
                        < self.next_id_spec() by {
                        if j < i {
                            assert(self.meshes@[j] == pre[j]);
                        } else {
                            assert(self.meshes@[j] == pre[j + 1]);
                        }
                    }
                }
                Some(m)
            },
            None => None,
        }
    }

    /// Put a mesh taken from this registry back under its id.
    pub fn put_mesh(&mut self, m: MeshInner)
        requires
            old(self).wf(),
            m@.wf(),
            m@.id < old(self).next_id_spec(),
            !old(self).contains_id_spec(m@.id),
        ensures
            final(self).wf(),
            final(self).meshes_spec() == old(self).meshes_spec().push(m),
            final(self).ids() == old(self).ids().push(m@.id),
            final(self).next_id_spec() == old(self).next_id_spec(),
            final(self).skybox_spec() == old(self).skybox_spec(),
            final(self).white_pixel_spec() == old(self).white_pixel_spec(),
            forall|x: u64|
                final(self).contains_id_spec(x) <==> (old(self).contains_id_spec(x) || x == m@.id),
    {
        let ghost pre = self.meshes@;
        let ghost pre_ids = self.ids();
        self.meshes.push(m);
        proof {
            assert(self.meshes@ =~= pre.push(m));
            assert(self.ids() =~= pre_ids.push(m@.id));
            assert forall|i: int, j: int| 0 <= i < j < self.ids().len() implies self.ids()[i]
                != self.ids()[j] by {
                if j < pre_ids.len() {
                    assert(pre_ids[i] != pre_ids[j]);
                } else {
                    assert(self.ids()[j] == m@.id);
                    if pre_ids.contains(m@.id) {
                    }
                    assert(pre_ids[i] == self.ids()[i]);
                    if self.ids()[i] == m@.id {
                        assert(pre_ids.contains(m@.id));
                    }
                }
            }
            assert forall|x: u64| self.contains_id_spec(x) implies (old(self).contains_id_spec(x)
                || x == m@.id) by {
                let j = choose|j: int| 0 <= j < self.ids().len() && self.ids()[j] == x;
                if j < pre_ids.len() {
                    assert(pre_ids[j] == x);
                }
            }
            assert forall|x: u64| old(self).contains_id_spec(x) || x == m@.id implies self
                .contains_id_spec(x) by {
                if old(self).contains_id_spec(x) {
                    let j = choose|j: int| 0 <= j < pre_ids.len() && pre_ids[j] == x;
                    assert(self.ids()[j] == x);
                } else {
                    assert(self.ids().last() == m@.id);
                }
            }
        }
    }

    /// Allocate the id for a mesh about to register itself.
    pub(crate) fn alloc_id(&mut self) -> (id: u64)
        requires
            old(self).next_id_spec() < u64::MAX,
        ensures
            id == old(self).next_id_spec(),
            final(self).next_id_spec() == old(self).next_id_spec() + 1,
            final(self).meshes_spec() == old(self).meshes_spec(),
            final(self).skybox_spec() == old(self).skybox_spec(),
            final(self).white_pixel_spec() == old(self).white_pixel_spec(),
            old(self).wf() ==> final(self).wf(),
            old(self).wf() ==> !final(self).contains_id_spec(id),
    {
        let id = self.next_id;
        self.next_id = self.next_id + 1;
        proof {
            if old(self).wf() && self.contains_id_spec(id) {
                let j = choose|j: int| 0 <= j < self.ids().len() && self.ids()[j] == id;
                assert(self.meshes_spec()[j]@.id == id);
                assert(self.meshes_spec()[j]@.id < old(self).next_id_spec());
            }
        }
        id
    }

    /// Reconcile every registered mesh's cached descriptors with its current
    /// textures, immediately before the group is drawn.
    pub fn refresh_all(&mut self)
        requires
            old(self).wf(),
        ensures
            final(self).wf(),
            final(self).next_id_spec() == old(self).next_id_spec(),
            final(self).skybox_spec() == old(self).skybox_spec(),
            final(self).white_pixel_spec() == old(self).white_pixel_spec(),
            final(self).meshes_spec().len() == old(self).meshes_spec().len(),
            forall|i: int|
                0 <= i < old(self).meshes_spec().len()
                    ==> (#[trigger] final(self).meshes_spec()[i])@ == (MeshView {
                    desc: desc_of(old(self).meshes_spec()[i]@.textures),
                    ..old(self).meshes_spec()[i]@
                }),
    {
        let n = self.meshes.len();
        let ghost g0 = *self;
        for i in 0..n
            invariant
                g0.wf(),
                n == self.meshes@.len(),
                g0.meshes_spec().len() == n,
                self.next_id_spec() == g0.next_id_spec(),
                self.skybox_spec() == g0.skybox_spec(),
                self.white_pixel_spec() == g0.white_pixel_spec(),
                forall|j: int| i <= j < n ==> (#[trigger] self.meshes@[j]) == g0.meshes_spec()[j],
                forall|j: int|
                    0 <= j < i ==> (#[trigger] self.meshes@[j])@ == (MeshView {
                        desc: desc_of(g0.meshes_spec()[j]@.textures),
                        ..g0.meshes_spec()[j]@
                    }),
        {
            let ghost before = self.meshes@;
            let mut m = self.meshes.remove(i);
            m.refresh();
            self.meshes.insert(i, m);
            proof {
                assert(self.meshes@ =~= before.update(i as int, m));
            }
        }
        proof {
            assert(g0 == *old(self));
            assert forall|j: int| 0 <= j < n implies (#[trigger] self.ids()[j]) == g0.ids()[j] by {
                assert(self.meshes@[j]@.id == g0.meshes_spec()[j]@.id);
            }
            assert(self.ids() =~= g0.ids());
            assert forall|j: int| 0 <= j < n implies (#[trigger] self.meshes_spec()[j])@.wf()
                && self.meshes_spec()[j]@.id < self.next_id_spec() by {
                assert(self.meshes@[j]@ == (MeshView {
                    desc: desc_of(g0.meshes_spec()[j]@.textures),
                    ..g0.meshes_spec()[j]@
                }));
                assert(g0.meshes_spec()[j]@.wf());
            }
        }
    }
}

/// The operations on a group that the registration rules quantify over.
pub enum GroupEvent {
    Create,
    Destroy { id: u64 },
}

/// How each event transforms the registry's id list and id counter; mirrors
/// what `Mesh::new` and `Mesh::destroy` do. A group whose counter is
/// exhausted admits no further creation.
pub open spec fn apply_group_event(ids: Seq<u64>, next: u64, e: GroupEvent) -> (Seq<u64>, u64) {
    match e {
        GroupEvent::Create => if next == u64::MAX {
            (ids, next)
        } else {
            (ids.push(next), (next + 1) as u64)
        },
        GroupEvent::Destroy { id } => (remove_id_seq(ids, id), next),
    }
}

pub open spec fn apply_group_events(ids: Seq<u64>, next: u64, evs: Seq<GroupEvent>) -> (
    Seq<u64>,
    u64,
)
    decreases evs.len(),
{
    if evs.len() == 0 {
        (ids, next)
    } else {
        let (ids1, next1) = apply_group_events(ids, next, evs.drop_last());
        apply_group_event(ids1, next1, evs.last())
    }
}

/// The set of ids that should be live after the events: created ids enter,
/// destroyed ids leave.
pub open spec fn live_ids_after(live: Set<u64>, next: u64, evs: Seq<GroupEvent>) -> (Set<u64>, u64)
    decreases evs.len(),
{
    if evs.len() == 0 {
        (live, next)
    } else {
        let (live1, next1) = live_ids_after(live, next, evs.drop_last());
        match evs.last() {
            GroupEvent::Create => if next1 == u64::MAX {
                (live1, next1)
            } else {
                (live1.insert(next1), (next1 + 1) as u64)
            },
            GroupEvent::Destroy { id } => (live1.remove(id), next1),
        }
    }
}

/// Mesh registration invariant: for every interleaving of mesh creations
/// and destructions, the registry holds exactly the set of currently-live
/// ids — one slot per live mesh, no leaked slot after a destruction, no
/// duplicate slots, and no id at or above the allocation counter.
pub proof fn lemma_mesh_registration(ids: Seq<u64>, next: u64, evs: Seq<GroupEvent>)
    requires
        distinct_ids(ids),
        forall|i: int| 0 <= i < ids.len() ==> ids[i] < next,
    ensures
        ({
            let (ids2, next2) = apply_group_events(ids, next, evs);
            let (live2, lnext2) = live_ids_after(ids.to_set(), next, evs);
            &&& next2 == lnext2
            &&& distinct_ids(ids2)
            &&& forall|i: int| 0 <= i < ids2.len() ==> ids2[i] < next2
            &&& forall|x: u64| ids2.contains(x) <==> live2.contains(x)
        }),
    decreases evs.len(),
{
    if evs.len() == 0 {
        assert forall|x: u64| ids.contains(x) <==> ids.to_set().contains(x) by {
            ids.to_set();
        }
        assert(forall|x: u64| ids.contains(x) <==> ids.to_set().contains(x));
    } else {
        lemma_mesh_registration(ids, next, evs.drop_last());
        let (ids1, next1) = apply_group_events(ids, next, evs.drop_last());
        let (live1, _) = live_ids_after(ids.to_set(), next, evs.drop_last());
        match evs.last() {
            GroupEvent::Create => {
                if next1 != u64::MAX {
                    let ids2 = ids1.push(next1);
                    assert forall|i: int, j: int| 0 <= i < j < ids2.len() implies ids2[i]
                        != ids2[j] by {
                        if j < ids1.len() {
                            assert(ids1[i] != ids1[j]);
                        } else {
                            assert(ids2[j] == next1);
                            assert(ids2[i] == ids1[i] && ids1[i] < next1);
                        }
                    }
                    assert forall|x: u64| ids2.contains(x) implies live1.insert(next1).contains(
                        x,
                    ) by {
                        let j = choose|j: int| 0 <= j < ids2.len() && ids2[j] == x;
                        if j < ids1.len() {
                            assert(ids1[j] == x);
                        }
                    }
                    assert forall|x: u64| live1.insert(next1).contains(x) implies ids2.contains(
                        x,
                    ) by {
                        if live1.contains(x) {
                            let j = choose|j: int| 0 <= j < ids1.len() && ids1[j] == x;
                            assert(ids2[j] == x);
                        } else {
                            assert(ids2.last() == next1);
                        }
                    }
                }
            },
            GroupEvent::Destroy { id } => {
                lemma_remove_id_distinct(ids1, id);
                assert forall|i: int| 0 <= i < remove_id_seq(ids1, id).len() implies remove_id_seq(
                    ids1,
                    id,
                )[i] < next1 by {
                    assert(ids1.contains(remove_id_seq(ids1, id)[i]));
                    let k = choose|k: int|
                        0 <= k < ids1.len() && ids1[k] == remove_id_seq(ids1, id)[i];
                }
                assert forall|x: u64|
                    remove_id_seq(ids1, id).contains(x) <==> live1.remove(id).contains(x) by {
                    lemma_remove_id_contains(ids1, id, x);
                }
            },
        }
    }
}

} // verus!
