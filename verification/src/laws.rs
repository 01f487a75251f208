//! The engine's cross-operation guarantees, stated once and proved from
//! the operations' contracts.

use vstd::prelude::*;

use crate::geometry::Geometry;
use crate::kv::{
    kv_contains, kv_distinct_keys, kv_get, kv_index_of, kv_insert, kv_keys, kv_remove,
    lemma_kv_index_of, lemma_kv_index_of_same_keys, lemma_kv_insert, lemma_kv_remove_order,
};
use crate::lighting::{DirectionalLight, PointLight, SpotLight};
use crate::loader::GeometryLoader;
use crate::material::Material;
use crate::renderer::Renderer;
use crate::resource::Id;
use crate::scene::{
    cache_view, directional_light_record, insert_post, material_pipeline_key, normal_handle_of,
    packed_directional_lights, packed_point_lights, packed_spot_lights, point_light_record,
    splice, spot_light_record, transform_handle_of, transform_update_post, update_geometry_post,
    Scene, Subject,
};
use crate::texture::Texture;
use crate::units::{Quat, Vec3};

verus! {

/// Inserting a resource into a loader and then resolving its id returns
/// exactly the value that was inserted.
pub proof fn lemma_loader_round_trip(
    before: GeometryLoader,
    after: GeometryLoader,
    geometry: Geometry,
)
    requires
        after.entries@ == kv_insert(before.entries@, geometry.id, geometry),
    ensures
        kv_get(after.entries@, geometry.id) == Some(geometry),
{
    lemma_kv_insert(before.entries@, geometry.id, geometry);
}

/// Swapping the same geometry into a node twice is idempotent: the second
/// call leaves the subject's vertex and index buffer contents, and its
/// position in draw order, exactly as the first call left them.
pub proof fn lemma_update_geometry_idempotent(
    s0: Scene,
    s1: Scene,
    s2: Scene,
    r0: Renderer,
    r1: Renderer,
    r2: Renderer,
    g: Geometry,
    oid: Id,
)
    requires
        update_geometry_post(s0, s1, r0, r1, g, oid),
        update_geometry_post(s1, s2, r1, r2, g, oid),
    ensures
        kv_keys(s2.subjects@) == kv_keys(s1.subjects@),
        kv_index_of(s2.subjects@, oid) == kv_index_of(s1.subjects@, oid),
        kv_contains(s0.subjects@, oid) ==> {
            let sub1 = kv_get(s1.subjects@, oid).unwrap();
            let sub2 = kv_get(s2.subjects@, oid).unwrap();
            &&& sub2.vertices.words@ == sub1.vertices.words@
            &&& sub2.vertex_count == sub1.vertex_count
            &&& sub2.indices.words@ == sub1.indices.words@
            &&& sub2.index_count == sub1.index_count
        },
{
    if kv_contains(s0.subjects@, oid) {
        assert(kv_get(s1.subjects@, oid) is Some);
        assert(kv_contains(s1.subjects@, oid));
        lemma_kv_index_of_same_keys(s2.subjects@, s1.subjects@, oid);
    } else {
        assert(s1.subjects == s0.subjects);
        assert(!kv_contains(s1.subjects@, oid));
        assert(s2.subjects == s1.subjects);
        lemma_kv_index_of_same_keys(s2.subjects@, s1.subjects@, oid);
    }
}

/// The registry left after removing each id in `ids`, in order.
pub open spec fn apply_removes(s: Seq<(Id, Subject)>, ids: Seq<Id>) -> Seq<(Id, Subject)>
    decreases ids.len(),
{
    if ids.len() == 0 {
        s
    } else {
        apply_removes(kv_remove(s, ids[0]), ids.drop_first())
    }
}

/// Removing any set of subjects preserves the relative draw order of the
/// rest: a subject survives exactly when its id was present and not
/// removed, and any two survivors stand in the same relative order as
/// before — which, since insertion appends, is their insertion order.
pub proof fn lemma_removals_preserve_relative_order(s: Seq<(Id, Subject)>, ids: Seq<Id>)
    requires
        kv_distinct_keys(s),
    ensures
        kv_distinct_keys(apply_removes(s, ids)),
        forall|k: Id|
            #[trigger] kv_contains(apply_removes(s, ids), k) == (kv_contains(s, k)
                && !ids.contains(k)),
        forall|k1: Id, k2: Id|
            kv_contains(apply_removes(s, ids), k1) && #[trigger] kv_contains(
                apply_removes(s, ids),
                k2,
            ) ==> ((#[trigger] kv_index_of(apply_removes(s, ids), k1) < kv_index_of(
                apply_removes(s, ids),
                k2,
            )) <==> (kv_index_of(s, k1) < kv_index_of(s, k2))),
    decreases ids.len(),
{
    if ids.len() == 0 {
        assert forall|k: Id| !ids.contains(k) by {
            assert(forall|j: int| 0 <= j < ids.len() ==> #[trigger] ids[j] != k);
        }
    } else {
        let id0 = ids[0];
        let rest = ids.drop_first();
        let s1 = kv_remove(s, id0);
        lemma_kv_remove_order(s, id0);
        crate::kv::lemma_kv_remove(s, id0);
        lemma_removals_preserve_relative_order(s1, rest);
        assert(apply_removes(s, ids) == apply_removes(s1, rest));
        assert forall|k: Id|
            #[trigger] kv_contains(apply_removes(s, ids), k) == (kv_contains(s, k)
                && !ids.contains(k)) by {
            assert(kv_contains(apply_removes(s1, rest), k) == (kv_contains(s1, k)
                && !rest.contains(k)));
            assert(kv_contains(s1, k) == (kv_contains(s, k) && k != id0));
            assert(ids.contains(k) == (k == id0 || rest.contains(k))) by {
                if ids.contains(k) {
                    let j = choose|j: int| 0 <= j < ids.len() && ids[j] == k;
                    if j > 0 {
                        assert(rest[j - 1] == k);
                    }
                }
                if k == id0 {
                    assert(ids[0] == k);
                }
                if rest.contains(k) {
                    let j = choose|j: int| 0 <= j < rest.len() && rest[j] == k;
                    assert(ids[j + 1] == k);
                }
            }
        }
        assert forall|k1: Id, k2: Id|
            kv_contains(apply_removes(s, ids), k1) && #[trigger] kv_contains(
                apply_removes(s, ids),
                k2,
            ) implies ((#[trigger] kv_index_of(apply_removes(s, ids), k1) < kv_index_of(
            apply_removes(s, ids),
            k2,
        )) <==> (kv_index_of(s, k1) < kv_index_of(s, k2))) by {
            assert(kv_contains(apply_removes(s1, rest), k1));
            assert(kv_contains(apply_removes(s1, rest), k2));
            assert(kv_contains(s1, k1) && kv_contains(s1, k2));
        }
    }
}

/// Binding a whole light list and patching one record agree: patching
/// record `i` of a bound list gives exactly the buffer that binding the
/// list with that light replaced would give.  The two update paths share
/// one packing layout.
pub proof fn lemma_point_light_paths_agree(ls: Seq<PointLight>, i: int, l: PointLight)
    requires
        0 <= i < 16,
        i < ls.len(),
    ensures
        splice(packed_point_lights(ls), 8 * i, point_light_record(l)) == packed_point_lights(
            ls.update(i, l),
        ),
{
    let a = splice(packed_point_lights(ls), 8 * i, point_light_record(l));
    let b = packed_point_lights(ls.update(i, l));
    assert forall|w: int| 0 <= w < 128 implies a[w] == b[w] by {
        if 8 * i <= w < 8 * i + 8 {
            assert(w / 8 == i);
        } else {
            assert(w / 8 != i);
        }
    }
    assert(a =~= b);
}

/// The directional-light counterpart of the two-path agreement.
pub proof fn lemma_directional_light_paths_agree(ls: Seq<DirectionalLight>, i: int, l: DirectionalLight)
    requires
        0 <= i < 16,
        i < ls.len(),
    ensures
        splice(packed_directional_lights(ls), 8 * i, directional_light_record(l))
            == packed_directional_lights(ls.update(i, l)),
{
    let a = splice(packed_directional_lights(ls), 8 * i, directional_light_record(l));
    let b = packed_directional_lights(ls.update(i, l));
    assert forall|w: int| 0 <= w < 128 implies a[w] == b[w] by {
        if 8 * i <= w < 8 * i + 8 {
            assert(w / 8 == i);
        } else {
            assert(w / 8 != i);
        }
    }
    assert(a =~= b);
}

/// The spot-light counterpart of the two-path agreement.
pub proof fn lemma_spot_light_paths_agree(ls: Seq<SpotLight>, i: int, l: SpotLight)
    requires
        0 <= i < 16,
        i < ls.len(),
    ensures
        splice(packed_spot_lights(ls), 16 * i, spot_light_record(l)) == packed_spot_lights(
            ls.update(i, l),
        ),
{
    let a = splice(packed_spot_lights(ls), 16 * i, spot_light_record(l));
    let b = packed_spot_lights(ls.update(i, l));
    assert forall|w: int| 0 <= w < 256 implies a[w] == b[w] by {
        if 16 * i <= w < 16 * i + 16 {
            assert(w / 16 == i);
        } else {
            assert(w / 16 != i);
        }
    }
    assert(a =~= b);
}

/// The buffers backing a subject's transform and normal-matrix bindings
/// are the same GPU objects across any number of in-place transform
/// updates: no update reallocates them.
pub proof fn lemma_transform_buffer_stability(
    states: Seq<Scene>,
    oid: Id,
    transform_words: Seq<Seq<u32>>,
    normal_words: Seq<Seq<u32>>,
)
    requires
        states.len() == transform_words.len() + 1,
        normal_words.len() == transform_words.len(),
        forall|i: int|
            0 <= i < transform_words.len() ==> transform_update_post(
                states[i],
                states[i + 1],
                oid,
                transform_words[i],
                normal_words[i],
            ),
    ensures
        transform_handle_of(states.last(), oid) == transform_handle_of(states[0], oid),
        normal_handle_of(states.last(), oid) == normal_handle_of(states[0], oid),
    decreases states.len(),
{
    if transform_words.len() > 0 {
        assert(transform_update_post(states[0], states[1], oid, transform_words[0], normal_words[0]));
        assert(transform_handle_of(states[1], oid) == transform_handle_of(states[0], oid));
        assert(normal_handle_of(states[1], oid) == normal_handle_of(states[0], oid));
        let states2 = states.drop_first();
        let tw2 = transform_words.drop_first();
        let nw2 = normal_words.drop_first();
        assert forall|i: int| 0 <= i < tw2.len() implies transform_update_post(
            states2[i],
            states2[i + 1],
            oid,
            tw2[i],
            nw2[i],
        ) by {
            assert(states2[i] == states[i + 1]);
            assert(states2[i + 1] == states[i + 2]);
            assert(tw2[i] == transform_words[i + 1]);
            assert(nw2[i] == normal_words[i + 1]);
        }
        lemma_transform_buffer_stability(states2, oid, tw2, nw2);
        assert(states2.last() == states.last());
        assert(states2[0] == states[1]);
    }
}

/// Two nodes whose materials share one cache identity (shader pair,
/// uniform layout, has-texture flag) share one compiled pipeline object,
/// whatever their material ids; and two materials of different cache
/// identity (for instance, differing only in the has-texture flag) get
/// two distinct pipeline objects.  Distinctness rests on the scene's
/// invariants: cached pipeline handles are pairwise distinct and lie
/// below the device's allocation counter.
pub proof fn lemma_pipeline_cache_sharing(
    s0: Scene,
    s1: Scene,
    s2: Scene,
    r0: Renderer,
    r1: Renderer,
    r2: Renderer,
    g1: Option<Geometry>,
    g2: Option<Geometry>,
    m1: Material,
    m2: Material,
    t1: Option<Texture>,
    t2: Option<Texture>,
    oid1: Id,
    oid2: Id,
    pos1: Vec3,
    pos2: Vec3,
    rot1: Quat,
    rot2: Quat,
)
    requires
        s0.wf(),
        s0.pipelines_bounded(r0.next_handle),
        insert_post(s0, s1, r0, r1, g1, Some(m1), t1, oid1, pos1, rot1),
        insert_post(s1, s2, r1, r2, g2, Some(m2), t2, oid2, pos2, rot2),
        oid1 != oid2,
    ensures
        material_pipeline_key(m1) == material_pipeline_key(m2) ==> {
            &&& kv_get(s2.subjects@, oid1) matches Some(sub1) && sub1.pipeline is Some
                && sub1.pipeline == kv_get(s2.subjects@, oid2).unwrap().pipeline
        },
        material_pipeline_key(m1) != material_pipeline_key(m2) ==> {
            &&& kv_get(s2.subjects@, oid1) matches Some(sub1) && sub1.pipeline is Some
                && kv_get(s2.subjects@, oid2).unwrap().pipeline is Some
                && sub1.pipeline != kv_get(s2.subjects@, oid2).unwrap().pipeline
        },
{
    let key1 = material_pipeline_key(m1);
    let key2 = material_pipeline_key(m2);
    let c0 = cache_view(s0.material_pipelines@);
    let c1 = cache_view(s1.material_pipelines@);
    let sub1 = kv_get(s1.subjects@, oid1).unwrap();
    let sub2 = kv_get(s2.subjects@, oid2).unwrap();
    let p1 = sub1.pipeline.unwrap();
    let p2 = sub2.pipeline.unwrap();
    assert(kv_get(s2.subjects@, oid1) == kv_get(s1.subjects@, oid1));
    // After the first insertion the cache resolves the first key to the
    // first subject's pipeline, whether it was a hit or a fresh compile.
    assert(kv_get(c1, key1) == Some(p1)) by {
        match kv_get(c0, key1) {
            Some(p) => {},
            None => {
                lemma_kv_insert(c0, key1, p1);
            },
        }
    }
    if key1 == key2 {
        assert(kv_get(c1, key2) is Some);
        assert(sub2.pipeline == Some(kv_get(c1, key2).unwrap()));
    } else {
        // The first insertion touched at most the first key's entry, so
        // the second lookup sees the original binding of the second key.
        assert(kv_get(c1, key2) == kv_get(c0, key2)) by {
            match kv_get(c0, key1) {
                Some(p) => {},
                None => {
                    lemma_kv_insert(c0, key1, p1);
                },
            }
        }
        match kv_get(c0, key2) {
            Some(q2) => {
                assert(p2 == q2);
                lemma_kv_index_of(c0, key2);
                let i2 = kv_index_of(c0, key2);
                assert(c0[i2].1 < r0.next_handle);
                match kv_get(c0, key1) {
                    Some(q1) => {
                        // Both pipelines were already cached, under
                        // different keys: distinct entries carry distinct
                        // handles.
                        lemma_kv_index_of(c0, key1);
                        let i1 = kv_index_of(c0, key1);
                        assert(c0[i1].0 == key1);
                        assert(c0[i2].0 == key2);
                        assert(i1 != i2);
                        if i1 < i2 {
                            assert(c0[i1].1 != c0[i2].1);
                        } else {
                            assert(c0[i2].1 != c0[i1].1);
                        }
                        assert(p1 != p2);
                    },
                    None => {
                        // The first pipeline was freshly compiled, above
                        // every handle the cache held.
                        assert(p1 >= r0.next_handle);
                        assert(p1 != p2);
                    },
                }
            },
            None => {
                // The second pipeline is freshly compiled, above the
                // counter the first insertion ended at — and the first
                // pipeline, cached or fresh, lies below that counter.
                assert(p2 >= r1.next_handle);
                assert(p1 < r1.next_handle) by {
                    match kv_get(c0, key1) {
                        Some(q1) => {
                            lemma_kv_index_of(c0, key1);
                            let i1 = kv_index_of(c0, key1);
                            assert(c0[i1].1 < r0.next_handle);
                        },
                        None => {},
                    }
                }
                assert(p1 != p2);
            },
        }
    }
}

} // verus!
