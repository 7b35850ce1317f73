//! The ray forest: a per-pixel cache of trace structure.
//!
//! Building the forest does all geometric work once: for every pixel it
//! records each intersection, the shadow-tested light samples gathered there,
//! the reflected and refracted sub-rays with their subtrees, and the set of
//! primitive ids touched anywhere in the tree. Reducing a tree replays only
//! the shading arithmetic, reading materials fresh from the arena, and yields
//! exactly the color a direct trace of the same ray yields — the structural
//! invariant the cache depends on, carried here as the build contract.
//!
//! Where a traced branch folds reflected or refracted energy, the reduction
//! uses the actual sub-ray direction stored at build time; this is the one
//! physically consistent convention, applied on both paths.

use vstd::prelude::*;

use crate::color::{color_add, color_black, color_mul, color_scale, lemma_color_mul_black, Color};
use crate::fixed::Fx;
use crate::intersection::Intersection;
use crate::material::{phong_reflected_energy, texture_at, texture_phong_at, TexturePhong};
use crate::ray::Ray;
use crate::render::{
    buffer_wf, camera_ray, fresnel_reflection, fresnel_reflection_spec, fresnel_refraction,
    fresnel_refraction_spec, get_light_energy, pixel, refract_ray, refract_ray_spec,
    refraction_pair, reflect_ray, sum_lights, trace_spec, Camera, RenderBuffer,
};
use crate::scene::{lemma_scene_nearest_wf, scene_wf, Scene};
use crate::vector3::{vec_neg, Vector3};

verus! {

/// A set of primitive ids, held as a duplicate-free-by-construction list.
#[derive(Clone, Debug, PartialEq)]
pub struct IdSet {
    pub ids: Vec<i32>,
}

/// Two id collections share an element.
pub open spec fn seq_intersects(a: Seq<i32>, b: Seq<i32>) -> bool {
    exists|x: i32| a.contains(x) && b.contains(x)
}

impl IdSet {
    /// The empty set.
    pub fn new() -> (s: IdSet)
        ensures
            s.ids@.len() == 0,
    {
        IdSet { ids: Vec::new() }
    }

    /// Whether `x` is in the set.
    pub fn contains(&self, x: i32) -> (r: bool)
        ensures
            r == self.ids@.contains(x),
    {
        let mut k: usize = 0;
        while k < self.ids.len()
            invariant
                k <= self.ids@.len(),
                forall|m: int| 0 <= m < k ==> self.ids@[m] != x,
            decreases self.ids@.len() - k,
        {
            if self.ids[k] == x {
                return true;
            }
            k = k + 1;
        }
        false
    }

    /// Add `x` to the set.
    pub fn insert(&mut self, x: i32)
        ensures
            forall|y: i32| final(self).ids@.contains(y) <==> (old(self).ids@.contains(y) || y == x),
    {
        if !self.contains(x) {
            self.ids.push(x);
            proof {
                assert forall|y: i32| self.ids@.contains(y) implies (old(self).ids@.contains(y) || y
                    == x) by {
                    let m = choose|m: int| 0 <= m < self.ids@.len() && self.ids@[m] == y;
                    if m < old(self).ids@.len() {
                        assert(old(self).ids@[m] == y);
                    }
                }
                assert forall|y: i32| (old(self).ids@.contains(y) || y == x) implies self.ids@.contains(
                    y,
                ) by {
                    if old(self).ids@.contains(y) {
                        let m = choose|m: int|
                            0 <= m < old(self).ids@.len() && old(self).ids@[m] == y;
                        assert(self.ids@[m] == y);
                    } else {
                        assert(self.ids@[self.ids@.len() - 1] == x);
                    }
                }
            }
        }
    }

    /// Whether this set and `other` share an element.
    pub fn intersects(&self, other: &IdSet) -> (r: bool)
        ensures
            r == seq_intersects(self.ids@, other.ids@),
    {
        let mut k: usize = 0;
        while k < self.ids.len()
            invariant
                k <= self.ids@.len(),
                forall|m: int| 0 <= m < k ==> !other.ids@.contains(#[trigger] self.ids@[m]),
            decreases self.ids@.len() - k,
        {
            if other.contains(self.ids[k]) {
                return true;
            }
            k = k + 1;
        }
        proof {
            assert forall|x: i32| self.ids@.contains(x) implies !other.ids@.contains(x) by {
                let m = choose|m: int| 0 <= m < self.ids@.len() && self.ids@[m] == x;
            }
        }
        false
    }
}

/// One node of a cached trace: either nothing (no hit, or recursion
/// exhausted), or one intersection with its light samples and the reflected
/// and refracted continuations, each stored with the sub-ray direction the
/// trace used.
#[derive(Debug)]
pub enum RayTreeNode {
    Leaf,
    Branch {
        isect: Intersection,
        lights: Vec<(Vector3, Color)>,
        reflected: Option<(Vector3, Box<RayTreeNode>)>,
        refracted: Option<(Vector3, Box<RayTreeNode>)>,
    },
}

/// Every material index in the tree lies below `n`.
pub open spec fn tree_node_wf(node: RayTreeNode, n: int) -> bool
    decreases node,
{
    match node {
        RayTreeNode::Leaf => true,
        RayTreeNode::Branch { isect, lights, reflected, refracted } => {
            &&& 0 <= isect.material < n
            &&& match reflected {
                None => true,
                Some(sub) => tree_node_wf(*sub.1, n),
            }
            &&& match refracted {
                None => true,
                Some(sub) => tree_node_wf(*sub.1, n),
            }
        },
    }
}

/// The id `x` stands at some branch of the tree.
pub open spec fn tree_has_id(node: RayTreeNode, x: i32) -> bool
    decreases node,
{
    match node {
        RayTreeNode::Leaf => false,
        RayTreeNode::Branch { isect, lights, reflected, refracted } => {
            ||| isect.id == x
            ||| match reflected {
                None => false,
                Some(sub) => tree_has_id(*sub.1, x),
            }
            ||| match refracted {
                None => false,
                Some(sub) => tree_has_id(*sub.1, x),
            }
        },
    }
}

/// The number of branch nodes in the tree.
pub open spec fn tree_node_count(node: RayTreeNode) -> nat
    decreases node,
{
    match node {
        RayTreeNode::Leaf => 0,
        RayTreeNode::Branch { isect, lights, reflected, refracted } => {
            let l = match reflected {
                None => 0nat,
                Some(sub) => tree_node_count(*sub.1),
            };
            let r = match refracted {
                None => 0nat,
                Some(sub) => tree_node_count(*sub.1),
            };
            1 + l + r
        },
    }
}

/// The color a cached tree folds to: the same four-term sum the tracer
/// computes, with the ambient term and every material parameter read fresh,
/// and the stored sub-ray directions standing in for re-traced rays.
pub open spec fn reduce_spec(node: RayTreeNode, ambient: Color, mats: Seq<TexturePhong>) -> Color
    decreases node,
{
    match node {
        RayTreeNode::Leaf => color_black(),
        RayTreeNode::Branch { isect: i, lights, reflected, refracted } => {
            let mat = mats[i.material as int];
            let pair = refraction_pair(i, mat);
            let n1 = pair.0;
            let n2 = pair.1;
            let ambient_col = color_mul(texture_at(mat.ambient, i.tex_coord), ambient);
            let lights_col = sum_lights(lights@, i, n1, n2, mat);
            let reflected_col = match reflected {
                None => color_black(),
                Some(sub) => color_scale(
                    fresnel_reflection_spec(sub.0, i.normal, n1, n2),
                    phong_reflected_energy(
                        texture_phong_at(mat, i.tex_coord),
                        reduce_spec(*sub.1, ambient, mats),
                        sub.0,
                        i,
                    ),
                ),
            };
            let refracted_col = match refracted {
                None => color_black(),
                Some(sub) => color_mul(
                    texture_at(mat.diffuse, i.tex_coord),
                    color_scale(
                        fresnel_refraction_spec(sub.0, vec_neg(i.normal), n1, n2),
                        reduce_spec(*sub.1, ambient, mats),
                    ),
                ),
            };
            color_add(color_add(color_add(ambient_col, lights_col), reflected_col), refracted_col)
        },
    }
}

/// Build the cached trace of one ray.
///
/// The contract carries the cache's structural invariant: reducing the built
/// tree with the scene's own ambient and materials yields exactly the color
/// of a direct trace of the same ray at the same depth.
#[verifier::rlimit(100)]
pub fn build_ray_tree(scene: &Scene, ray: &Ray, depth: usize) -> (node: RayTreeNode)
    requires
        scene_wf(*scene),
    ensures
        reduce_spec(node, scene.ambient, scene.materials@) == trace_spec(
            *scene,
            *ray,
            depth as nat,
        ),
        tree_node_wf(node, scene.materials@.len() as int),
    decreases depth,
{
    if depth == 0 {
        return RayTreeNode::Leaf;
    }
    let hit = scene.intersect(ray);
    match hit {
        None => RayTreeNode::Leaf,
        Some(i) => {
            proof {
                lemma_scene_nearest_wf(scene.shapes@, *ray, scene.materials@.len() as int);
            }
            let mat = scene.material(i.material);
            let (n1, n2) = if i.entering {
                (Fx::one(), mat.refraction_index())
            } else {
                (mat.refraction_index(), Fx::one())
            };

            let lights = get_light_energy(scene, &i);

            let reflected = if mat.reflectivity().raw > 0 {
                let reflect_r = reflect_ray(ray, &i);
                let child = build_ray_tree(scene, &reflect_r, depth - 1);
                Some((reflect_r.direction(), Box::new(child)))
            } else {
                None
            };

            let refracted = if mat.refraction_index().raw > 0 {
                match refract_ray(ray, &i, n1, n2) {
                    Some(r2) => {
                        let child = build_ray_tree(scene, &r2, depth - 1);
                        Some((r2.direction(), Box::new(child)))
                    },
                    None => None,
                }
            } else {
                None
            };

            proof {
                if mat.refraction_index.raw > 0 && refract_ray_spec(*ray, i, n1, n2) is None {
                    lemma_color_mul_black(texture_at(mat.diffuse, i.tex_coord));
                }
            }
            RayTreeNode::Branch { isect: i, lights, reflected, refracted }
        },
    }
}

/// Record every primitive id that stands at a branch of the tree.
fn collect_ids(node: &RayTreeNode, shapes: IdSet) -> (r: IdSet)
    ensures
        forall|y: i32|
            #![trigger r.ids@.contains(y)]
            r.ids@.contains(y) <==> (shapes.ids@.contains(y) || tree_has_id(*node, y)),
    decreases *node,
{
    match node {
        RayTreeNode::Leaf => shapes,
        RayTreeNode::Branch { isect, lights, reflected, refracted } => {
            let mut s1 = shapes;
            s1.insert(isect.id);
            let s2 = match reflected {
                None => s1,
                Some(sub) => collect_ids(&sub.1, s1),
            };
            let s3 = match refracted {
                None => s2,
                Some(sub) => collect_ids(&sub.1, s2),
            };
            s3
        },
    }
}

/// Fold a cached tree into a color, reading materials fresh from the arena.
pub fn render_ray_tree(tree: &RayTreeNode, ambient: &Color, materials: &Vec<TexturePhong>) -> (c:
    Color)
    requires
        tree_node_wf(*tree, materials@.len() as int),
    ensures
        c == reduce_spec(*tree, *ambient, materials@),
    decreases *tree,
{
    match tree {
        RayTreeNode::Leaf => Color::black(),
        RayTreeNode::Branch { isect: i, lights, reflected, refracted } => {
            let mat = materials[i.material];
            let (n1, n2) = if i.entering {
                (Fx::one(), mat.refraction_index())
            } else {
                (mat.refraction_index(), Fx::one())
            };

            let ambient_col = mat.ambient(i.tex_coord).mul(ambient);

            let mut lights_col = Color::black();
            let mut k: usize = 0;
            while k < lights.len()
                invariant
                    k <= lights@.len(),
                    lights_col == sum_lights(lights@.subrange(0, k as int), *i, n1, n2, mat),
                decreases lights@.len() - k,
            {
                proof {
                    assert(lights@.subrange(0, k + 1).drop_last() =~= lights@.subrange(0, k as int));
                    assert(lights@.subrange(0, k + 1).last() == lights@[k as int]);
                }
                let (ldir, lenergy) = lights[k];
                let fresnel = fresnel_reflection(&ldir, &i.normal, n1, n2);
                let term = mat.get_reflected_energy(&lenergy, &ldir, i).scale(fresnel);
                lights_col = lights_col.add(&term);
                k = k + 1;
            }
            proof {
                assert(lights@.subrange(0, lights@.len() as int) =~= lights@);
            }

            let reflected_col = match reflected {
                None => Color::black(),
                Some(sub) => {
                    let energy = render_ray_tree(&sub.1, ambient, materials);
                    let fresnel = fresnel_reflection(&sub.0, &i.normal, n1, n2);
                    mat.get_reflected_energy(&energy, &sub.0, i).scale(fresnel)
                },
            };

            let refracted_col = match refracted {
                None => Color::black(),
                Some(sub) => {
                    let energy = render_ray_tree(&sub.1, ambient, materials);
                    let fresnel = fresnel_refraction(&sub.0, &i.normal.neg(), n1, n2);
                    mat.diffuse(i.tex_coord).mul(&energy.scale(fresnel))
                },
            };

            ambient_col.add(&lights_col).add(&reflected_col).add(&refracted_col)
        },
    }
}

/// One pixel's cache: the tree and the set of primitive ids touched along
/// any of its paths.
#[derive(Debug)]
pub struct RayTree {
    pub shapes: IdSet,
    pub root: RayTreeNode,
}

impl RayTree {
    /// An empty cache cell.
    pub fn new() -> (t: RayTree)
        ensures
            t.shapes.ids@.len() == 0,
            t.root == RayTreeNode::Leaf,
    {
        RayTree { shapes: IdSet::new(), root: RayTreeNode::Leaf }
    }

    /// The number of branch nodes in this cell's tree.
    pub fn size(&self) -> (n: usize)
        requires
            tree_node_count(self.root) <= usize::MAX,
        ensures
            n as nat == tree_node_count(self.root),
    {
        traverse_nodes(&self.root)
    }
}

/// Count the branch nodes of a tree.
fn traverse_nodes(node: &RayTreeNode) -> (n: usize)
    requires
        tree_node_count(*node) <= usize::MAX,
    ensures
        n as nat == tree_node_count(*node),
    decreases *node,
{
    match node {
        RayTreeNode::Leaf => 0,
        RayTreeNode::Branch { isect, lights, reflected, refracted } => {
            let l: usize = match reflected {
                None => 0,
                Some(sub) => traverse_nodes(&sub.1),
            };
            let r: usize = match refracted {
                None => 0,
                Some(sub) => traverse_nodes(&sub.1),
            };
            1 + l + r
        },
    }
}

/// The per-pixel cache grid: one `RayTree` per pixel, in columns.
#[derive(Debug)]
pub struct RayForest {
    pub w: usize,
    pub h: usize,
    pub forest: Vec<Vec<RayTree>>,
}

/// The grid has exactly the declared dimensions, small enough that the cell
/// count fits the machine.
pub open spec fn forest_wf(f: RayForest) -> bool {
    &&& f.forest@.len() == f.w
    &&& f.w <= 32768
    &&& f.h <= 32768
    &&& forall|u: int| 0 <= u < f.w ==> (#[trigger] f.forest@[u])@.len() == f.h
}

/// Every tree of the forest wears material indices below `n`.
pub open spec fn forest_trees_wf(f: RayForest, n: int) -> bool {
    forall|u: int, v: int|
        0 <= u < f.w && 0 <= v < f.h ==> #[trigger] tree_node_wf(f.forest@[u]@[v].root, n)
}

/// The number of cells in a column whose id set holds `id`.
pub open spec fn count_in_col(col: Seq<RayTree>, id: i32) -> int
    decreases col.len(),
{
    if col.len() == 0 {
        0
    } else {
        count_in_col(col.drop_last(), id) + if col.last().shapes.ids@.contains(id) {
            1int
        } else {
            0int
        }
    }
}

/// The number of cells in the grid whose id set holds `id`.
pub open spec fn count_grid(grid: Seq<Vec<RayTree>>, id: i32) -> int
    decreases grid.len(),
{
    if grid.len() == 0 {
        0
    } else {
        count_grid(grid.drop_last(), id) + count_in_col(grid.last()@, id)
    }
}

impl RayForest {
    /// An empty forest of the given dimensions: every cell an empty cache.
    pub fn new(w: usize, h: usize) -> (f: RayForest)
        requires
            w <= 32768,
            h <= 32768,
        ensures
            f.w == w,
            f.h == h,
            forest_wf(f),
            forall|u: int, v: int|
                0 <= u < w && 0 <= v < h ==> f.forest@[u]@[v].root
                    == RayTreeNode::Leaf && (f.forest@[u])@[v].shapes.ids@.len() == 0,
    {
        let mut forest: Vec<Vec<RayTree>> = Vec::new();
        let mut u: usize = 0;
        while u < w
            invariant
                u <= w,
                forest@.len() == u as int,
                forall|u2: int| 0 <= u2 < u ==> (#[trigger] forest@[u2])@.len() == h,
                forall|u2: int, v2: int|
                    0 <= u2 < u && 0 <= v2 < h ==> forest@[u2]@[v2].root
                        == RayTreeNode::Leaf && (forest@[u2])@[v2].shapes.ids@.len() == 0,
            decreases w - u,
        {
            let mut col: Vec<RayTree> = Vec::new();
            let mut v: usize = 0;
            while v < h
                invariant
                    v <= h,
                    col@.len() == v as int,
                    forall|v2: int|
                        0 <= v2 < v ==> col@[v2].root == RayTreeNode::Leaf
                            && col@[v2].shapes.ids@.len() == 0,
                decreases h - v,
            {
                col.push(RayTree::new());
                v = v + 1;
            }
            forest.push(col);
            u = u + 1;
        }
        RayForest { w, h, forest }
    }

    /// The number of cells (cached trees) in the forest.
    pub fn size(&self) -> (n: usize)
        requires
            forest_wf(*self),
        ensures
            n as int == self.w * self.h,
    {
        proof {
            assert(self.w * self.h <= 0x4000_0000) by (nonlinear_arith)
                requires
                    self.w <= 32768 && self.h <= 32768,
            ;
        }
        let mut n: usize = 0;
        let mut u: usize = 0;
        while u < self.forest.len()
            invariant
                u <= self.forest@.len(),
                forest_wf(*self),
                n as int == u * self.h,
                n as int <= 0x4000_0000,
            decreases self.forest@.len() - u,
        {
            proof {
                assert((u + 1) * self.h == u * self.h + self.h) by (nonlinear_arith);
                assert((u + 1) * self.h <= self.w * self.h) by (nonlinear_arith)
                    requires
                        u + 1 <= self.w && self.h >= 0,
                ;
                assert(self.w * self.h <= 0x4000_0000) by (nonlinear_arith)
                    requires
                        self.w <= 32768 && self.h <= 32768,
                ;
            }
            n = n + self.forest[u].len();
            u = u + 1;
        }
        n
    }

    /// The number of cells whose id set holds `shape_id`.
    pub fn trees_with(&self, shape_id: i32) -> (n: usize)
        requires
            forest_wf(*self),
        ensures
            n as int == count_grid(self.forest@, shape_id),
    {
        let mut n: usize = 0;
        let mut u: usize = 0;
        while u < self.forest.len()
            invariant
                u <= self.forest@.len(),
                forest_wf(*self),
                n as int == count_grid(self.forest@.subrange(0, u as int), shape_id),
                n as int <= u * 32768,
                u <= 32768,
            decreases self.forest@.len() - u,
        {
            let col = &self.forest[u];
            let mut cn: usize = 0;
            let mut v: usize = 0;
            while v < col.len()
                invariant
                    v <= col@.len(),
                    col@.len() <= 32768,
                    cn as int == count_in_col(col@.subrange(0, v as int), shape_id),
                    cn as int <= v as int,
                decreases col@.len() - v,
            {
                proof {
                    assert(col@.subrange(0, v + 1).drop_last() =~= col@.subrange(0, v as int));
                    assert(col@.subrange(0, v + 1).last() == col@[v as int]);
                }
                if col[v].shapes.contains(shape_id) {
                    cn = cn + 1;
                }
                v = v + 1;
            }
            proof {
                assert(col@.subrange(0, col@.len() as int) =~= col@);
                assert(self.forest@.subrange(0, u + 1).drop_last() =~= self.forest@.subrange(
                    0,
                    u as int,
                ));
                assert(self.forest@.subrange(0, u + 1).last() == self.forest@[u as int]);
                assert((u + 1) * 32768 == u * 32768 + 32768) by (nonlinear_arith);
                assert(u * 32768 <= 32768 * 32768) by (nonlinear_arith)
                    requires
                        0 <= u <= 32768,
                ;
            }
            n = n + cn;
            u = u + 1;
        }
        proof {
            assert(self.forest@.subrange(0, self.forest@.len() as int) =~= self.forest@);
        }
        n
    }

    /// Summary statistics of the forest.
    pub fn stats(&self) -> (s: RayForestStats)
        requires
            forest_wf(*self),
        ensures
            s.num_trees as int == self.w * self.h,
    {
        RayForestStats { num_trees: self.size() }
    }
}

/// Summary statistics of a ray forest.
pub struct RayForestStats {
    /// The number of cached trees (one per pixel).
    pub num_trees: usize,
}

/// Build the whole forest: one cached trace per pixel of the camera grid.
///
/// Every cell's tree reduces, under the scene's own ambient and materials,
/// to exactly the color of a direct trace of that pixel's camera ray, and
/// every cell's id set holds exactly the ids its tree touches.
pub fn generate_ray_forest(camera: &Camera, scene: &Scene, w: usize, h: usize, depth: usize) -> (f:
    RayForest)
    requires
        scene_wf(*scene),
        w == camera.x_res,
        h == camera.y_res,
        w <= 32768,
        h <= 32768,
    ensures
        f.w == w,
        f.h == h,
        forest_wf(f),
        forest_trees_wf(f, scene.materials@.len() as int),
        forall|u: int, v: int|
            0 <= u < w && 0 <= v < h ==> reduce_spec(
                f.forest@[u]@[v].root,
                scene.ambient,
                scene.materials@,
            ) == trace_spec(*scene, camera_ray(*camera, u, v), depth as nat),
        forall|u: int, v: int, y: i32|
            0 <= u < w && 0 <= v < h ==> (#[trigger] f.forest@[u]@[v].shapes.ids@.contains(y)
                <==> tree_has_id(f.forest@[u]@[v].root, y)),
{
    let mut forest: Vec<Vec<RayTree>> = Vec::new();
    let mut u: usize = 0;
    while u < w
        invariant
            u <= w,
            scene_wf(*scene),
            w == camera.x_res,
            h == camera.y_res,
            w <= 32768,
            h <= 32768,
            forest@.len() == u as int,
            forall|u2: int| 0 <= u2 < u ==> (#[trigger] forest@[u2])@.len() == h,
            forall|u2: int, v2: int|
                0 <= u2 < u && 0 <= v2 < h ==> tree_node_wf(
                    forest@[u2]@[v2].root,
                    scene.materials@.len() as int,
                ),
            forall|u2: int, v2: int|
                0 <= u2 < u && 0 <= v2 < h ==> reduce_spec(
                    forest@[u2]@[v2].root,
                    scene.ambient,
                    scene.materials@,
                ) == trace_spec(*scene, camera_ray(*camera, u2, v2), depth as nat),
            forall|u2: int, v2: int, y: i32|
                0 <= u2 < u && 0 <= v2 < h ==> (#[trigger] forest@[u2]@[v2].shapes.ids@.contains(y) <==> tree_has_id(forest@[u2]@[v2].root, y)),
        decreases w - u,
    {
        let mut col: Vec<RayTree> = Vec::new();
        let mut v: usize = 0;
        while v < h
            invariant
                v <= h,
                u < w,
                scene_wf(*scene),
                w == camera.x_res,
                h == camera.y_res,
                w <= 32768,
                h <= 32768,
                col@.len() == v as int,
                forall|v2: int|
                    0 <= v2 < v ==> tree_node_wf(
                        col@[v2].root,
                        scene.materials@.len() as int,
                    ),
                forall|v2: int|
                    0 <= v2 < v ==> reduce_spec(
                        col@[v2].root,
                        scene.ambient,
                        scene.materials@,
                    ) == trace_spec(*scene, camera_ray(*camera, u as int, v2), depth as nat),
                forall|v2: int, y: i32|
                    0 <= v2 < v ==> (#[trigger] col@[v2].shapes.ids@.contains(y) <==> tree_has_id(
                        col@[v2].root,
                        y,
                    )),
            decreases h - v,
        {
            let ray = camera.get_ray(u, v);
            let root = build_ray_tree(scene, &ray, depth);
            let shapes = collect_ids(&root, IdSet::new());
            col.push(RayTree { shapes, root });
            v = v + 1;
        }
        forest.push(col);
        u = u + 1;
    }
    RayForest { w, h, forest }
}

/// Reduce every cell of the forest and write every pixel.
pub fn render_forest(
    forest: &RayForest,
    buffer: &mut RenderBuffer,
    ambient: &Color,
    materials: &Vec<TexturePhong>,
)
    requires
        forest_wf(*forest),
        forest_trees_wf(*forest, materials@.len() as int),
        buffer_wf(*old(buffer)),
        old(buffer).w == forest.w,
        old(buffer).h == forest.h,
    ensures
        buffer_wf(*final(buffer)),
        final(buffer).w == old(buffer).w,
        final(buffer).h == old(buffer).h,
        forall|u: int, v: int|
            0 <= u < forest.w && 0 <= v < forest.h ==> pixel(*final(buffer), u, v) == reduce_spec(
                forest.forest@[u]@[v].root,
                *ambient,
                materials@,
            ),
{
    let mut u: usize = 0;
    while u < forest.w
        invariant
            u <= forest.w,
            forest_wf(*forest),
            forest_trees_wf(*forest, materials@.len() as int),
            buffer_wf(*buffer),
            buffer.w == forest.w,
            buffer.h == forest.h,
            forall|u2: int, v2: int|
                0 <= u2 < u && 0 <= v2 < forest.h ==> pixel(*buffer, u2, v2) == reduce_spec(
                    forest.forest@[u2]@[v2].root,
                    *ambient,
                    materials@,
                ),
        decreases forest.w - u,
    {
        let mut v: usize = 0;
        while v < forest.h
            invariant
                u < forest.w,
                v <= forest.h,
                forest_wf(*forest),
                forest_trees_wf(*forest, materials@.len() as int),
                buffer_wf(*buffer),
                buffer.w == forest.w,
                buffer.h == forest.h,
                forall|u2: int, v2: int|
                    0 <= u2 < u && 0 <= v2 < forest.h ==> pixel(*buffer, u2, v2) == reduce_spec(
                        forest.forest@[u2]@[v2].root,
                        *ambient,
                        materials@,
                    ),
                forall|v2: int|
                    0 <= v2 < v ==> pixel(*buffer, u as int, v2) == reduce_spec(
                        forest.forest@[u as int]@[v2].root,
                        *ambient,
                        materials@,
                    ),
            decreases forest.h - v,
        {
            let c = render_ray_tree(&forest.forest[u][v].root, ambient, materials);
            buffer.set_pixel(u, v, c);
            v = v + 1;
        }
        u = u + 1;
    }
}

/// Reduce and overwrite exactly the pixels whose stored id set intersects
/// `mutated_shapes`; every other pixel keeps its prior contents. With an
/// empty mutated set the buffer is left unchanged.
pub fn render_forest_filter(
    forest: &RayForest,
    buffer: &mut RenderBuffer,
    ambient: &Color,
    materials: &Vec<TexturePhong>,
    mutated_shapes: &IdSet,
)
    requires
        forest_wf(*forest),
        forest_trees_wf(*forest, materials@.len() as int),
        buffer_wf(*old(buffer)),
        old(buffer).w == forest.w,
        old(buffer).h == forest.h,
    ensures
        buffer_wf(*final(buffer)),
        final(buffer).w == old(buffer).w,
        final(buffer).h == old(buffer).h,
        forall|u: int, v: int|
            0 <= u < forest.w && 0 <= v < forest.h ==> pixel(*final(buffer), u, v) == (
            if seq_intersects(forest.forest@[u]@[v].shapes.ids@, mutated_shapes.ids@) {
                reduce_spec(forest.forest@[u]@[v].root, *ambient, materials@)
            } else {
                pixel(*old(buffer), u, v)
            }),
        mutated_shapes.ids@.len() == 0 ==> final(buffer).buf@ == old(buffer).buf@,
{
    let mut u: usize = 0;
    while u < forest.w
        invariant
            u <= forest.w,
            forest_wf(*forest),
            forest_trees_wf(*forest, materials@.len() as int),
            buffer_wf(*buffer),
            buffer.w == forest.w,
            buffer.h == forest.h,
            forall|u2: int, v2: int|
                0 <= u2 < u && 0 <= v2 < forest.h ==> pixel(*buffer, u2, v2) == (
                if seq_intersects(
                    forest.forest@[u2]@[v2].shapes.ids@,
                    mutated_shapes.ids@,
                ) {
                    reduce_spec(forest.forest@[u2]@[v2].root, *ambient, materials@)
                } else {
                    pixel(*old(buffer), u2, v2)
                }),
            forall|u2: int, v2: int|
                u <= u2 < forest.w && 0 <= v2 < forest.h ==> pixel(*buffer, u2, v2) == pixel(
                    *old(buffer),
                    u2,
                    v2,
                ),
            mutated_shapes.ids@.len() == 0 ==> buffer.buf@ == old(buffer).buf@,
        decreases forest.w - u,
    {
        let mut v: usize = 0;
        while v < forest.h
            invariant
                u < forest.w,
                v <= forest.h,
                forest_wf(*forest),
                forest_trees_wf(*forest, materials@.len() as int),
                buffer_wf(*buffer),
                buffer.w == forest.w,
                buffer.h == forest.h,
                forall|u2: int, v2: int|
                    0 <= u2 < u && 0 <= v2 < forest.h ==> pixel(*buffer, u2, v2) == (
                    if seq_intersects(
                        forest.forest@[u2]@[v2].shapes.ids@,
                        mutated_shapes.ids@,
                    ) {
                        reduce_spec(forest.forest@[u2]@[v2].root, *ambient, materials@)
                    } else {
                        pixel(*old(buffer), u2, v2)
                    }),
                forall|v2: int|
                    0 <= v2 < v ==> pixel(*buffer, u as int, v2) == (
                    if seq_intersects(
                        forest.forest@[u as int]@[v2].shapes.ids@,
                        mutated_shapes.ids@,
                    ) {
                        reduce_spec(forest.forest@[u as int]@[v2].root, *ambient, materials@)
                    } else {
                        pixel(*old(buffer), u as int, v2)
                    }),
                forall|u2: int, v2: int|
                    0 <= u2 < forest.w && 0 <= v2 < forest.h && (u2 > u || (u2 == u && v2 >= v))
                        ==> pixel(*buffer, u2, v2) == pixel(*old(buffer), u2, v2),
                mutated_shapes.ids@.len() == 0 ==> buffer.buf@ == old(buffer).buf@,
            decreases forest.h - v,
        {
            if forest.forest[u][v].shapes.intersects(mutated_shapes) {
                let c = render_ray_tree(&forest.forest[u][v].root, ambient, materials);
                buffer.set_pixel(u, v, c);
            }
            v = v + 1;
        }
        u = u + 1;
    }
}

/// Build the forest for the camera grid and reduce it into the buffer: the
/// cached path renders, pixel for pixel, exactly what direct tracing
/// renders.
pub fn render(camera: &Camera, scene: &Scene, buffer: &mut RenderBuffer, depth: usize)
    requires
        scene_wf(*scene),
        buffer_wf(*old(buffer)),
        old(buffer).w == camera.x_res,
        old(buffer).h == camera.y_res,
        camera.x_res <= 32768,
        camera.y_res <= 32768,
    ensures
        buffer_wf(*final(buffer)),
        final(buffer).w == old(buffer).w,
        final(buffer).h == old(buffer).h,
        forall|u: int, v: int|
            0 <= u < camera.x_res && 0 <= v < camera.y_res ==> pixel(*final(buffer), u, v)
                == trace_spec(*scene, camera_ray(*camera, u, v), depth as nat),
{
    let w = buffer.w;
    let h = buffer.h;
    let ray_forest = generate_ray_forest(camera, scene, w, h, depth);
    let ambient = scene.ambient();
    render_forest(&ray_forest, buffer, &ambient, &scene.materials);
}

/// In a fold over the grid, the count of cells whose id set meets a
/// one-element mutated set equals the count of cells whose id set holds that
/// element: re-rendering with one mutated primitive touches exactly
/// `trees_with` of that primitive's id.
pub proof fn lemma_count_updated_singleton(grid: Seq<Vec<RayTree>>, mutated: Seq<i32>, s: i32)
    requires
        forall|x: i32| #[trigger] mutated.contains(x) <==> x == s,
    ensures
        count_updated(grid, mutated) == count_grid(grid, s),
    decreases grid.len(),
{
    if grid.len() > 0 {
        lemma_count_updated_singleton(grid.drop_last(), mutated, s);
        lemma_count_updated_col_singleton(grid.last()@, mutated, s);
    }
}

/// The number of cells in a column whose id set meets `mutated`.
pub open spec fn count_updated_col(col: Seq<RayTree>, mutated: Seq<i32>) -> int
    decreases col.len(),
{
    if col.len() == 0 {
        0
    } else {
        count_updated_col(col.drop_last(), mutated) + if seq_intersects(
            col.last().shapes.ids@,
            mutated,
        ) {
            1int
        } else {
            0int
        }
    }
}

/// The number of cells in the grid whose id set meets `mutated`: exactly the
/// pixels a filtered re-render overwrites.
pub open spec fn count_updated(grid: Seq<Vec<RayTree>>, mutated: Seq<i32>) -> int
    decreases grid.len(),
{
    if grid.len() == 0 {
        0
    } else {
        count_updated(grid.drop_last(), mutated) + count_updated_col(grid.last()@, mutated)
    }
}

/// Column version of the singleton counting law.
proof fn lemma_count_updated_col_singleton(col: Seq<RayTree>, mutated: Seq<i32>, s: i32)
    requires
        forall|x: i32| #[trigger] mutated.contains(x) <==> x == s,
    ensures
        count_updated_col(col, mutated) == count_in_col(col, s),
    decreases col.len(),
{
    if col.len() > 0 {
        lemma_count_updated_col_singleton(col.drop_last(), mutated, s);
        let ids = col.last().shapes.ids@;
        if seq_intersects(ids, mutated) {
            let x = choose|x: i32| ids.contains(x) && mutated.contains(x);
            assert(ids.contains(s));
        }
        if ids.contains(s) {
            assert(mutated.contains(s));
            assert(seq_intersects(ids, mutated));
        }
    }
}


} // verus!
