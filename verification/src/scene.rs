//! Scene bookkeeping: meshes arriving from the generation pipeline, the
//! models made of them, and the totals the performance readout shows.
//!
//! Mesh workers run in the host program and hand finished meshes over a
//! channel; the consumer turns each arriving mesh into a model record.  The
//! functions here are the consumer's bookkeeping: they are parametric in the
//! arrival order, so what they guarantee holds for every interleaving of the
//! workers.

use vstd::prelude::*;

use crate::vertices::PosUVNormTang;

verus! {

/// The data describing one model, produced by a mesh worker and owned by
/// whichever side of the channel currently holds it.  Immutable once built.
#[derive(Clone, Debug)]
pub struct Mesh {
    /// Vertex index triples, one per triangle.
    pub faces: Vec<(u32, u32, u32)>,
    /// Canonical per-vertex records.
    pub vertices: Vec<PosUVNormTang>,
    /// Display name of the mesh.
    pub name: String,
    /// Group the mesh belongs to, for switching sets of models together.
    pub group: String,
}

/// What the renderer keeps of a mesh once its data has been shipped to the
/// GPU: the draw counts, the names, and whether it is drawn.
#[derive(Clone, Debug)]
pub struct Model {
    pub n_indices: usize,
    pub n_vertices: usize,
    pub name: String,
    pub group: String,
    pub active: bool,
}

/// The model record a mesh becomes: three indices per face, one count per
/// vertex, names carried over, inactive until switched on.
pub open spec fn model_of(mesh: Mesh) -> Model {
    Model {
        n_indices: (mesh.faces@.len() * 3) as usize,
        n_vertices: mesh.vertices@.len() as usize,
        name: mesh.name,
        group: mesh.group,
        active: false,
    }
}

/// Builds the model record of one mesh.
pub fn make_model(mesh: &Mesh) -> (r: Model)
    requires
        mesh.faces@.len() * 3 <= usize::MAX,
    ensures
        r == model_of(*mesh),
{
    Model {
        n_indices: mesh.faces.len() * 3,
        n_vertices: mesh.vertices.len(),
        name: mesh.name.clone(),
        group: mesh.group.clone(),
        active: false,
    }
}

/// The models of a whole arrival sequence, in arrival order.
pub open spec fn spec_collect(arrivals: Seq<Mesh>) -> Seq<Model> {
    arrivals.map_values(|m: Mesh| model_of(m))
}

/// Appends the models of the meshes that arrived since the last drain.  Both
/// consumers use this: the frame loop with whatever a non-blocking poll
/// yielded, the batch run with everything received before the channel
/// closed.
pub fn drain_into(models: &mut Vec<Model>, arrived: &Vec<Mesh>)
    requires
        forall|i: int| 0 <= i < arrived@.len() ==> arrived@[i].faces@.len() * 3 <= usize::MAX,
    ensures
        final(models)@ == old(models)@ + spec_collect(arrived@),
{
    let n = arrived.len();
    let mut i: usize = 0;
    while i < n
        invariant
            n == arrived@.len(),
            i <= n,
            forall|j: int| 0 <= j < n ==> arrived@[j].faces@.len() * 3 <= usize::MAX,
            models@ == old(models)@ + spec_collect(arrived@.subrange(0, i as int)),
        decreases n - i,
    {
        let m = make_model(&arrived[i]);
        models.push(m);
        proof {
            assert(models@ =~= old(models)@ + spec_collect(arrived@.subrange(0, i + 1)));
        }
        i = i + 1;
    }
    proof {
        assert(arrived@.subrange(0, n as int) =~= arrived@);
    }
}

/// Collects a finished arrival sequence into a fresh model list.
pub fn collect_models(arrived: &Vec<Mesh>) -> (r: Vec<Model>)
    requires
        forall|i: int| 0 <= i < arrived@.len() ==> arrived@[i].faces@.len() * 3 <= usize::MAX,
    ensures
        r@ == spec_collect(arrived@),
{
    let mut models: Vec<Model> = Vec::new();
    drain_into(&mut models, arrived);
    proof {
        assert(models@ =~= spec_collect(arrived@));
    }
    models
}

/// Law: the consumer keeps exactly the meshes that arrived - an empty
/// arrival sequence yields an empty collection, and a sequence of N meshes
/// yields exactly N models, each made of the mesh in its arrival slot.
/// Arrival order across workers is arbitrary, and the statement holds for
/// every such order.
pub proof fn lemma_collect_counts(arrivals: Seq<Mesh>)
    ensures
        spec_collect(arrivals).len() == arrivals.len(),
        arrivals.len() == 0 ==> spec_collect(arrivals) == Seq::<Model>::empty(),
        forall|i: int|
            0 <= i < arrivals.len() ==> spec_collect(arrivals)[i] == model_of(arrivals[i]),
{
    if arrivals.len() == 0 {
        assert(spec_collect(arrivals) =~= Seq::<Model>::empty());
    }
}

} // verus!
