//! The decisions behind the settings widgets: which shader, texture and
//! normal map are bound, which model groups exist and which models are
//! drawn, and the totals the performance readout shows.
//!
//! The host program renders the widgets and reports what was clicked; the
//! functions here apply those events to the state and the scene.  Everything
//! the widgets decide is stated here; the host only draws.

use vstd::prelude::*;
use vstd::arithmetic::mul::lemma_mul_inequality;
use vstd::arithmetic::mul::lemma_mul_upper_bound;

use crate::scene::Model;
use crate::text::str_eq;
use crate::vertices::Vec3Bits;

verus! {

// ---------------------------------------------------------------------------
// Application state.
// ---------------------------------------------------------------------------

/// The loose settings of the application, edited through the widgets.
/// Colour components and the model rotation are IEEE-754 bit patterns of
/// 32-bit floats.
#[derive(Clone, Copy, Debug, PartialEq, Eq, Structural)]
pub struct State {
    pub flying_cam: bool,
    pub bgcolor: Vec3Bits,
    pub n_draws: u32,
    pub texture: usize,
    pub normal_map: usize,
    pub shader: usize,
    pub wireframe: bool,
    pub model_rotation_x: u32,
}

impl State {
    /// The selections stay inside their closed lists and the draw count
    /// inside its slider range.
    pub open spec fn wf(self) -> bool {
        &&& self.texture < 2
        &&& self.normal_map < 2
        &&& self.shader < 12
        &&& 1 <= self.n_draws <= 40
    }
}

impl Default for State {
    /// The state the application starts in: one draw, the second texture
    /// and normal map, the rotor shader, black background.
    fn default() -> (r: State)
        ensures
            r == (State {
                flying_cam: false,
                bgcolor: Vec3Bits { x: 0u32, y: 0u32, z: 0u32 },
                n_draws: 1u32,
                texture: 1usize,
                normal_map: 1usize,
                shader: 4usize,
                wireframe: false,
                model_rotation_x: 0u32,
            }),
            r.wf(),
    {
        State {
            flying_cam: false,
            bgcolor: Vec3Bits { x: 0, y: 0, z: 0 },
            n_draws: 1,
            texture: 1,
            normal_map: 1,
            shader: 4,
            wireframe: false,
            model_rotation_x: 0,
        }
    }
}

// ---------------------------------------------------------------------------
// The shading widget: three selections out of closed lists.
// ---------------------------------------------------------------------------

/// A selection from a list: taken when it is in range, otherwise the
/// current value is kept.
pub open spec fn pick(current: usize, choice: Option<usize>, bound: usize) -> usize {
    match choice {
        Some(s) => if s < bound {
            s
        } else {
            current
        },
        None => current,
    }
}

/// Applies the shading widget's selections: shader, texture and normal map
/// each change only to an in-range choice.
pub fn shading(
    state: &mut State,
    shader: Option<usize>,
    texture: Option<usize>,
    normal_map: Option<usize>,
)
    requires
        old(state).wf(),
    ensures
        *final(state) == (State {
            shader: pick(old(state).shader, shader, 12),
            texture: pick(old(state).texture, texture, 2),
            normal_map: pick(old(state).normal_map, normal_map, 2),
            ..*old(state)
        }),
        final(state).wf(),
{
    if let Some(s) = shader {
        if s < 12 {
            state.shader = s;
        }
    }
    if let Some(t) = texture {
        if t < 2 {
            state.texture = t;
        }
    }
    if let Some(n) = normal_map {
        if n < 2 {
            state.normal_map = n;
        }
    }
}

/// The labels of the shader list, in selection order.
pub fn shader_names() -> (r: Vec<&'static str>)
    ensures
        r@.len() == 12,
        r@[0]@ == "Flat Phong Shading"@,
        r@[1]@ == "Albedo Mapping"@,
        r@[2]@ == "Normal Mapping With Matrix"@,
        r@[3]@ == "Normal And Albedo Mapping"@,
        r@[4]@ == "Normal Mapping With Rotor"@,
        r@[5]@ == "Normal Mapping With Motor"@,
        r@[6]@ == "Normal Mapping With Outer Log Motor"@,
        r@[7]@ == "Normal Mapping With Outer Log Rotor"@,
        r@[8]@ == "Normal Mapping With QTangent"@,
        r@[9]@ == "Normal Mapping With Tang and BiTang"@,
        r@[10]@ == "With Cayley Motor"@,
        r@[11]@ == "With Cayley Rotor"@,
{
    vec![
        "Flat Phong Shading",
        "Albedo Mapping",
        "Normal Mapping With Matrix",
        "Normal And Albedo Mapping",
        "Normal Mapping With Rotor",
        "Normal Mapping With Motor",
        "Normal Mapping With Outer Log Motor",
        "Normal Mapping With Outer Log Rotor",
        "Normal Mapping With QTangent",
        "Normal Mapping With Tang and BiTang",
        "With Cayley Motor",
        "With Cayley Rotor",
    ]
}

/// The labels of the texture list, in selection order.
pub fn texture_names() -> (r: Vec<&'static str>)
    ensures
        r@.len() == 2,
        r@[0]@ == "World"@,
        r@[1]@ == "Wall"@,
{
    vec!["World", "Wall"]
}

/// The labels of the normal-map list, in selection order.
pub fn normal_map_names() -> (r: Vec<&'static str>)
    ensures
        r@.len() == 2,
        r@[0]@ == "Bricks"@,
        r@[1]@ == "Wall"@,
{
    vec!["Bricks", "Wall"]
}

// ---------------------------------------------------------------------------
// The shading plan: from state to the shader and texture slots to bind.
// ---------------------------------------------------------------------------

/// The shader a state's selection index stands for.
#[derive(Clone, Copy, Debug, PartialEq, Eq, Structural)]
pub enum ShaderKind {
    Flat,
    Textured,
    MatrixNm,
    NormalAlbedo,
    RotorNm,
    MotorNm,
    OuterLogMotorNm,
    OuterLogRotorNm,
    QTangNm,
    BitangNm,
    CayleyMotorNm,
    CayleyRotorNm,
}

/// What a frame binds before drawing the scene: the shader and the texture
/// slots its samplers read.
#[derive(Clone, Copy, Debug, PartialEq, Eq, Structural)]
pub struct ShadingPlan {
    pub shader: ShaderKind,
    pub texture_slot: i32,
    pub normal_map_slot: i32,
}

/// The shader of a selection index, in the order of the shader list.
pub open spec fn spec_shader_kind(shader: usize) -> ShaderKind {
    if shader == 0 {
        ShaderKind::Flat
    } else if shader == 1 {
        ShaderKind::Textured
    } else if shader == 2 {
        ShaderKind::MatrixNm
    } else if shader == 3 {
        ShaderKind::NormalAlbedo
    } else if shader == 4 {
        ShaderKind::RotorNm
    } else if shader == 5 {
        ShaderKind::MotorNm
    } else if shader == 6 {
        ShaderKind::OuterLogMotorNm
    } else if shader == 7 {
        ShaderKind::OuterLogRotorNm
    } else if shader == 8 {
        ShaderKind::QTangNm
    } else if shader == 9 {
        ShaderKind::BitangNm
    } else if shader == 10 {
        ShaderKind::CayleyMotorNm
    } else {
        ShaderKind::CayleyRotorNm
    }
}

/// The plan a state asks for: the world texture sits in slot 2 and the wall
/// texture in slot 3; the brick normal map in slot 1 and the wall normal map
/// in slot 4.
pub open spec fn spec_set_shading(s: State) -> ShadingPlan {
    ShadingPlan {
        shader: spec_shader_kind(s.shader),
        texture_slot: if s.texture == 0 {
            2
        } else {
            3
        },
        normal_map_slot: if s.normal_map == 0 {
            1
        } else {
            4
        },
    }
}

/// Decides which shader and texture slots the frame binds.
pub fn set_shading(state: &State) -> (r: ShadingPlan)
    requires
        state.wf(),
    ensures
        r == spec_set_shading(*state),
{
    let texture_slot: i32 = if state.texture == 0 {
        2
    } else {
        3
    };
    let normal_map_slot: i32 = if state.normal_map == 0 {
        1
    } else {
        4
    };
    let shader = if state.shader == 0 {
        ShaderKind::Flat
    } else if state.shader == 1 {
        ShaderKind::Textured
    } else if state.shader == 2 {
        ShaderKind::MatrixNm
    } else if state.shader == 3 {
        ShaderKind::NormalAlbedo
    } else if state.shader == 4 {
        ShaderKind::RotorNm
    } else if state.shader == 5 {
        ShaderKind::MotorNm
    } else if state.shader == 6 {
        ShaderKind::OuterLogMotorNm
    } else if state.shader == 7 {
        ShaderKind::OuterLogRotorNm
    } else if state.shader == 8 {
        ShaderKind::QTangNm
    } else if state.shader == 9 {
        ShaderKind::BitangNm
    } else if state.shader == 10 {
        ShaderKind::CayleyMotorNm
    } else {
        ShaderKind::CayleyRotorNm
    };
    ShadingPlan { shader, texture_slot, normal_map_slot }
}

// ---------------------------------------------------------------------------
// Model groups: models that belong together and are switched as one.
// ---------------------------------------------------------------------------

/// Some models belong together but are drawn separately - the parts of one
/// loaded asset share a group.  A group row in the settings shows whether
/// any of its models is drawn and whether any is not.
#[derive(Clone, Debug)]
pub struct ModelGroup {
    pub name: String,
    pub any_active: bool,
    pub any_nonactive: bool,
}

impl ModelGroup {
    /// A fresh group row: nothing of it drawn yet.
    pub fn new(name: String) -> (r: ModelGroup)
        ensures
            r.name == name,
            !r.any_active,
            r.any_nonactive,
    {
        ModelGroup { name, any_active: false, any_nonactive: true }
    }
}

/// Some model carries this group name.
pub open spec fn has_group(models: Seq<Model>, name: Seq<char>) -> bool {
    exists|i: int| 0 <= i < models.len() && #[trigger] models[i].group@ == name
}

/// Some model of the group is drawn.
pub open spec fn group_has_active(models: Seq<Model>, name: Seq<char>) -> bool {
    exists|i: int|
        0 <= i < models.len() && #[trigger] models[i].group@ == name && models[i].active
}

/// Some model of the group is not drawn.
pub open spec fn group_has_inactive(models: Seq<Model>, name: Seq<char>) -> bool {
    exists|i: int|
        0 <= i < models.len() && #[trigger] models[i].group@ == name && !models[i].active
}

/// A correct group row for a model list: its name occurs there and its two
/// flags say exactly whether the group has a drawn and a not-drawn model.
pub open spec fn group_wf(g: ModelGroup, models: Seq<Model>) -> bool {
    &&& has_group(models, g.name@)
    &&& g.any_active == group_has_active(models, g.name@)
    &&& g.any_nonactive == group_has_inactive(models, g.name@)
}

fn group_any_active(models: &Vec<Model>, name: &String) -> (r: bool)
    ensures
        r == group_has_active(models@, name@),
{
    let n = models.len();
    let mut r = false;
    let mut i: usize = 0;
    while i < n
        invariant
            n == models@.len(),
            i <= n,
            r ==> group_has_active(models@, name@),
            !r ==> forall|j: int|
                0 <= j < i ==> !(#[trigger] models@[j].group@ == name@ && models@[j].active),
        decreases n - i,
    {
        if models[i].active && str_eq(models[i].group.as_str(), name.as_str()) {
            r = true;
        }
        i = i + 1;
    }
    r
}

fn group_any_inactive(models: &Vec<Model>, name: &String) -> (r: bool)
    ensures
        r == group_has_inactive(models@, name@),
{
    let n = models.len();
    let mut r = false;
    let mut i: usize = 0;
    while i < n
        invariant
            n == models@.len(),
            i <= n,
            r ==> group_has_inactive(models@, name@),
            !r ==> forall|j: int|
                0 <= j < i ==> !(#[trigger] models@[j].group@ == name@ && !models@[j].active),
        decreases n - i,
    {
        if !models[i].active && str_eq(models[i].group.as_str(), name.as_str()) {
            r = true;
        }
        i = i + 1;
    }
    r
}

/// Some group row in the list carries this name.
pub open spec fn groups_cover(groups: Seq<ModelGroup>, name: Seq<char>) -> bool {
    exists|k: int| 0 <= k < groups.len() && #[trigger] groups[k].name@ == name
}

/// Some name in the list has this view.
spec fn names_cover(names: Seq<String>, name: Seq<char>) -> bool {
    exists|k: int| 0 <= k < names.len() && #[trigger] names[k]@ == name
}

/// The group names of a model list, each once, in order of first
/// occurrence.
pub open spec fn spec_group_names(models: Seq<Model>) -> Seq<Seq<char>>
    decreases models.len(),
{
    if models.len() == 0 {
        Seq::empty()
    } else {
        let prev = spec_group_names(models.drop_last());
        if prev.contains(models.last().group@) {
            prev
        } else {
            prev.push(models.last().group@)
        }
    }
}

/// Finds every group in the model list - each name once, in order of first
/// occurrence - with its two flags computed from the models.
#[verifier::loop_isolation(false)]
pub fn compute_groups(models: &Vec<Model>) -> (groups: Vec<ModelGroup>)
    ensures
        groups@.map_values(|g: ModelGroup| g.name@) == spec_group_names(models@),
        forall|k: int| 0 <= k < groups@.len() ==> group_wf(#[trigger] groups@[k], models@),
        forall|i: int|
            0 <= i < models@.len() ==> groups_cover(groups@, #[trigger] models@[i].group@),
        forall|k1: int, k2: int|
            0 <= k1 < k2 < groups@.len() ==> groups@[k1].name@ != groups@[k2].name@,
{
    let n = models.len();
    let mut names: Vec<String> = Vec::new();
    let mut i: usize = 0;
    while i < n
        invariant
            n == models@.len(),
            i <= n,
            names@.map_values(|s: String| s@) == spec_group_names(models@.subrange(0, i as int)),
            forall|k: int|
                0 <= k < names@.len() ==> has_group(models@, #[trigger] names@[k]@),
            forall|j: int| 0 <= j < i ==> names_cover(names@, #[trigger] models@[j].group@),
            forall|k1: int, k2: int|
                0 <= k1 < k2 < names@.len() ==> names@[k1]@ != names@[k2]@,
        decreases n - i,
    {
        let ghost names0 = names@;
        let mut found = false;
        let mut k: usize = 0;
        let m = names.len();
        while k < m
            invariant
                m == names@.len(),
                k <= m,
                names@ == names0,
                found ==> names_cover(names@, models@[i as int].group@),
                !found ==> forall|k2: int|
                    0 <= k2 < k ==> #[trigger] names@[k2]@ != models@[i as int].group@,
            decreases m - k,
        {
            if str_eq(names[k].as_str(), models[i].group.as_str()) {
                found = true;
            }
            k = k + 1;
        }
        if !found {
            names.push(models[i].group.clone());
        }
        proof {
            let prev = spec_group_names(models@.subrange(0, i as int));
            let g = models@[i as int].group@;
            assert(models@.subrange(0, i + 1).drop_last() =~= models@.subrange(0, i as int));
            assert(models@.subrange(0, i + 1).last() == models@[i as int]);
            if found {
                let k0 = choose|k0: int| 0 <= k0 < names0.len() && #[trigger] names0[k0]@ == g;
                assert(prev[k0] == g);
                assert(prev.contains(g));
            } else {
                if prev.contains(g) {
                    let j = choose|j: int| 0 <= j < prev.len() && #[trigger] prev[j] == g;
                    assert(names0[j]@ == g);
                }
                assert(!prev.contains(g));
                assert(names@.map_values(|s: String| s@) =~= prev.push(g));
            }
            assert(names@.map_values(|s: String| s@) == spec_group_names(
                models@.subrange(0, i + 1),
            ));
        }
        proof {
            assert forall|j: int| 0 <= j <= i implies names_cover(
                names@,
                #[trigger] models@[j].group@,
            ) by {
                if j < i {
                    let k0 = choose|k0: int|
                        0 <= k0 < names0.len() && #[trigger] names0[k0]@ == models@[j].group@;
                    assert(0 <= k0 < names@.len() && names@[k0]@ == models@[j].group@);
                } else if found {
                    let gname = models@[i as int].group@;
                    let k0 = choose|k0: int|
                        0 <= k0 < names0.len() && #[trigger] names0[k0]@ == gname;
                    assert(0 <= k0 < names@.len() && names@[k0]@ == models@[j].group@);
                } else {
                    assert(names@[names@.len() - 1]@ == models@[j].group@);
                }
            }
        }
        i = i + 1;
    }
    let mut groups: Vec<ModelGroup> = Vec::new();
    let mut k: usize = 0;
    let m = names.len();
    while k < m
        invariant
            m == names@.len(),
            k <= m,
            groups@.len() == k,
            forall|k2: int| 0 <= k2 < m ==> has_group(models@, #[trigger] names@[k2]@),
            forall|k2: int| 0 <= k2 < k ==> #[trigger] groups@[k2].name@ == names@[k2]@,
            forall|k2: int| 0 <= k2 < k ==> group_wf(#[trigger] groups@[k2], models@),
            forall|k1: int, k2: int|
                0 <= k1 < k2 < m ==> names@[k1]@ != names@[k2]@,
        decreases m - k,
    {
        let any_active = group_any_active(models, &names[k]);
        let any_nonactive = group_any_inactive(models, &names[k]);
        let name = names[k].clone();
        groups.push(ModelGroup { name, any_active, any_nonactive });
        k = k + 1;
    }
    proof {
        assert(models@.subrange(0, n as int) =~= models@);
        assert(groups@.map_values(|g: ModelGroup| g.name@) =~= names@.map_values(
            |s: String| s@,
        ));
        assert forall|i2: int| 0 <= i2 < models@.len() implies groups_cover(
            groups@,
            #[trigger] models@[i2].group@,
        ) by {
            let k2 = choose|k2: int|
                0 <= k2 < names@.len() && #[trigger] names@[k2]@ == models@[i2].group@;
            assert(0 <= k2 < groups@.len() && groups@[k2].name@ == models@[i2].group@);
        }
    }
    groups
}

/// A model with its drawn flag replaced.
pub open spec fn with_active(m: Model, active: bool) -> Model {
    Model { active, ..m }
}

/// The model list with every model of the named group switched to `active`.
pub open spec fn spec_set_group(models: Seq<Model>, name: Seq<char>, active: bool) -> Seq<Model> {
    models.map_values(
        |m: Model|
            if m.group@ == name {
                with_active(m, active)
            } else {
                m
            },
    )
}

/// Switches every model of the named group on or off.
pub fn set_group_active(models: &mut Vec<Model>, name: &String, active: bool)
    ensures
        final(models)@ == spec_set_group(old(models)@, name@, active),
{
    let n = models.len();
    let mut i: usize = 0;
    while i < n
        invariant
            n == models@.len() == old(models)@.len(),
            i <= n,
            forall|j: int|
                0 <= j < i ==> models@[j] == spec_set_group(old(models)@, name@, active)[j],
            forall|j: int| i <= j < n ==> models@[j] == old(models)@[j],
        decreases n - i,
    {
        if str_eq(models[i].group.as_str(), name.as_str()) {
            let nm = models[i].name.clone();
            let gr = models[i].group.clone();
            let ni = models[i].n_indices;
            let nv = models[i].n_vertices;
            models[i] = Model { n_indices: ni, n_vertices: nv, name: nm, group: gr, active };
        }
        i = i + 1;
    }
    proof {
        assert(models@ =~= spec_set_group(old(models)@, name@, active));
    }
}

/// The model list with the drawn flag of model `i` flipped; out-of-range
/// indices change nothing.
pub open spec fn spec_toggle(models: Seq<Model>, i: int) -> Seq<Model> {
    if 0 <= i < models.len() {
        models.update(i, with_active(models[i], !models[i].active))
    } else {
        models
    }
}

/// Flips whether model `i` is drawn.
pub fn toggle_model(models: &mut Vec<Model>, i: usize)
    ensures
        final(models)@ == spec_toggle(old(models)@, i as int),
{
    if i < models.len() {
        let nm = models[i].name.clone();
        let gr = models[i].group.clone();
        let ni = models[i].n_indices;
        let nv = models[i].n_vertices;
        let act = !models[i].active;
        models[i] = Model { n_indices: ni, n_vertices: nv, name: nm, group: gr, active: act };
    }
}

// ---------------------------------------------------------------------------
// The main settings widget.
// ---------------------------------------------------------------------------

/// What one frame of the main settings widget reported: the edited values
/// and which rows, if any, were clicked.
#[derive(Clone, Copy, Debug, PartialEq, Eq, Structural)]
pub struct MainOptionsInput {
    pub flying_cam: bool,
    pub wireframe: bool,
    pub bgcolor: Vec3Bits,
    pub model_rotation_x: u32,
    pub n_draws: u32,
    /// Clicked row of the group-activation list, as an index into the
    /// computed group list.
    pub activate_group: Option<usize>,
    /// Clicked row of the group-deactivation list.
    pub deactivate_group: Option<usize>,
    /// Clicked row of the model list, as an index into the model list.
    pub toggle_model: Option<usize>,
}

/// The draw count confined to its slider range.
pub open spec fn clamp_draws(n: u32) -> u32 {
    if n < 1 {
        1
    } else if n > 40 {
        40
    } else {
        n
    }
}

/// The model list after one clicked group row, if any: an in-range click
/// switches the named group, anything else changes nothing.
pub open spec fn spec_group_click(
    models: Seq<Model>,
    groups: Seq<ModelGroup>,
    click: Option<usize>,
    active: bool,
) -> Seq<Model> {
    match click {
        Some(k) => if k < groups.len() {
            spec_set_group(models, groups[k as int].name@, active)
        } else {
            models
        },
        None => models,
    }
}

/// The model list after the three possible clicks of one frame, applied in
/// widget order: activate a group, deactivate a group, toggle a model.
pub open spec fn spec_apply_clicks(
    models: Seq<Model>,
    groups: Seq<ModelGroup>,
    input: MainOptionsInput,
) -> Seq<Model> {
    let s1 = spec_group_click(models, groups, input.activate_group, true);
    let s2 = spec_group_click(s1, groups, input.deactivate_group, false);
    match input.toggle_model {
        Some(i) => spec_toggle(s2, i as int),
        None => s2,
    }
}

/// Applies one frame of the main settings widget: stores the edited values
/// (the draw count clamped to its slider range), computes the group rows
/// shown, and applies the clicked rows to the models.
pub fn main_options(state: &mut State, models: &mut Vec<Model>, input: &MainOptionsInput) -> (groups:
    Vec<ModelGroup>)
    requires
        old(state).wf(),
    ensures
        *final(state) == (State {
            flying_cam: input.flying_cam,
            wireframe: input.wireframe,
            bgcolor: input.bgcolor,
            model_rotation_x: input.model_rotation_x,
            n_draws: clamp_draws(input.n_draws),
            ..*old(state)
        }),
        final(state).wf(),
        groups@.map_values(|g: ModelGroup| g.name@) == spec_group_names(old(models)@),
        forall|k: int| 0 <= k < groups@.len() ==> group_wf(#[trigger] groups@[k], old(models)@),
        forall|i: int|
            0 <= i < old(models)@.len() ==> groups_cover(groups@, #[trigger] old(models)@[i].group@),
        forall|k1: int, k2: int|
            0 <= k1 < k2 < groups@.len() ==> groups@[k1].name@ != groups@[k2].name@,
        final(models)@ == spec_apply_clicks(old(models)@, groups@, *input),
{
    state.flying_cam = input.flying_cam;
    state.wireframe = input.wireframe;
    state.bgcolor = input.bgcolor;
    state.model_rotation_x = input.model_rotation_x;
    state.n_draws = if input.n_draws < 1 {
        1
    } else if input.n_draws > 40 {
        40
    } else {
        input.n_draws
    };
    let groups = compute_groups(models);
    if let Some(k) = input.activate_group {
        if k < groups.len() {
            set_group_active(models, &groups[k].name, true);
        }
    }
    if let Some(k) = input.deactivate_group {
        if k < groups.len() {
            set_group_active(models, &groups[k].name, false);
        }
    }
    if let Some(i) = input.toggle_model {
        toggle_model(models, i);
    }
    groups
}

// ---------------------------------------------------------------------------
// The performance readout.
// ---------------------------------------------------------------------------

/// The totals the performance readout shows for one frame.
#[derive(Clone, Copy, Debug, PartialEq, Eq, Structural)]
pub struct PerfTotals {
    pub n_indices: u64,
    pub n_vertices: u64,
    pub n_fragments: u64,
}

/// The index count of the drawn models.
pub open spec fn spec_active_indices(models: Seq<Model>) -> int
    decreases models.len(),
{
    if models.len() == 0 {
        0
    } else {
        spec_active_indices(models.drop_last()) + if models.last().active {
            models.last().n_indices as int
        } else {
            0
        }
    }
}

/// The vertex count of the drawn models.
pub open spec fn spec_active_vertices(models: Seq<Model>) -> int
    decreases models.len(),
{
    if models.len() == 0 {
        0
    } else {
        spec_active_vertices(models.drop_last()) + if models.last().active {
            models.last().n_vertices as int
        } else {
            0
        }
    }
}

/// Computes the totals of one frame: the index and vertex counts of the
/// drawn models times the draw count, and the fragment count of the window.
/// `None` exactly when a total would not fit 64 bits.
#[verifier::loop_isolation(false)]
pub fn performance(models: &Vec<Model>, n_draws: u32, width: u32, height: u32) -> (r: Option<
    PerfTotals,
>)
    requires
        1 <= n_draws,
    ensures
        r is Some <==> spec_active_indices(models@) * n_draws <= u64::MAX
            && spec_active_vertices(models@) * n_draws <= u64::MAX,
        r matches Some(t) ==> {
            &&& t.n_indices == spec_active_indices(models@) * n_draws
            &&& t.n_vertices == spec_active_vertices(models@) * n_draws
            &&& t.n_fragments == width * height
        },
{
    let n = models.len();
    let mut si: u128 = 0;
    let mut sv: u128 = 0;
    let mut i: usize = 0;
    while i < n
        invariant
            i <= n,
            si == spec_active_indices(models@.subrange(0, i as int)),
            sv == spec_active_vertices(models@.subrange(0, i as int)),
            si <= i * (u64::MAX as int),
            sv <= i * (u64::MAX as int),
        decreases n - i,
    {
        proof {
            assert(models@.subrange(0, i + 1).drop_last() =~= models@.subrange(0, i as int));
            assert(models@.subrange(0, i + 1).last() == models@[i as int]);
            lemma_mul_inequality(i + 1, 0x1_0000_0000_0000_0000, u64::MAX as int);
        }
        if models[i].active {
            si = si + models[i].n_indices as u128;
            sv = sv + models[i].n_vertices as u128;
        }
        i = i + 1;
    }
    proof {
        assert(models@.subrange(0, n as int) =~= models@);
    }
    let nd = n_draws as u128;
    if si > u64::MAX as u128 {
        proof {
            lemma_mul_inequality(1, nd as int, si as int);
        }
        return None;
    }
    if sv > u64::MAX as u128 {
        proof {
            lemma_mul_inequality(1, nd as int, sv as int);
        }
        return None;
    }
    proof {
        lemma_mul_upper_bound(si as int, u64::MAX as int, nd as int, u32::MAX as int);
        lemma_mul_upper_bound(sv as int, u64::MAX as int, nd as int, u32::MAX as int);
    }
    let pi = si * nd;
    let pv = sv * nd;
    if pi > u64::MAX as u128 {
        return None;
    }
    if pv > u64::MAX as u128 {
        return None;
    }
    proof {
        lemma_mul_upper_bound(width as int, u32::MAX as int, height as int, u32::MAX as int);
    }
    Some(
        PerfTotals {
            n_indices: pi as u64,
            n_vertices: pv as u64,
            n_fragments: (width as u64) * (height as u64),
        },
    )
}

} // verus!
