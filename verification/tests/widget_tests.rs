use pthesis::scene::Model;
use pthesis::vertices::Vec3Bits;
use pthesis::widgets::MainOptionsInput;
use pthesis::widgets::ShaderKind;
use pthesis::widgets::State;
use pthesis::widgets::compute_groups;
use pthesis::widgets::main_options;
use pthesis::widgets::normal_map_names;
use pthesis::widgets::performance;
use pthesis::widgets::set_group_active;
use pthesis::widgets::set_shading;
use pthesis::widgets::shader_names;
use pthesis::widgets::shading;
use pthesis::widgets::texture_names;
use pthesis::widgets::toggle_model;

fn model(name: &str, group: &str, active: bool, n_indices: usize, n_vertices: usize) -> Model {
    Model {
        n_indices,
        n_vertices,
        name: name.to_string(),
        group: group.to_string(),
        active,
    }
}

fn scene_models() -> Vec<Model> {
    vec![
        model("Barrel", "Gun", true, 30, 20),
        model("Sphere", "Sphere", false, 60, 40),
        model("Trigger", "Gun", false, 9, 8),
        model("Grid", "Grid", true, 600, 363),
    ]
}

#[test]
fn state_starts_as_the_original_app() {
    let s = State::default();
    assert!(!s.flying_cam);
    assert!(!s.wireframe);
    assert_eq!(s.n_draws, 1);
    assert_eq!(s.texture, 1);
    assert_eq!(s.normal_map, 1);
    assert_eq!(s.shader, 4);
    assert_eq!(s.bgcolor, Vec3Bits { x: 0, y: 0, z: 0 });
    assert_eq!(f32::from_bits(s.model_rotation_x), 0.0);
}

#[test]
fn shading_takes_only_in_range_selections() {
    let mut s = State::default();
    shading(&mut s, Some(7), Some(0), None);
    assert_eq!(s.shader, 7);
    assert_eq!(s.texture, 0);
    assert_eq!(s.normal_map, 1);
    shading(&mut s, Some(12), None, Some(5));
    assert_eq!(s.shader, 7);
    assert_eq!(s.normal_map, 1);
    assert_eq!(shader_names().len(), 12);
    assert_eq!(texture_names(), vec!["World", "Wall"]);
    assert_eq!(normal_map_names(), vec!["Bricks", "Wall"]);
    assert_eq!(shader_names()[4], "Normal Mapping With Rotor");
}

#[test]
fn set_shading_maps_selections_to_slots() {
    let mut s = State::default();
    let plan = set_shading(&s);
    assert_eq!(plan.shader, ShaderKind::RotorNm);
    assert_eq!(plan.texture_slot, 3);
    assert_eq!(plan.normal_map_slot, 4);
    s.texture = 0;
    s.normal_map = 0;
    s.shader = 0;
    let plan = set_shading(&s);
    assert_eq!(plan.shader, ShaderKind::Flat);
    assert_eq!(plan.texture_slot, 2);
    assert_eq!(plan.normal_map_slot, 1);
    s.shader = 11;
    assert_eq!(set_shading(&s).shader, ShaderKind::CayleyRotorNm);
    s.shader = 6;
    assert_eq!(set_shading(&s).shader, ShaderKind::OuterLogMotorNm);
}

#[test]
fn groups_are_deduplicated_with_correct_flags() {
    let models = scene_models();
    let groups = compute_groups(&models);
    assert_eq!(groups.len(), 3);
    let gun = groups.iter().find(|g| g.name == "Gun").unwrap();
    assert!(gun.any_active);
    assert!(gun.any_nonactive);
    let sphere = groups.iter().find(|g| g.name == "Sphere").unwrap();
    assert!(!sphere.any_active);
    assert!(sphere.any_nonactive);
    let grid = groups.iter().find(|g| g.name == "Grid").unwrap();
    assert!(grid.any_active);
    assert!(!grid.any_nonactive);
}

#[test]
fn group_switching_and_toggling() {
    let mut models = scene_models();
    set_group_active(&mut models, &"Gun".to_string(), true);
    assert!(models[0].active && models[2].active);
    assert!(!models[1].active);
    set_group_active(&mut models, &"Gun".to_string(), false);
    assert!(!models[0].active && !models[2].active);
    toggle_model(&mut models, 1);
    assert!(models[1].active);
    toggle_model(&mut models, 1);
    assert!(!models[1].active);
    let before: Vec<bool> = models.iter().map(|m| m.active).collect();
    toggle_model(&mut models, 99);
    let after: Vec<bool> = models.iter().map(|m| m.active).collect();
    assert_eq!(before, after);
}

#[test]
fn main_options_applies_edits_and_clicks() {
    let mut state = State::default();
    let mut models = scene_models();
    let gun_row = {
        let groups = compute_groups(&models);
        groups.iter().position(|g| g.name == "Gun").unwrap()
    };
    let input = MainOptionsInput {
        flying_cam: true,
        wireframe: true,
        bgcolor: Vec3Bits { x: 1, y: 2, z: 3 },
        model_rotation_x: 2.5f32.to_bits(),
        n_draws: 99,
        activate_group: Some(gun_row),
        deactivate_group: None,
        toggle_model: Some(3),
    };
    let groups = main_options(&mut state, &mut models, &input);
    assert!(state.flying_cam && state.wireframe);
    assert_eq!(state.n_draws, 40, "the draw count is clamped to the slider range");
    assert_eq!(state.shader, 4, "the shading selections are untouched");
    assert_eq!(f32::from_bits(state.model_rotation_x), 2.5);
    assert_eq!(groups.len(), 3);
    assert!(models[0].active && models[2].active, "the clicked group is switched on");
    assert!(!models[3].active, "the clicked model row is toggled");
}

#[test]
fn performance_totals_count_only_drawn_models() {
    let models = scene_models();
    let totals = performance(&models, 2, 1600, 1600).unwrap();
    assert_eq!(totals.n_indices, (30 + 600) * 2);
    assert_eq!(totals.n_vertices, (20 + 363) * 2);
    assert_eq!(totals.n_fragments, 2_560_000);
    let big = vec![model("Huge", "Huge", true, usize::MAX, 1)];
    assert!(performance(&big, 40, 1, 1).is_none());
}

#[test]
fn no_models_means_no_groups() {
    let models: Vec<Model> = Vec::new();
    assert!(compute_groups(&models).is_empty());
    let totals = performance(&models, 1, 8, 8).unwrap();
    assert_eq!((totals.n_indices, totals.n_vertices, totals.n_fragments), (0, 0, 64));
}

#[test]
fn out_of_range_clicks_change_nothing() {
    let mut state = State::default();
    let mut models = scene_models();
    let before: Vec<bool> = models.iter().map(|m| m.active).collect();
    let input = MainOptionsInput {
        flying_cam: false,
        wireframe: false,
        bgcolor: Vec3Bits { x: 0, y: 0, z: 0 },
        model_rotation_x: 0,
        n_draws: 0,
        activate_group: Some(99),
        deactivate_group: Some(99),
        toggle_model: Some(99),
    };
    main_options(&mut state, &mut models, &input);
    let after: Vec<bool> = models.iter().map(|m| m.active).collect();
    assert_eq!(before, after);
    assert_eq!(state.n_draws, 1, "a draw count below the slider range is clamped up");
}
