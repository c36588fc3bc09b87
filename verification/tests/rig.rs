//! The composition functions, exercised on concrete parameters.

use env_rig::{environment, environment_sky, environment_texture};
use env_rig::{Attr, AttrValue, FreshHandles, NodeKind, RigPlan};

fn fresh(tag: &str) -> FreshHandles {
    FreshHandles {
        root: format!("rotation_{tag}"),
        light: format!("environment_{tag}"),
        attributes: format!("attributes_{tag}"),
        shader: format!("shader_{tag}"),
    }
}

fn attr(name: &str, value: AttrValue) -> Attr {
    Attr { name: name.to_string(), value }
}

fn check_topology(p: &RigPlan) {
    assert_eq!(p.nodes.len(), 4);
    assert!(matches!(p.nodes[0].kind, NodeKind::Rotation { .. }));
    assert_eq!(p.nodes[1].kind, NodeKind::Environment);
    assert_eq!(p.nodes[2].kind, NodeKind::Attributes);
    assert_eq!(p.nodes[3].kind, NodeKind::Shader);
    assert_eq!(p.nodes[0].handle, p.root);
    assert_eq!(p.nodes[3].handle, p.shader);

    assert_eq!(p.connections.len(), 3);
    assert_eq!(p.connections[0].source, p.nodes[1].handle);
    assert_eq!(p.connections[0].target, p.root);
    assert_eq!(p.connections[0].slot, None);
    assert_eq!(p.connections[1].source, p.shader);
    assert_eq!(p.connections[1].target, p.nodes[2].handle);
    assert_eq!(p.connections[1].slot, Some("surfaceshader".to_string()));
    assert_eq!(p.connections[2].source, p.nodes[2].handle);
    assert_eq!(p.connections[2].target, p.nodes[1].handle);
    assert_eq!(p.connections[2].slot, Some("geometryattributes".to_string()));
}

#[test]
fn generated_root_is_fresh_and_distinct() {
    let p1 = environment(None, fresh("one"), None, None);
    let p2 = environment(None, fresh("two"), None, None);
    assert!(!p1.root.is_empty());
    assert!(!p2.root.is_empty());
    assert_eq!(p1.root, "rotation_one");
    assert_ne!(p1.root, p2.root);
}

#[test]
fn caller_root_is_kept() {
    let p = environment(Some("my_rig".to_string()), fresh("a"), None, None);
    assert_eq!(p.root, "my_rig");
    let p = environment_texture(
        Some("my_rig2".to_string()),
        fresh("b"),
        "sky.exr".to_string(),
        None,
        None,
        None,
        Vec::new(),
    );
    assert_eq!(p.root, "my_rig2");
    let p = environment_sky(Some("my_rig3".to_string()), fresh("c"), None, None, None, Vec::new());
    assert_eq!(p.root, "my_rig3");
}

#[test]
fn base_rig_topology() {
    let p = environment(None, fresh("t"), None, None);
    check_topology(&p);
    assert!(p.attribute_sets.is_empty());
    let (root, shader) = p.handles();
    assert_eq!(root, p.root);
    assert_eq!(shader, p.shader);
}

#[test]
fn texture_rig_topology() {
    let p = environment_texture(None, fresh("t"), "sky.exr".to_string(), None, None, None, Vec::new());
    check_topology(&p);
}

#[test]
fn sky_rig_topology() {
    let p = environment_sky(None, fresh("t"), None, None, None, Vec::new());
    check_topology(&p);
}

#[test]
fn default_texture_call() {
    let p = environment_texture(
        None,
        fresh("d"),
        "studio.tif".to_string(),
        None,
        None,
        None,
        Vec::new(),
    );

    // One set-attribute call, writing exactly three attributes.
    assert_eq!(p.attribute_sets.len(), 1);
    assert_eq!(p.attribute_sets[0].handle, p.shader);
    let attrs = &p.attribute_sets[0].attrs;
    assert_eq!(attrs.len(), 3);
    assert_eq!(attrs[0].name, "shaderfilename");
    assert_eq!(
        attrs[0].value,
        AttrValue::Str("${DELIGHT}/osl/environmentLight".to_string())
    );
    assert_eq!(attrs[1].name, "intensity");
    // Zero stops: a linear intensity of exactly one.
    match attrs[1].value {
        AttrValue::Stops(bits) => {
            assert_eq!(f32::from_bits(bits), 0.0);
            assert_eq!(2.0f32.powf(f32::from_bits(bits)), 1.0);
        }
        _ => panic!("intensity is not given in stops"),
    }
    assert_eq!(attrs[2].name, "image");
    assert_eq!(attrs[2].value, AttrValue::Str("studio.tif".to_string()));

    // The attributes node shows the camera by default.
    assert_eq!(p.nodes[2].attrs.len(), 1);
    assert_eq!(p.nodes[2].attrs[0].name, "visibility.camera");
    assert_eq!(p.nodes[2].attrs[0].value, AttrValue::Int(1));
}

#[test]
fn invisible_environment() {
    let p = environment(None, fresh("i"), None, Some(false));
    assert_eq!(p.nodes[2].attrs[0].name, "visibility.camera");
    assert_eq!(p.nodes[2].attrs[0].value, AttrValue::Int(0));
}

#[test]
fn exposure_scales_intensity_in_stops() {
    let up = environment_texture(
        None,
        fresh("e1"),
        "m.exr".to_string(),
        None,
        Some(1.0f32.to_bits()),
        None,
        Vec::new(),
    );
    match up.attribute_sets[0].attrs[1].value {
        AttrValue::Stops(bits) => assert_eq!(2.0f32.powf(f32::from_bits(bits)), 2.0),
        _ => panic!("intensity is not given in stops"),
    }

    let down = environment_sky(None, fresh("e2"), None, Some((-1.0f32).to_bits()), None, Vec::new());
    match down.attribute_sets[0].attrs[1].value {
        AttrValue::Stops(bits) => assert_eq!(2.0f32.powf(f32::from_bits(bits)), 0.5),
        _ => panic!("intensity is not given in stops"),
    }
}

#[test]
fn override_wins_over_computed_intensity() {
    let custom = AttrValue::Float(3.5f32.to_bits());
    let p = environment_texture(
        None,
        fresh("o"),
        "m.exr".to_string(),
        None,
        Some(1.0f32.to_bits()),
        None,
        vec![attr("intensity", custom.clone())],
    );
    assert_eq!(p.attribute_sets.len(), 2);
    let seen = p.effective_attribute(&p.shader, &"intensity".to_string());
    assert_eq!(seen, Some(custom));
}

#[test]
fn override_wins_on_sky_variant() {
    let custom = AttrValue::Float(0.25f32.to_bits());
    let p = environment_sky(
        None,
        fresh("os"),
        None,
        None,
        None,
        vec![attr("intensity", custom.clone())],
    );
    let seen = p.effective_attribute(&p.shader, &"intensity".to_string());
    assert_eq!(seen, Some(custom));
}

#[test]
fn rotation_angle_uses_full_turn_per_ninety_degrees() {
    let p = environment(None, fresh("r"), Some(90.0f64.to_bits()), None);
    let stored_degrees = match p.nodes[0].kind {
        NodeKind::Rotation { angle_degrees_bits } => f64::from_bits(angle_degrees_bits),
        _ => panic!("the root node is not a rotation"),
    };
    assert_eq!(stored_degrees, 90.0);
    // The documented conversion is a full turn per 90 degrees of input —
    // not the standard degrees-to-radians factor.
    let stored_rotation = stored_degrees * core::f64::consts::TAU / 90.0;
    assert!((stored_rotation - core::f64::consts::TAU).abs() < 1e-12);
}

#[test]
fn sky_variant_writes_sky_shader_and_no_image() {
    let p = environment_sky(None, fresh("s"), None, None, None, Vec::new());
    assert_eq!(p.attribute_sets.len(), 1);
    assert_eq!(p.attribute_sets[0].handle, p.shader);
    let attrs = &p.attribute_sets[0].attrs;
    assert_eq!(attrs.len(), 2);
    assert_eq!(attrs[0].name, "shaderfilename");
    assert_eq!(attrs[0].value, AttrValue::Str("${DELIGHT}/osl/dlSky".to_string()));
    assert_eq!(attrs[1].name, "intensity");
    assert_eq!(p.effective_attribute(&p.shader, &"image".to_string()), None);
}

#[test]
fn later_override_entry_wins_within_the_list() {
    let first = AttrValue::Float(2.0f32.to_bits());
    let second = AttrValue::Float(4.0f32.to_bits());
    let p = environment_sky(
        None,
        fresh("w"),
        None,
        None,
        None,
        vec![attr("intensity", first), attr("intensity", second.clone())],
    );
    let seen = p.effective_attribute(&p.shader, &"intensity".to_string());
    assert_eq!(seen, Some(second));
}

#[test]
fn effective_attribute_reads_creation_attributes() {
    let p = environment(None, fresh("c"), None, Some(false));
    let handle = p.nodes[2].handle.clone();
    let seen = p.effective_attribute(&handle, &"visibility.camera".to_string());
    assert_eq!(seen, Some(AttrValue::Int(0)));
    assert_eq!(p.effective_attribute(&handle, &"intensity".to_string()), None);
}
