use pbr_lights::color::Color;
use pbr_lights::light::DirectionalLight;
use pbr_lights::math::Vec3;

fn vec3(x: f32, y: f32, z: f32) -> Vec3 {
    Vec3::new(x.to_bits(), y.to_bits(), z.to_bits())
}

fn floats(v: Vec3) -> (f32, f32, f32) {
    (f32::from_bits(v.x), f32::from_bits(v.y), f32::from_bits(v.z))
}

fn white() -> Color {
    Color::rgb(1.0f32.to_bits(), 1.0f32.to_bits(), 1.0f32.to_bits())
}

fn glam_says(x: f32, y: f32, z: f32) -> bool {
    bevy_math::Vec3::new(x, y, z).is_normalized()
}

#[test]
fn the_six_axes_are_normalized() {
    for (x, y, z) in [
        (1.0f32, 0.0f32, 0.0f32),
        (-1.0, 0.0, 0.0),
        (0.0, 1.0, 0.0),
        (0.0, -1.0, 0.0),
        (0.0, 0.0, 1.0),
        (0.0, 0.0, -1.0),
        (-0.0, 1.0, -0.0),
        (-1.0, -0.0, 0.0),
    ] {
        assert!(vec3(x, y, z).is_normalized());
        assert!(glam_says(x, y, z));
    }
}

#[test]
fn an_oblique_unit_vector_is_normalized() {
    assert!(vec3(0.6, 0.8, 0.0).is_normalized());
    let third = (1.0f32 / 3.0).sqrt();
    assert!(vec3(third, -third, third).is_normalized());
}

#[test]
fn other_vectors_are_not_normalized() {
    assert!(!vec3(1.0, 1.0, 0.0).is_normalized());
    assert!(!vec3(0.0, 0.0, 0.0).is_normalized());
    assert!(!vec3(0.0, -2.0, 0.0).is_normalized());
    assert!(!vec3(0.6, 0.8, 0.01).is_normalized());
    assert!(!vec3(f32::NAN, 0.0, 0.0).is_normalized());
    assert!(!vec3(f32::INFINITY, 0.0, 0.0).is_normalized());
    assert!(!vec3(1.0, f32::MIN_POSITIVE, 1.0).is_normalized());
}

#[test]
fn the_verdict_is_glams() {
    let samples = [
        -2.0f32, -1.0, -0.8, -0.6, -0.001, -0.0, 0.0, 1.0e-4, 0.5, 0.6, 0.70710677, 0.8, 0.9999995,
        1.0, 1.0000005, 1.5,
    ];
    for &x in samples.iter() {
        for &y in samples.iter() {
            for &z in samples.iter() {
                assert_eq!(vec3(x, y, z).is_normalized(), glam_says(x, y, z), "{x} {y} {z}");
            }
        }
    }
}

#[test]
fn new_keeps_a_unit_direction() {
    let direction = vec3(0.6, 0.0, -0.8);
    let light = DirectionalLight::new(white(), 5.0f32.to_bits(), direction);
    assert_eq!(light.get_direction(), direction);
    assert_eq!(floats(light.get_direction()), (0.6, 0.0, -0.8));
    assert_eq!(light.color, white());
    assert_eq!(f32::from_bits(light.intensity), 5.0);
}

#[test]
fn try_new_takes_a_unit_direction() {
    let direction = vec3(0.0, 0.6, 0.8);
    let light = DirectionalLight::try_new(white(), 7.5f32.to_bits(), direction);
    let light = light.expect("a unit vector is a direction");
    assert_eq!(light.get_direction(), direction);
    assert_eq!(light.color, white());
    assert_eq!(f32::from_bits(light.intensity), 7.5);
}

#[test]
fn try_new_refuses_other_vectors() {
    assert!(DirectionalLight::try_new(white(), 1.0f32.to_bits(), vec3(1.0, 1.0, 0.0)).is_none());
    assert!(DirectionalLight::try_new(white(), 1.0f32.to_bits(), vec3(0.0, 0.0, 0.0)).is_none());
    assert!(DirectionalLight::try_new(white(), 1.0f32.to_bits(), vec3(f32::NAN, 1.0, 0.0)).is_none());
}

#[test]
fn set_direction_turns_the_light() {
    let mut light = DirectionalLight::default();
    let east = vec3(1.0, 0.0, 0.0);
    light.set_direction(east);
    assert_eq!(light.get_direction(), east);
    assert_eq!(light.color, white());
    assert_eq!(f32::from_bits(light.intensity), 100000.0);
}

#[test]
fn try_set_direction_turns_the_light_to_a_unit_vector() {
    let mut light = DirectionalLight::default();
    let slanted = vec3(0.8, -0.6, 0.0);
    assert!(light.try_set_direction(slanted));
    assert_eq!(light.get_direction(), slanted);
    assert_eq!(f32::from_bits(light.intensity), 100000.0);
}

#[test]
fn try_set_direction_leaves_the_light_on_other_vectors() {
    let mut light = DirectionalLight::default();
    assert!(!light.try_set_direction(vec3(1.0, 1.0, 0.0)));
    assert_eq!(light.get_direction(), vec3(0.0, -1.0, 0.0));
    assert_eq!(light.color, white());
    assert_eq!(f32::from_bits(light.intensity), 100000.0);
}

#[test]
fn negated_turns_every_component() {
    let v = vec3(0.25, -3.0, 0.0).negated();
    assert_eq!(v, vec3(-0.25, 3.0, -0.0));
    assert_eq!(v.negated(), vec3(0.25, -3.0, 0.0));
}
