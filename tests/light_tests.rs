use dust::light::{
    DirectionalLight, Matrix4, PointLight, SpotLight, Vector3, AmbientLight, MAX_NO_LIGHTS,
    POINT_STRIDE, SPOT_STRIDE, DIRECTIONAL_STRIDE, SCALAR_ONE, SCALAR_ZERO, SCALAR_MINUS_ONE,
    DEFAULT_CUTOFF,
};

fn bits(v: f32) -> u32 {
    v.to_bits()
}

fn vec3(x: f32, y: f32, z: f32) -> Vector3 {
    Vector3::new(bits(x), bits(y), bits(z))
}

fn some_matrix() -> Matrix4 {
    let mut m = [0u32; 16];
    for (k, e) in m.iter_mut().enumerate() {
        *e = bits(k as f32 * 0.25 + 0.5);
    }
    Matrix4 { m }
}

#[test]
fn point_light_defaults() {
    let lights = PointLight::new();
    for slot in 0..MAX_NO_LIGHTS {
        let base = slot * POINT_STRIDE;
        assert_eq!(lights.buffer().get(base).unwrap(), vec![SCALAR_ONE; 3]);
        assert_eq!(lights.buffer().get(base + 1).unwrap(), vec![SCALAR_ZERO]);
        assert_eq!(lights.buffer().get(base + 2).unwrap(), vec![bits(0.5)]);
        assert_eq!(lights.buffer().get(base + 3).unwrap(), vec![bits(0.05)]);
        assert_eq!(lights.buffer().get(base + 4).unwrap(), vec![bits(0.005)]);
        assert_eq!(lights.buffer().get(base + 6).unwrap(), vec![SCALAR_ZERO; 3]);
    }
}

#[test]
fn point_light_default_falloff_at_ten() {
    let lights = PointLight::new();
    let c = f32::from_bits(lights.buffer().get(2).unwrap()[0]);
    let l = f32::from_bits(lights.buffer().get(3).unwrap()[0]);
    let e = f32::from_bits(lights.buffer().get(4).unwrap()[0]);
    let d = 10.0f32;
    let falloff = 1.0 / (c + l * d + e * d * d);
    assert!((falloff - 1.0 / 1.5).abs() < 1e-4);
}

#[test]
fn point_setter_touches_only_selected_slot() {
    let mut lights = PointLight::new();
    let before: Vec<u32> = lights.buffer().data().to_vec();
    lights.light_at(2).set_color(&vec3(0.25, 0.5, 0.75));
    lights.set_position(&vec3(1.0, 2.0, 3.0));
    let after = lights.buffer().data();
    let record: usize = 12;
    for (k, (a, b)) in after.iter().zip(before.iter()).enumerate() {
        if k / record != 2 {
            assert_eq!(a, b);
        }
    }
    assert_eq!(lights.buffer().get(2 * POINT_STRIDE).unwrap(), vec![bits(0.25), bits(0.5), bits(0.75)]);
    assert_eq!(lights.buffer().get(2 * POINT_STRIDE + 6).unwrap(), vec![bits(1.0), bits(2.0), bits(3.0)]);
}

#[test]
fn point_attenuation_is_stored_in_order() {
    let mut lights = PointLight::new();
    lights.light_at(1).set_attenuation(bits(1.0), bits(0.1), bits(0.01));
    assert_eq!(lights.buffer().get(POINT_STRIDE + 2).unwrap(), vec![bits(1.0)]);
    assert_eq!(lights.buffer().get(POINT_STRIDE + 3).unwrap(), vec![bits(0.1)]);
    assert_eq!(lights.buffer().get(POINT_STRIDE + 4).unwrap(), vec![bits(0.01)]);
    assert_eq!(lights.buffer().get(2).unwrap(), vec![bits(0.5)]);
}

#[test]
fn directional_light_shadows_enable_and_disable() {
    let mut lights = DirectionalLight::new();
    let down = vec3(0.0, -1.0, 0.0);
    let m = some_matrix();
    let light = lights.light_at(0);
    light.set_direction(&down, &m);
    light.enable_shadows(&m);
    assert!(lights.is_shadows_enabled());
    let stored = lights.buffer().get(4).unwrap();
    assert_eq!(stored, m.m.to_vec());
    assert!(stored.iter().any(|v| *v != 0));
    assert_eq!(lights.direction(), Vector3::new(SCALAR_ZERO, SCALAR_MINUS_ONE, SCALAR_ZERO));

    lights.disable_shadows();
    assert!(!lights.is_shadows_enabled());
    assert_eq!(lights.buffer().get(4).unwrap(), vec![0u32; 16]);
    assert_eq!(lights.shadow_pass_slots(), Vec::<usize>::new());
}

#[test]
fn directional_light_defaults_cast_no_shadow() {
    let mut lights = DirectionalLight::new();
    assert_eq!(lights.shadow_pass_slots(), Vec::<usize>::new());
    for slot in 0..MAX_NO_LIGHTS {
        let light = lights.light_at(slot);
        assert!(!light.is_shadows_enabled());
        assert_eq!(light.direction(), Vector3::new(SCALAR_ZERO, SCALAR_MINUS_ONE, SCALAR_ZERO));
        assert_eq!(light.buffer().get(slot * DIRECTIONAL_STRIDE + 4).unwrap(), vec![0u32; 16]);
        assert_eq!(light.buffer().get(slot * DIRECTIONAL_STRIDE).unwrap(), vec![SCALAR_ONE; 3]);
    }
}

#[test]
fn shadow_pass_visits_casting_slots_in_order() {
    let mut lights = SpotLight::new();
    let m = some_matrix();
    lights.light_at(3).enable_shadows(&m);
    lights.light_at(1).set_direction(&vec3(1.0, 0.0, 0.0), &m);
    assert_eq!(lights.shadow_pass_slots(), vec![1, 3]);
    lights.light_at(3).disable_shadows();
    assert_eq!(lights.shadow_pass_slots(), vec![1]);
}

#[test]
fn spot_light_fields() {
    let mut lights = SpotLight::new();
    assert_eq!(lights.light_at(0).cutoff(), DEFAULT_CUTOFF);
    assert_eq!(DEFAULT_CUTOFF, bits(0.1 * std::f32::consts::PI));
    let m = some_matrix();
    let light = lights.light_at(2);
    light.set_position(&vec3(1.0, 2.0, 3.0), &m);
    light.set_cutoff(bits(0.5), &m);
    assert_eq!(light.position(), vec3(1.0, 2.0, 3.0));
    assert_eq!(light.cutoff(), bits(0.5));
    assert!(light.is_shadows_enabled());
    assert_eq!(light.buffer().get(2 * SPOT_STRIDE + 10).unwrap(), m.m.to_vec());
    assert_eq!(lights.light_at(1).position(), vec3(0.0, 0.0, 0.0));
}

#[test]
fn ambient_light_defaults_and_setters() {
    let mut a = AmbientLight::new();
    assert_eq!(a.color(), vec3(1.0, 1.0, 1.0));
    assert_eq!(a.intensity(), bits(0.5));
    a.set_color(&vec3(0.1, 0.2, 0.3));
    a.set_intensity(bits(2.0));
    assert_eq!(a.color(), vec3(0.1, 0.2, 0.3));
    assert_eq!(a.intensity(), bits(2.0));
}
