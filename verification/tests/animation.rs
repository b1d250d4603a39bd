use ascii_tracer::anim::{LightState, ROT_COS, ROT_SIN};
use ascii_tracer::fixed::FX_ONE;
use ascii_tracer::vec3::V3;

const S: i128 = FX_ONE;

#[test]
fn light_starts_at_its_fixed_position() {
    let st = LightState::new();
    assert_eq!(st.light, V3::new(70 * S, 50 * S, 100 * S));
}

#[test]
fn one_advance_rotates_exactly_by_the_step() {
    let mut st = LightState::new();
    st.advance();
    // x' = 70 * cos - 50 * sin, y' = 70 * sin + 50 * cos, in fixed-point
    // units; the products with whole coordinates are exact.
    assert_eq!(st.light.x, 70 * ROT_COS - 50 * ROT_SIN);
    assert_eq!(st.light.y, 70 * ROT_SIN + 50 * ROT_COS);
    assert_eq!(st.light.z, 100 * S);
}

#[test]
fn height_is_preserved_over_a_full_sweep() {
    // 7200 steps of 0.05 rad sweep 360 rad; whatever the horizontal
    // drift, the height never changes.
    let mut st = LightState::new();
    for _ in 0..7200 {
        st.advance();
    }
    assert_eq!(st.light.z, 100 * S);
    // 360 rad is no whole number of turns, so the light does not return
    // to its starting position.
    assert_ne!((st.light.x, st.light.y), (70 * S, 50 * S));
}

#[test]
fn orbit_radius_drifts_only_slowly() {
    // The rotation constants are slightly short of a unit vector; over a
    // full sweep the orbit radius must keep most of its length.
    let mut st = LightState::new();
    let r0 = st.light.x * st.light.x + st.light.y * st.light.y;
    for _ in 0..7200 {
        st.advance();
    }
    let r1 = st.light.x * st.light.x + st.light.y * st.light.y;
    assert!(r1 > r0 / 2, "orbit radius collapsed: {r0} -> {r1}");
    assert!(r1 <= r0 + r0 / 2, "orbit radius grew: {r0} -> {r1}");
}
