use lightctl::protocol::{update_state, ModeType, State};
use lightctl::translate::{update_light, LightCommand};

fn blank() -> State {
    State { mode: None, dim: None, ct: None, gm: None, hue: None, sat: None }
}

fn cct_state(dim: u16, ct: u16, gm: i16) -> State {
    State { mode: Some(ModeType::CCT), dim: Some(dim), ct: Some(ct), gm: Some(gm), hue: None, sat: None }
}

fn hsi_state(hue: u16, sat: u16, dim: u16) -> State {
    State { mode: Some(ModeType::HSI), dim: Some(dim), ct: None, gm: None, hue: Some(hue), sat: Some(sat) }
}

#[test]
fn translate_none_without_mode() {
    let mut s = blank();
    s.dim = Some(50);
    s.ct = Some(3000);
    s.gm = Some(0);
    s.hue = Some(10);
    s.sat = Some(10);
    assert!(update_light(&s).is_none());
}

#[test]
fn translate_none_with_missing_cct_fields() {
    let mut s = cct_state(50, 3000, 0);
    s.gm = None;
    assert!(update_light(&s).is_none());
    let mut s = cct_state(50, 3000, 0);
    s.dim = None;
    assert!(update_light(&s).is_none());
    let mut s = cct_state(50, 3000, 0);
    s.ct = None;
    assert!(update_light(&s).is_none());
}

#[test]
fn translate_none_with_missing_hsi_fields() {
    let mut s = hsi_state(120, 50, 20);
    s.hue = None;
    assert!(update_light(&s).is_none());
    let mut s = hsi_state(120, 50, 20);
    s.sat = None;
    assert!(update_light(&s).is_none());
    let mut s = hsi_state(120, 50, 20);
    s.dim = None;
    assert!(update_light(&s).is_none());
}

#[test]
fn ct_mapping_endpoints_and_midpoint() {
    let cases = [(2700u16, 0u8), (7500, 100), (1000, 0), (9000, 100), (5100, 50)];
    for (ct, expected) in cases {
        match update_light(&cct_state(50, ct, 0)) {
            Some(LightCommand::CCT(_, ct_val, _)) => assert_eq!(ct_val, expected),
            other => panic!("expected a CCT command, got {:?}", other),
        }
    }
}

#[test]
fn gm_mapping_endpoints_and_midpoint() {
    let cases = [(-100i16, 0u8), (100, 100), (0, 50)];
    for (gm, expected) in cases {
        match update_light(&cct_state(50, 2700, gm)) {
            Some(LightCommand::CCT(_, _, gm_val)) => assert_eq!(gm_val, expected),
            other => panic!("expected a CCT command, got {:?}", other),
        }
    }
}

#[test]
fn values_above_range_saturate_and_never_wrap() {
    match update_light(&hsi_state(400, 150, 200)) {
        Some(LightCommand::HSI(hue, sat, dim)) => {
            assert_eq!(hue, 360);
            assert_eq!(sat, 100);
            assert_eq!(dim, 100);
        }
        other => panic!("expected an HSI command, got {:?}", other),
    }
    match update_light(&cct_state(200, 2700, 0)) {
        Some(LightCommand::CCT(dim, _, _)) => assert_eq!(dim, 100),
        other => panic!("expected a CCT command, got {:?}", other),
    }
}

#[test]
fn merge_keeps_omitted_fields() {
    let mut dest = blank();
    let mut patch = blank();
    patch.mode = Some(ModeType::CCT);
    patch.dim = Some(40);
    update_state(&mut dest, &patch);
    assert!(matches!(dest.mode, Some(ModeType::CCT)));
    assert_eq!(dest.dim, Some(40));
    assert_eq!(dest.ct, None);

    let mut second = blank();
    second.ct = Some(5000);
    update_state(&mut dest, &second);
    assert!(matches!(dest.mode, Some(ModeType::CCT)));
    assert_eq!(dest.dim, Some(40));
    assert_eq!(dest.ct, Some(5000));
}

#[test]
fn merge_overwrites_supplied_fields() {
    let mut dest = cct_state(10, 3000, -5);
    let mut patch = blank();
    patch.dim = Some(90);
    patch.mode = Some(ModeType::HSI);
    update_state(&mut dest, &patch);
    assert!(matches!(dest.mode, Some(ModeType::HSI)));
    assert_eq!(dest.dim, Some(90));
    assert_eq!(dest.ct, Some(3000));
    assert_eq!(dest.gm, Some(-5));
}

#[test]
fn sticky_across_many_patches() {
    let mut dest = blank();
    let mut p1 = blank();
    p1.dim = Some(7);
    let mut p2 = blank();
    p2.hue = Some(200);
    let mut p3 = blank();
    p3.sat = Some(60);
    update_state(&mut dest, &p1);
    update_state(&mut dest, &p2);
    update_state(&mut dest, &p3);
    assert_eq!(dest.dim, Some(7));
    assert_eq!(dest.hue, Some(200));
    assert_eq!(dest.sat, Some(60));
    assert_eq!(dest.mode, None);
}
