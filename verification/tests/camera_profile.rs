use solarity_runtime::camera_profile::{
    is_saved_camera_cvar, saved_camera_defaults, world_cvar_values,
};

fn pair(name: &str, value: &str) -> (String, String) {
    (name.to_owned(), value.to_owned())
}

#[test]
fn saved_camera_cvars_match_case_insensitively() {
    assert!(is_saved_camera_cvar("cameraSavedDistance"));
    assert!(is_saved_camera_cvar("CAMERASAVEDPITCH"));
    assert!(is_saved_camera_cvar("camerasavedvehicledistance"));
    assert!(!is_saved_camera_cvar("cameraDistanceMax"));
    assert!(!is_saved_camera_cvar("cameraSavedDistance "));
}

#[test]
fn registered_defaults() {
    assert_eq!(
        saved_camera_defaults(),
        [
            ("cameraSavedDistance", "5.55"),
            ("cameraSavedPitch", "10.0"),
            ("cameraSavedVehicleDistance", "-1.0"),
        ]
    );
}

#[test]
fn character_camera_overrides_global_and_defaults() {
    let global = [
        pair("farclip", "777"),
        pair("cameraSavedPitch", "45"),
        pair("gxWindow", "1"),
    ];
    let character = [pair("realmName", "x"), pair("CAMERASAVEDDISTANCE", "12.5")];
    assert_eq!(
        world_cvar_values(&global, Some(&character)),
        vec![
            pair("farclip", "777"),
            pair("gxWindow", "1"),
            pair("cameraSavedDistance", "5.55"),
            pair("cameraSavedPitch", "10.0"),
            pair("cameraSavedVehicleDistance", "-1.0"),
            pair("CAMERASAVEDDISTANCE", "12.5"),
        ]
    );
    assert_eq!(world_cvar_values(&[], None).len(), 3);
}
