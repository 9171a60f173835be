use lufa_firmware::builder::{
    archive_from_exit, build_invocation, build_variables, BuildVariable, ARCHIVE_NAME,
    STACK_DIRECTORY,
};
use lufa_firmware::error::BuildError;
use lufa_firmware::target::{resolve, BuildTarget, DetectedDevice};

fn target() -> BuildTarget {
    resolve(Some(DetectedDevice {
        name: "ATmega32U4".to_string(),
        c_preprocessor_name: "__AVR_ATmega32U4__".to_string(),
    }))
    .unwrap()
}

fn pairs(vars: &Vec<BuildVariable>) -> Vec<(String, String)> {
    vars.iter().map(|v| (v.name.clone(), v.value.clone())).collect()
}

fn value_of(vars: &Vec<BuildVariable>, name: &str) -> Option<String> {
    vars.iter().rev().find(|v| v.name == name).map(|v| v.value.clone())
}

#[test]
fn build_variables_are_exactly_the_expected_ones() {
    let vars = build_variables(&target());
    let expected: Vec<(String, String)> = [
        ("MCU", "atmega32u4"),
        ("ARCH", "AVR8"),
        ("BOARD", "CULV3"),
        ("F_CPU", "8000000"),
        ("F_USB", "8000000"),
        ("OPTIMIZATION", "s"),
        ("SRC", "Descriptors.c $(LUFA_SRC_USB) $(LUFA_SRC_USBCLASS)"),
        ("LUFA_PATH", "../../lufa/LUFA/"),
        ("CC_FLAGS", "-DUSE_LUFA_CONFIG_HEADER -IConfig/"),
    ]
    .iter()
    .map(|(n, v)| (n.to_string(), v.to_string()))
    .collect();
    assert_eq!(pairs(&vars), expected);
}

#[test]
fn build_sets_the_six_target_variables() {
    let vars = build_variables(&target());
    assert_eq!(value_of(&vars, "MCU"), Some("atmega32u4".to_string()));
    assert_eq!(value_of(&vars, "ARCH"), Some("AVR8".to_string()));
    assert_eq!(value_of(&vars, "BOARD"), Some("CULV3".to_string()));
    assert_eq!(value_of(&vars, "F_CPU"), Some("8000000".to_string()));
    assert_eq!(value_of(&vars, "F_USB"), Some("8000000".to_string()));
    assert_eq!(value_of(&vars, "OPTIMIZATION"), Some("s".to_string()));
}

#[test]
fn build_variable_names_are_distinct() {
    let vars = build_variables(&target());
    assert_eq!(vars.len(), 9);
    for i in 0..vars.len() {
        for j in 0..i {
            assert_ne!(vars[i].name, vars[j].name);
        }
    }
}

#[test]
fn two_invocations_give_identical_variables() {
    let t = target();
    let first = build_invocation(&t, "/work/cdcglue");
    let second = build_invocation(&t, "/work/cdcglue");
    assert_eq!(first, second);
    assert_eq!(build_variables(&t), build_variables(&t));
    let again = build_invocation(&target(), "/work/cdcglue");
    assert_eq!(first, again);
}

#[test]
fn variables_follow_the_chip() {
    let other = resolve(Some(DetectedDevice {
        name: "AT90USB1287".to_string(),
        c_preprocessor_name: "__AVR_AT90USB1287__".to_string(),
    }))
    .unwrap();
    let vars = build_variables(&other);
    assert_eq!(value_of(&vars, "MCU"), Some("at90usb1287".to_string()));
    assert_ne!(pairs(&vars), pairs(&build_variables(&target())));
}

#[test]
fn invocation_runs_the_library_goal_in_the_directory() {
    let inv = build_invocation(&target(), "/work/cdcglue");
    assert_eq!(inv.program, "make");
    assert_eq!(inv.arguments, vec!["lib".to_string()]);
    assert_eq!(inv.directory, "/work/cdcglue");
    assert_eq!(inv.variables, build_variables(&target()));
}

#[test]
fn exit_zero_yields_the_archive() {
    let archive = archive_from_exit(Some(0), "/work/cdcglue").unwrap();
    assert_eq!(archive.directory, "/work/cdcglue");
    assert_eq!(archive.library, "cdcglue");
}

#[test]
fn non_zero_exit_is_a_failed_build() {
    assert_eq!(archive_from_exit(Some(2), "/work/cdcglue"), Err(BuildError::NativeBuildFailed));
    assert_eq!(archive_from_exit(Some(1), "/work/cdcglue"), Err(BuildError::NativeBuildFailed));
    assert_eq!(archive_from_exit(Some(-1), "/work/cdcglue"), Err(BuildError::NativeBuildFailed));
    assert_eq!(archive_from_exit(Some(i32::MIN), "d"), Err(BuildError::NativeBuildFailed));
}

#[test]
fn missing_exit_status_is_a_failed_build() {
    assert_eq!(archive_from_exit(None, "/work/cdcglue"), Err(BuildError::NativeBuildFailed));
}

#[test]
fn archive_is_registered_for_linking() {
    let archive = archive_from_exit(Some(0), "/work/cdcglue").unwrap();
    assert_eq!(
        archive.link_directives(),
        vec![
            "cargo:rustc-link-search=/work/cdcglue".to_string(),
            "cargo:rustc-link-lib=static=cdcglue".to_string(),
        ]
    );
}

#[test]
fn no_other_variable_is_set() {
    let vars = build_variables(&target());
    let names: Vec<&str> = vars.iter().map(|v| v.name.as_str()).collect();
    assert_eq!(
        names,
        vec![
            "MCU",
            "ARCH",
            "BOARD",
            "F_CPU",
            "F_USB",
            "OPTIMIZATION",
            "SRC",
            "LUFA_PATH",
            "CC_FLAGS"
        ]
    );
    assert_eq!(value_of(&vars, "TARGET"), None);
}

#[test]
fn the_stack_has_its_directory_and_archive_name() {
    assert_eq!(STACK_DIRECTORY, "cdcglue");
    assert_eq!(ARCHIVE_NAME, "cdcglue");
    let archive = archive_from_exit(Some(0), "x").unwrap();
    assert_eq!(archive.library, ARCHIVE_NAME);
}
