use lufa_firmware::bindings::{
    clang_arguments, format_command, generator_config, lookup_definition, SymbolFilter,
    BINDINGS_FILE, CTYPES_PREFIX, HEADER,
};
use lufa_firmware::builder::{build_invocation, build_variables, lookup_variable, BuildVariable};
use lufa_firmware::target::{resolve, BuildTarget, DetectedDevice};
use lufa_firmware::text::{is_name_char, is_name_text, joined, same_text, starts_with};

fn target() -> BuildTarget {
    resolve(Some(DetectedDevice {
        name: "ATmega32U4".to_string(),
        c_preprocessor_name: "__AVR_ATmega32U4__".to_string(),
    }))
    .unwrap()
}

fn strings(words: &[&str]) -> Vec<String> {
    words.iter().map(|w| w.to_string()).collect()
}

#[test]
fn clang_arguments_are_exactly_the_expected_ones() {
    assert_eq!(
        clang_arguments(&target()),
        strings(&[
            "-I/usr/lib/avr/include",
            "-I/usr/lib/gcc/avr/5.4.0/include",
            "-I/usr/lib/gcc/avr/5.4.0/include-fixed",
            "-I../lufa/",
            "-ffreestanding",
            "-D__AVR_ATmega32U4__",
            "-DF_CPU=8000000",
            "-DF_USB=8000000",
            "--target=avr",
        ])
    );
}

#[test]
fn generator_is_configured_for_a_freestanding_target() {
    let config = generator_config(&target(), &SymbolFilter::unused_device_classes());
    assert!(config.use_core);
    assert_eq!(config.ctypes_prefix, "crate::rust_ctypes");
    assert_eq!(config.header, "cdcglue/cdcglue.h");
    assert_eq!(config.clang_arguments, clang_arguments(&target()));
    assert_eq!(config.excluded_patterns, strings(&["SCSI.*"]));
    assert!(config.format_output);
    assert!(config.clang_arguments.contains(&"-ffreestanding".to_string()));
    assert!(config.clang_arguments.contains(&"--target=avr".to_string()));
}

#[test]
fn generator_configuration_is_repeatable() {
    let filter = SymbolFilter::unused_device_classes();
    assert_eq!(generator_config(&target(), &filter), generator_config(&target(), &filter));
}

fn last_definition(arguments: &Vec<String>, name: &str) -> Option<String> {
    let prefix = format!("-D{}=", name);
    arguments.iter().rev().find(|a| a.starts_with(&prefix)).map(|a| a[prefix.len()..].to_string())
}

fn last_variable(target: &BuildTarget, name: &str) -> Option<String> {
    build_variables(target).iter().rev().find(|v| v.name == name).map(|v| v.value.clone())
}

#[test]
fn builder_and_generator_are_given_the_same_clocks() {
    let t = target();
    let arguments = clang_arguments(&t);
    let cpu_built = last_variable(&t, "F_CPU");
    let usb_built = last_variable(&t, "F_USB");
    let cpu_bound = last_definition(&arguments, "F_CPU");
    let usb_bound = last_definition(&arguments, "F_USB");
    assert_eq!(cpu_built, Some("8000000".to_string()));
    assert_eq!(usb_built, Some("8000000".to_string()));
    assert_eq!(cpu_built, cpu_bound);
    assert_eq!(usb_built, usb_bound);
}

#[test]
fn the_filter_names_the_mass_storage_commands() {
    let filter = SymbolFilter::unused_device_classes();
    assert_eq!(filter.patterns(), strings(&["SCSI.*"]));
    assert_eq!(*filter.families(), strings(&["SCSI"]));
    assert_eq!(filter.patterns(), strings(&["SCSI.*"]));
    assert_eq!(Some(filter), SymbolFilter::new(strings(&["SCSI"])));
}

#[test]
fn the_filter_excludes_by_prefix() {
    let filter = SymbolFilter::unused_device_classes();
    assert!(filter.excludes("SCSI_Command_t"));
    assert!(filter.excludes("SCSI"));
    assert!(filter.excludes("SCSIRequest"));
    assert!(!filter.excludes("USB_USBTask"));
    assert!(!filter.excludes("SCS"));
    assert!(!filter.excludes(""));
    assert!(!filter.excludes("scsi_command"));
    assert!(!filter.excludes("MS_SCSI_Command"));
}

#[test]
fn an_empty_filter_excludes_nothing() {
    let filter = SymbolFilter::new(Vec::new()).unwrap();
    assert!(!filter.excludes("SCSI_Command_t"));
    assert_eq!(filter.patterns(), Vec::<String>::new());
    let names = strings(&["SCSI_Command_t", "USB_USBTask"]);
    assert_eq!(filter.curate(&names), names);
}

#[test]
fn a_filter_with_several_families_excludes_each() {
    let filter = SymbolFilter::new(strings(&["SCSI", "HID_"])).unwrap();
    assert_eq!(filter.patterns(), strings(&["SCSI.*", "HID_.*"]));
    assert!(filter.excludes("HID_Report"));
    assert!(filter.excludes("SCSI_Sense"));
    assert!(!filter.excludes("CDC_Line"));
    let names = strings(&["HID_Report", "CDC_Line", "SCSI_Sense", "USB_Init"]);
    assert_eq!(filter.curate(&names), strings(&["CDC_Line", "USB_Init"]));
}

#[test]
fn curation_keeps_only_the_included_family() {
    let filter = SymbolFilter::unused_device_classes();
    let declared = strings(&[
        "USB_USBTask",
        "SCSI_Command_t",
        "USB_Init",
        "SCSI_Request_Sense_Response_t",
        "CDC_LineEncoding_t",
        "SCSI_Inquiry_Response_t",
    ]);
    let kept = filter.curate(&declared);
    assert_eq!(kept, strings(&["USB_USBTask", "USB_Init", "CDC_LineEncoding_t"]));
    for name in &kept {
        assert!(!name.starts_with("SCSI"));
        assert!(!filter.excludes(name));
    }
}

#[test]
fn curation_of_nothing_is_nothing() {
    let filter = SymbolFilter::unused_device_classes();
    assert_eq!(filter.curate(&Vec::new()), Vec::<String>::new());
    assert_eq!(filter.curate(&strings(&["SCSI_A", "SCSI_B"])), Vec::<String>::new());
}

#[test]
fn curation_keeps_repeated_names_and_order() {
    let filter = SymbolFilter::unused_device_classes();
    let declared = strings(&["b", "a", "SCSI_x", "b"]);
    assert_eq!(filter.curate(&declared), strings(&["b", "a", "b"]));
}

#[test]
fn the_formatter_is_run_on_its_own() {
    assert_eq!(
        format_command("/out/bindings.rs"),
        strings(&["rustup", "run", "nightly", "rustfmt", "/out/bindings.rs"])
    );
}

#[test]
fn texts_are_joined_and_compared_by_characters() {
    assert_eq!(joined("-D", "X"), "-DX");
    assert_eq!(joined("", ""), "");
    assert!(starts_with("äöü", "äö"));
    assert!(!starts_with("äöü", "ao"));
    assert!(starts_with("abc", ""));
    assert!(starts_with("abc", "abc"));
    assert!(!starts_with("ab", "abc"));
    assert!(same_text("abc", "abc"));
    assert!(same_text("", ""));
    assert!(!same_text("abc", "abd"));
    assert!(!same_text("abc", "ab"));
}

#[test]
fn both_consumers_carry_the_target_clocks() {
    let t = target();
    let invocation = build_invocation(&t, "cdcglue");
    let config = generator_config(&t, &SymbolFilter::unused_device_classes());
    let cpu = Some(format!("{}", t.cpu_freq()));
    let usb = Some(format!("{}", t.usb_freq()));
    assert_eq!(lookup_variable(&invocation.variables, "F_CPU"), cpu);
    assert_eq!(lookup_definition(&config.clang_arguments, "F_CPU"), cpu);
    assert_eq!(lookup_variable(&invocation.variables, "F_USB"), usb);
    assert_eq!(lookup_definition(&config.clang_arguments, "F_USB"), usb);
}

#[test]
fn a_chip_macro_cannot_override_a_clock() {
    let t = BuildTarget::for_chip("odd".to_string(), "F_CPU=1".to_string());
    let arguments = clang_arguments(&t);
    assert_eq!(arguments[5], "-DF_CPU=1");
    assert_eq!(lookup_definition(&arguments, "F_CPU"), Some("8000000".to_string()));
    assert_eq!(lookup_variable(&build_variables(&t), "F_CPU"), Some("8000000".to_string()));
}

#[test]
fn the_last_variable_of_a_name_counts() {
    let list = vec![
        BuildVariable { name: "A".to_string(), value: "1".to_string() },
        BuildVariable { name: "B".to_string(), value: "2".to_string() },
        BuildVariable { name: "A".to_string(), value: "3".to_string() },
    ];
    assert_eq!(lookup_variable(&list, "A"), Some("3".to_string()));
    assert_eq!(lookup_variable(&list, "B"), Some("2".to_string()));
    assert_eq!(lookup_variable(&list, "C"), None);
    assert_eq!(lookup_variable(&Vec::new(), "A"), None);
}

#[test]
fn the_last_definition_of_a_macro_counts() {
    let arguments = strings(&["-DX=1", "-I.", "-DX=2", "-DY", "-DXY=3", "-DZ="]);
    assert_eq!(lookup_definition(&arguments, "X"), Some("2".to_string()));
    assert_eq!(lookup_definition(&arguments, "XY"), Some("3".to_string()));
    assert_eq!(lookup_definition(&arguments, "Y"), None);
    assert_eq!(lookup_definition(&arguments, "Z"), Some(String::new()));
    assert_eq!(lookup_definition(&arguments, "W"), None);
    assert_eq!(lookup_definition(&Vec::new(), "X"), None);
}

#[test]
fn a_family_is_named_by_characters_of_names() {
    assert!(SymbolFilter::new(strings(&["SCSI"])).is_some());
    assert!(SymbolFilter::new(strings(&["MS_", "a1", "_x", ""])).is_some());
    assert!(SymbolFilter::new(Vec::new()).is_some());
    assert_eq!(SymbolFilter::new(strings(&["SC.SI"])), None);
    assert_eq!(SymbolFilter::new(strings(&["SCSI.*"])), None);
    assert_eq!(SymbolFilter::new(strings(&["SCSI", "A|B"])), None);
    assert_eq!(SymbolFilter::new(strings(&["a b"])), None);
    assert_eq!(SymbolFilter::new(strings(&["ä"])), None);
    assert_eq!(SymbolFilter::new(strings(&["(x)"])), None);
}

#[test]
fn a_filter_keeps_its_families_in_order() {
    let filter = SymbolFilter::new(strings(&["B_", "A_"])).unwrap();
    assert_eq!(*filter.families(), strings(&["B_", "A_"]));
    assert_eq!(filter.patterns(), strings(&["B_.*", "A_.*"]));
}

#[test]
fn name_characters_are_letters_digits_and_underscore() {
    for c in ['a', 'm', 'z', 'A', 'Q', 'Z', '0', '5', '9', '_'] {
        assert!(is_name_char(c));
    }
    for c in ['.', '*', ' ', '-', '$', '@', '[', '`', '{', '/', ':', 'é', '\n'] {
        assert!(!is_name_char(c));
    }
    assert!(is_name_text("USB_USBTask"));
    assert!(is_name_text(""));
    assert!(!is_name_text("USB.Task"));
    assert!(!is_name_text("SCSI.*"));
}

#[test]
fn the_generator_reads_and_writes_fixed_files() {
    assert_eq!(HEADER, "cdcglue/cdcglue.h");
    assert_eq!(CTYPES_PREFIX, "crate::rust_ctypes");
    assert_eq!(BINDINGS_FILE, "bindings.rs");
    let config = generator_config(&target(), &SymbolFilter::unused_device_classes());
    assert_eq!(config.header, HEADER);
    assert_eq!(config.ctypes_prefix, CTYPES_PREFIX);
}
