use bambu_slicer::{NativeCall, Slicer, SlicerConfig, SlicerError, StatsOutcome};

fn fresh() -> Slicer {
    Slicer::new(true).unwrap()
}

#[test]
fn create_failure_is_internal() {
    match Slicer::new(false) {
        Err(e) => assert_eq!(e, SlicerError::Internal("Failed to create slicer context".to_string())),
        Ok(_) => panic!("a missing context must be refused"),
    }
}

#[test]
fn process_before_load_is_no_model() {
    let mut s = fresh();
    assert_eq!(s.slice(), Err(SlicerError::NoModel));
    assert!(s.is_idle());
    assert_eq!(s.export_gcode("out.gcode"), Err(SlicerError::NoModel));
    assert_eq!(s.read_stats(), Err(SlicerError::NoModel));
    assert!(s.is_idle());
}

#[test]
fn export_needs_processing() {
    let mut s = fresh();
    assert_eq!(s.load_model("m.stl"), Ok(NativeCall::LoadModel("m.stl".to_string())));
    assert_eq!(s.complete(0, None), Ok(()));
    assert_eq!(s.export_gcode("out.gcode"), Err(SlicerError::NoModel));
    assert_eq!(s.slice(), Ok(NativeCall::Process));
    assert_eq!(s.complete(0, None), Ok(()));
    assert_eq!(s.export_gcode("out.gcode"), Ok(NativeCall::Export("out.gcode".to_string())));
    assert_eq!(s.complete(0, None), Ok(()));
    assert_eq!(s.read_stats(), Ok(NativeCall::ReadStats));
    assert_eq!(s.complete_stats(StatsOutcome::Decoded), Ok(()));
}

#[test]
fn failed_load_leaves_no_model() {
    let mut s = fresh();
    assert!(s.load_model("broken.stl").is_ok());
    assert_eq!(
        s.complete(3, Some("corrupt".to_string())),
        Err(SlicerError::ModelLoad("corrupt".to_string()))
    );
    assert_eq!(s.slice(), Err(SlicerError::NoModel));
}

#[test]
fn nul_in_text_is_refused() {
    let mut s = fresh();
    assert_eq!(s.load_model("a\0b.stl"), Err(SlicerError::InvalidUtf8));
    assert!(s.is_idle());
    assert_eq!(s.set_config_param("layer\0height", "0.2"), Err(SlicerError::InvalidUtf8));
    assert_eq!(s.set_config_param("layer_height", "0\0.2"), Err(SlicerError::InvalidUtf8));
    let config = SlicerConfig {
        printer_preset: None,
        filament_preset: Some("P\0LA".to_string()),
        process_preset: None,
        custom_config_json: None,
    };
    assert_eq!(s.load_preset(&config), Err(SlicerError::InvalidUtf8));
}

#[test]
fn preset_absent_names_stay_absent() {
    let mut s = fresh();
    let config = SlicerConfig {
        printer_preset: Some("Bambu Lab A1".to_string()),
        filament_preset: None,
        process_preset: Some("0.20mm Standard @BBL A1".to_string()),
        custom_config_json: Some("{}".to_string()),
    };
    assert_eq!(
        s.load_preset(&config),
        Ok(NativeCall::LoadPreset(
            Some("Bambu Lab A1".to_string()),
            None,
            Some("0.20mm Standard @BBL A1".to_string())
        ))
    );
    assert!(!s.is_idle());
    assert_eq!(
        s.complete(5, Some("unknown printer".to_string())),
        Err(SlicerError::PresetNotFound("unknown printer".to_string()))
    );
    assert!(s.is_idle());
}

#[test]
fn stats_failures_are_internal() {
    let mut s = fresh();
    s.load_model("m.stl").unwrap();
    s.complete(0, None).unwrap();
    s.slice().unwrap();
    s.complete(0, None).unwrap();
    s.read_stats().unwrap();
    assert_eq!(
        s.complete_stats(StatsOutcome::Absent),
        Err(SlicerError::Internal("Failed to get statistics".to_string()))
    );
    s.read_stats().unwrap();
    assert_eq!(
        s.complete_stats(StatsOutcome::Malformed("expected value at line 1".to_string())),
        Err(SlicerError::Internal(
            "Failed to parse statistics: expected value at line 1".to_string()
        ))
    );
}

#[test]
fn release_happens_once() {
    let mut s = fresh();
    assert!(s.release());
    assert!(!s.release());
    assert!(!s.is_idle());
}

#[test]
fn stats_not_utf8_has_its_own_diagnostic() {
    let mut s = fresh();
    s.load_model("m.stl").unwrap();
    s.complete(0, None).unwrap();
    s.slice().unwrap();
    s.complete(0, None).unwrap();
    s.read_stats().unwrap();
    assert_eq!(
        s.complete_stats(StatsOutcome::NotUtf8),
        Err(SlicerError::Internal("Invalid UTF-8 in statistics".to_string()))
    );
}
