use bambu_slicer::{default_request, request_or_default, SliceRequest, SlicerConfig};

#[test]
fn default_triple_when_no_config() {
    let r = request_or_default(None);
    assert_eq!(r.printer_preset.as_deref(), Some("Bambu Lab A1"));
    assert_eq!(r.filament_preset.as_deref(), Some("Bambu PLA Basic @BBL A1"));
    assert_eq!(r.process_preset.as_deref(), Some("0.20mm Standard @BBL A1"));
    assert!(r.custom_params.is_none());
    assert_eq!(default_request().printer_preset, r.printer_preset);
}

#[test]
fn given_config_is_kept() {
    let given = SliceRequest {
        printer_preset: None,
        filament_preset: Some("F".to_string()),
        process_preset: None,
        custom_params: Some(vec![("k".to_string(), "v".to_string())]),
    };
    let r = request_or_default(Some(given));
    assert!(r.printer_preset.is_none());
    assert_eq!(r.filament_preset.as_deref(), Some("F"));
    assert_eq!(r.custom_params.unwrap().len(), 1);
}

#[test]
fn preset_presence() {
    let mut c = SlicerConfig::default();
    assert!(!c.has_preset());
    c.process_preset = Some("P".to_string());
    assert!(c.has_preset());
    let req = SliceRequest {
        printer_preset: Some("A".to_string()),
        filament_preset: None,
        process_preset: None,
        custom_params: None,
    };
    assert!(req.has_preset());
    let pc = req.preset_config();
    assert_eq!(pc.printer_preset.as_deref(), Some("A"));
    assert!(pc.custom_config_json.is_none());
}

#[test]
fn serverless_default_triple() {
    let r = bambu_slicer::serverless_request_or_default(None);
    assert_eq!(r.printer_preset.as_deref(), Some("Bambu Lab A1 0.4 nozzle"));
    assert_eq!(r.filament_preset.as_deref(), Some("Bambu PLA Basic @BBL A1"));
    assert_eq!(r.process_preset.as_deref(), Some("0.20mm Standard @BBL A1"));
    assert!(r.custom_params.is_none());
    assert_eq!(bambu_slicer::serverless_default_request().printer_preset, r.printer_preset);
}
