use bambu_slicer::{
    slice_model, Action, Event, JobPipeline, NativeCall, SliceRequest, SlicerConfig, SlicerError,
    StatsOutcome,
};

/// What a simulated engine saw, and how the job ended.
struct Run {
    creates: usize,
    calls: Vec<NativeCall>,
    destroys: usize,
    result: Result<(), SlicerError>,
}

/// Drives a job against a simulated engine: `code_for` gives the result
/// code of each call, `stats` what became of the statistics read.
fn drive(
    mut p: JobPipeline,
    created: bool,
    code_for: &dyn Fn(&NativeCall) -> i32,
    stats: StatsOutcome,
) -> Run {
    let mut run = Run { creates: 0, calls: Vec::new(), destroys: 0, result: Ok(()) };
    let mut action = p.start();
    loop {
        let event = match action {
            Action::Create => {
                run.creates += 1;
                Event::Created(created)
            }
            Action::Call(call) => {
                run.calls.push(call.clone());
                match call {
                    NativeCall::ReadStats => Event::Stats(stats.clone()),
                    other => {
                        let code = code_for(&other);
                        let message = if code == 0 { None } else { Some(format!("failed {}", code)) };
                        Event::Returned(code, message)
                    }
                }
            }
            Action::Destroy => {
                run.destroys += 1;
                Event::Destroyed
            }
            Action::Finish(r) => {
                run.result = r;
                return run;
            }
        };
        assert!(p.accepts(&event));
        action = p.advance(event);
    }
}

fn ok(_: &NativeCall) -> i32 {
    0
}

fn s(t: &str) -> String {
    t.to_string()
}

fn abc_request(params: Option<Vec<(String, String)>>) -> SliceRequest {
    SliceRequest {
        printer_preset: Some(s("A")),
        filament_preset: Some(s("B")),
        process_preset: Some(s("C")),
        custom_params: params,
    }
}

#[test]
fn preset_flow_runs_stages_in_order() {
    let p = JobPipeline::new("model.3mf", "out.gcode", &abc_request(None));
    let run = drive(p, true, &ok, StatsOutcome::Decoded);
    assert_eq!(run.creates, 1);
    assert_eq!(
        run.calls,
        vec![
            NativeCall::LoadModel(s("model.3mf")),
            NativeCall::LoadPreset(Some(s("A")), Some(s("B")), Some(s("C"))),
            NativeCall::Process,
            NativeCall::Export(s("out.gcode")),
            NativeCall::ReadStats,
        ]
    );
    assert_eq!(run.destroys, 1);
    assert_eq!(run.result, Ok(()));
}

#[test]
fn later_override_is_applied_last() {
    let params = vec![(s("layer_height"), s("0.2")), (s("layer_height"), s("0.3"))];
    let p = JobPipeline::new("m.stl", "o.gcode", &abc_request(Some(params)));
    let run = drive(p, true, &ok, StatsOutcome::Decoded);
    let process_at = run.calls.iter().position(|c| *c == NativeCall::Process).unwrap();
    let last_set = run.calls[..process_at]
        .iter()
        .filter_map(|c| match c {
            NativeCall::SetParam(k, v) if k == "layer_height" => Some(v.clone()),
            _ => None,
        })
        .last();
    assert_eq!(last_set, Some(s("0.3")));
    assert_eq!(run.calls[2], NativeCall::SetParam(s("layer_height"), s("0.2")));
    assert_eq!(run.calls[3], NativeCall::SetParam(s("layer_height"), s("0.3")));
}

#[test]
fn no_preset_names_means_no_preset_load() {
    let request = SliceRequest {
        printer_preset: None,
        filament_preset: None,
        process_preset: None,
        custom_params: Some(vec![(s("sparse_infill_density"), s("15%"))]),
    };
    let p = JobPipeline::new("m.stl", "o.gcode", &request);
    let run = drive(p, true, &ok, StatsOutcome::Decoded);
    assert!(!run.calls.iter().any(|c| matches!(c, NativeCall::LoadPreset(_, _, _))));
    assert_eq!(
        run.calls,
        vec![
            NativeCall::LoadModel(s("m.stl")),
            NativeCall::SetParam(s("sparse_infill_density"), s("15%")),
            NativeCall::Process,
            NativeCall::Export(s("o.gcode")),
            NativeCall::ReadStats,
        ]
    );
}

#[test]
fn first_failure_stops_the_run_and_destroys() {
    let p = JobPipeline::new("m.stl", "o.gcode", &abc_request(None));
    let fail_process = |c: &NativeCall| if *c == NativeCall::Process { 8 } else { 0 };
    let run = drive(p, true, &fail_process, StatsOutcome::Decoded);
    assert_eq!(run.calls.len(), 3);
    assert_eq!(run.calls[2], NativeCall::Process);
    assert_eq!(run.destroys, 1);
    assert_eq!(run.result, Err(SlicerError::ProcessFailed(s("failed 8"))));
}

#[test]
fn refused_override_destroys_without_processing() {
    let params = vec![(s("bad\0key"), s("1"))];
    let p = JobPipeline::new("m.stl", "o.gcode", &abc_request(Some(params)));
    let run = drive(p, true, &ok, StatsOutcome::Decoded);
    assert_eq!(run.calls.len(), 2);
    assert_eq!(run.destroys, 1);
    assert_eq!(run.result, Err(SlicerError::InvalidUtf8));
}

#[test]
fn failed_stats_read_is_reported() {
    let p = JobPipeline::new("m.stl", "o.gcode", &abc_request(None));
    let run = drive(p, true, &ok, StatsOutcome::Absent);
    assert_eq!(run.calls.len(), 5);
    assert_eq!(run.destroys, 1);
    assert_eq!(run.result, Err(SlicerError::Internal(s("Failed to get statistics"))));
}

#[test]
fn failed_create_destroys_nothing() {
    let p = JobPipeline::new("m.stl", "o.gcode", &abc_request(None));
    let run = drive(p, false, &ok, StatsOutcome::Decoded);
    assert_eq!(run.creates, 1);
    assert!(run.calls.is_empty());
    assert_eq!(run.destroys, 0);
    assert_eq!(run.result, Err(SlicerError::Internal(s("Failed to create slicer context"))));
}

#[test]
fn unexpected_event_is_not_accepted() {
    let mut p = JobPipeline::new("m.stl", "o.gcode", &abc_request(None));
    let _ = p.start();
    assert!(!p.accepts(&Event::Destroyed));
    assert!(p.accepts(&Event::Created(true)));
}

#[test]
fn slice_model_skips_raw_document() {
    let config = SlicerConfig {
        printer_preset: None,
        filament_preset: None,
        process_preset: None,
        custom_config_json: Some(s("{\"layer_height\": 0.1}")),
    };
    let run = drive(slice_model("m.stl", &config, "o.gcode"), true, &ok, StatsOutcome::Decoded);
    assert_eq!(
        run.calls,
        vec![
            NativeCall::LoadModel(s("m.stl")),
            NativeCall::Process,
            NativeCall::Export(s("o.gcode")),
            NativeCall::ReadStats,
        ]
    );
    assert_eq!(run.destroys, 1);
}

#[test]
fn refused_preset_names_the_error() {
    let request = SliceRequest {
        printer_preset: Some(s("A\0")),
        filament_preset: None,
        process_preset: None,
        custom_params: None,
    };
    let run = drive(JobPipeline::new("m.stl", "o.gcode", &request), true, &ok, StatsOutcome::Decoded);
    assert_eq!(run.calls, vec![NativeCall::LoadModel(s("m.stl"))]);
    assert_eq!(run.destroys, 1);
    assert_eq!(run.result, Err(SlicerError::InvalidUtf8));
}

#[test]
fn malformed_stats_are_reported_with_diagnostic() {
    let p = JobPipeline::new("m.stl", "o.gcode", &abc_request(None));
    let run = drive(p, true, &ok, StatsOutcome::Malformed(s("missing field `total_cost`")));
    assert_eq!(run.destroys, 1);
    assert_eq!(
        run.result,
        Err(SlicerError::Internal(s("Failed to parse statistics: missing field `total_cost`")))
    );
}

#[test]
fn failed_model_load_stops_before_processing() {
    let p = JobPipeline::new("m.stl", "o.gcode", &abc_request(None));
    let fail_load = |c: &NativeCall| if matches!(c, NativeCall::LoadModel(_)) { 3 } else { 0 };
    let run = drive(p, true, &fail_load, StatsOutcome::Decoded);
    assert_eq!(run.calls, vec![NativeCall::LoadModel(s("m.stl"))]);
    assert_eq!(run.destroys, 1);
    assert_eq!(run.result, Err(SlicerError::ModelLoad(s("failed 3"))));
}
