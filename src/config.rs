use vstd::prelude::*;

verus! {

/// Configuration by preset names for one slicing run.
#[derive(Debug, Clone, Default)]
pub struct SlicerConfig {
    /// Printer preset name (e.g. "Bambu Lab A1").
    pub printer_preset: Option<String>,
    /// Filament preset name (e.g. "Bambu PLA Basic @BBL A1").
    pub filament_preset: Option<String>,
    /// Process preset name (e.g. "0.20mm Standard @BBL A1").
    pub process_preset: Option<String>,
    /// Raw override document; an alternative source of configuration.
    pub custom_config_json: Option<String>,
}

/// The text of an optional string.
pub open spec fn opt_view(s: Option<String>) -> Option<Seq<char>> {
    match s {
        Some(t) => Some(t@),
        None => None,
    }
}

/// Clones an optional string, keeping its text.
pub fn clone_opt(s: &Option<String>) -> (r: Option<String>)
    ensures
        opt_view(r) == opt_view(*s),
{
    match s {
        Some(t) => Some(t.clone()),
        None => None,
    }
}

impl SlicerConfig {
    /// At least one of the three preset names is given.
    pub open spec fn names_preset(&self) -> bool {
        self.printer_preset.is_some() || self.filament_preset.is_some()
            || self.process_preset.is_some()
    }

    /// Whether any preset name is given.
    pub fn has_preset(&self) -> (r: bool)
        ensures
            r == self.names_preset(),
    {
        self.printer_preset.is_some() || self.filament_preset.is_some()
            || self.process_preset.is_some()
    }
}

/// A job's configuration: preset names and ordered parameter overrides.
#[derive(Debug, Clone)]
pub struct SliceRequest {
    pub printer_preset: Option<String>,
    pub filament_preset: Option<String>,
    pub process_preset: Option<String>,
    /// Key/value overrides, applied in order after the presets.
    pub custom_params: Option<Vec<(String, String)>>,
}

/// The text of an override list.
pub open spec fn params_view(params: Seq<(String, String)>) -> Seq<(Seq<char>, Seq<char>)> {
    params.map_values(|p: (String, String)| (p.0@, p.1@))
}

impl SliceRequest {
    /// At least one of the three preset names is given.
    pub open spec fn names_preset(&self) -> bool {
        self.printer_preset.is_some() || self.filament_preset.is_some()
            || self.process_preset.is_some()
    }

    /// The overrides of the request, empty when there are none.
    pub open spec fn overrides(&self) -> Seq<(Seq<char>, Seq<char>)> {
        match self.custom_params {
            Some(v) => params_view(v@),
            None => Seq::empty(),
        }
    }

    /// Whether any preset name is given.
    pub fn has_preset(&self) -> (r: bool)
        ensures
            r == self.names_preset(),
    {
        self.printer_preset.is_some() || self.filament_preset.is_some()
            || self.process_preset.is_some()
    }

    /// The preset part of the request, without a raw override document.
    pub fn preset_config(&self) -> (r: SlicerConfig)
        ensures
            opt_view(r.printer_preset) == opt_view(self.printer_preset),
            opt_view(r.filament_preset) == opt_view(self.filament_preset),
            opt_view(r.process_preset) == opt_view(self.process_preset),
            r.custom_config_json.is_none(),
    {
        SlicerConfig {
            printer_preset: clone_opt(&self.printer_preset),
            filament_preset: clone_opt(&self.filament_preset),
            process_preset: clone_opt(&self.process_preset),
            custom_config_json: None,
        }
    }
}

/// The preset triple used when a job carries no configuration.
pub open spec fn is_default_request(r: SliceRequest) -> bool {
    &&& opt_view(r.printer_preset) == Some("Bambu Lab A1"@)
    &&& opt_view(r.filament_preset) == Some("Bambu PLA Basic @BBL A1"@)
    &&& opt_view(r.process_preset) == Some("0.20mm Standard @BBL A1"@)
    &&& r.custom_params.is_none()
}

/// The configuration of a job that supplied none.
pub fn default_request() -> (r: SliceRequest)
    ensures
        is_default_request(r),
{
    SliceRequest {
        printer_preset: Some(String::from_str("Bambu Lab A1")),
        filament_preset: Some(String::from_str("Bambu PLA Basic @BBL A1")),
        process_preset: Some(String::from_str("0.20mm Standard @BBL A1")),
        custom_params: None,
    }
}

/// The job's own configuration, or the default triple when it has none.
pub fn request_or_default(config: Option<SliceRequest>) -> (r: SliceRequest)
    ensures
        config.is_some() ==> r == config.unwrap(),
        config.is_none() ==> is_default_request(r),
{
    match config {
        Some(c) => c,
        None => default_request(),
    }
}

/// The preset triple used when a serverless job carries no configuration.
pub open spec fn is_serverless_default_request(r: SliceRequest) -> bool {
    &&& opt_view(r.printer_preset) == Some("Bambu Lab A1 0.4 nozzle"@)
    &&& opt_view(r.filament_preset) == Some("Bambu PLA Basic @BBL A1"@)
    &&& opt_view(r.process_preset) == Some("0.20mm Standard @BBL A1"@)
    &&& r.custom_params.is_none()
}

/// The configuration of a serverless job that supplied none.
pub fn serverless_default_request() -> (r: SliceRequest)
    ensures
        is_serverless_default_request(r),
{
    SliceRequest {
        printer_preset: Some(String::from_str("Bambu Lab A1 0.4 nozzle")),
        filament_preset: Some(String::from_str("Bambu PLA Basic @BBL A1")),
        process_preset: Some(String::from_str("0.20mm Standard @BBL A1")),
        custom_params: None,
    }
}

/// A serverless job's own configuration, or its default triple when it
/// has none.
pub fn serverless_request_or_default(config: Option<SliceRequest>) -> (r: SliceRequest)
    ensures
        config.is_some() ==> r == config.unwrap(),
        config.is_none() ==> is_serverless_default_request(r),
{
    match config {
        Some(c) => c,
        None => serverless_default_request(),
    }
}

} // verus!
