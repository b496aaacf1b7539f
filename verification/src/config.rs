//! Process-wide configuration and the pipeline composer.
//!
//! The configuration is loaded once at startup, before the pipeline is
//! built, and is read-only afterwards.  The composer is the single place
//! that consults the name-keyed variant registry: it checks every
//! configured module-variant name against the closed set of known
//! variants, checks every numeric parameter against its legal range, and
//! only then builds the module records — so a bad configuration aborts
//! startup before any module exists, and a good one determines every
//! module uniquely.

use vstd::prelude::*;

use crate::filter_chain::chain_wf;
use crate::modules::ColorRange;
use crate::modules::ComplexColor;
use crate::modules::ContourArea;
use crate::modules::Filter;
use crate::modules::FilterModule;
use crate::modules::InputKind;
use crate::modules::OutputKind;
use crate::modules::PercentFilled;
use crate::modules::SimpleColor;
use crate::modules::ThresholdKind;
use crate::tracking::FRAME_DIM_MAX;

verus! {

/// Upper bound on the configured number of tracked contours.
pub const NUM_TRACKED_MAX: i64 = 1_000_000;

/// Upper bound on the magnitude of a filter threshold, in thousandths of
/// a percent.
pub const THRESH_MILLI_MAX: i64 = 1_000_000_000_000;

/// The immutable startup configuration: frame geometry, the number of
/// contours to track, the selected variant name for each capability role,
/// and each variant's parameter block.
#[derive(Debug)]
pub struct VisionConfig {
    pub width: i64,
    pub height: i64,
    pub fps: i64,
    pub num_tracked_contours: i64,
    pub input_name: String,
    pub threshold_name: String,
    pub filter_names: Vec<String>,
    pub output_name: String,
    pub threshold_color_l: [u8; 3],
    pub threshold_color_u: [u8; 3],
    pub threshold_ranges: Vec<ColorRange>,
    pub contourarea_min_milli: i64,
    pub contourarea_max_milli: i64,
    pub percentfilled_min_milli: i64,
    pub percentfilled_max_milli: i64,
    pub output_ip: String,
}

/// A fatal startup condition: an unrecognized module-variant name for one
/// of the capability roles, or a numeric parameter outside its legal
/// range.  Each variant carries the offending name or configuration key.
#[derive(Debug)]
pub enum ConfigError {
    UnknownInput(String),
    UnknownThreshold(String),
    UnknownFilter(String),
    UnknownOutput(String),
    ParameterOutOfRange(String),
}

/// The composed pipeline: one instance of each capability role, the
/// filter stages in configuration order, and the frame geometry the
/// stages were built for.
#[derive(Debug)]
pub struct Pipeline {
    pub input: InputKind,
    pub threshold: ThresholdKind,
    pub filters: Vec<Filter>,
    pub output: OutputKind,
    pub width: i64,
    pub height: i64,
    pub fps: i64,
    pub num_tracked_contours: i64,
}

impl Pipeline {
    /// Geometry and count in range and every filter stage well formed —
    /// what composition establishes and the frame loop relies on.
    pub open spec fn wf(self) -> bool {
        &&& 1 <= self.width <= FRAME_DIM_MAX
        &&& 1 <= self.height <= FRAME_DIM_MAX
        &&& 1 <= self.num_tracked_contours <= NUM_TRACKED_MAX
        &&& chain_wf(self.filters@)
    }
}

/// The input-role registry: the names the composer recognizes.
pub open spec fn input_known(name: Seq<char>) -> bool {
    name == "picamera"@
}

/// The threshold-role registry.
pub open spec fn threshold_known(name: Seq<char>) -> bool {
    name == "simplecolor"@ || name == "complexcolor"@
}

/// The filter-role registry.
pub open spec fn filter_known(name: Seq<char>) -> bool {
    name == "contourarea"@ || name == "percentfilled"@
}

/// The output-role registry.
pub open spec fn output_known(name: Seq<char>) -> bool {
    name == "nt"@
}

/// Every configured filter name is a known variant.
pub open spec fn filters_known(names: Seq<String>) -> bool {
    forall|k: int| 0 <= k < names.len() ==> filter_known((#[trigger] names[k])@)
}

/// Every configured module-variant name is known to its role's registry.
pub open spec fn names_known(cfg: VisionConfig) -> bool {
    &&& input_known(cfg.input_name@)
    &&& threshold_known(cfg.threshold_name@)
    &&& filters_known(cfg.filter_names@)
    &&& output_known(cfg.output_name@)
}

/// Every numeric parameter lies in its legal range.
pub open spec fn params_in_range(cfg: VisionConfig) -> bool {
    &&& 1 <= cfg.width <= FRAME_DIM_MAX
    &&& 1 <= cfg.height <= FRAME_DIM_MAX
    &&& 1 <= cfg.num_tracked_contours <= NUM_TRACKED_MAX
    &&& -THRESH_MILLI_MAX <= cfg.contourarea_min_milli <= THRESH_MILLI_MAX
    &&& -THRESH_MILLI_MAX <= cfg.contourarea_max_milli <= THRESH_MILLI_MAX
    &&& -THRESH_MILLI_MAX <= cfg.percentfilled_min_milli <= THRESH_MILLI_MAX
    &&& -THRESH_MILLI_MAX <= cfg.percentfilled_max_milli <= THRESH_MILLI_MAX
}

/// The key of the first out-of-range parameter, in the order the composer
/// checks them; empty when all are in range.
pub open spec fn first_bad_param(cfg: VisionConfig) -> Seq<char> {
    if !(1 <= cfg.width <= FRAME_DIM_MAX) {
        "input.width"@
    } else if !(1 <= cfg.height <= FRAME_DIM_MAX) {
        "input.height"@
    } else if !(1 <= cfg.num_tracked_contours <= NUM_TRACKED_MAX) {
        "tracking.num_tracked_contours"@
    } else if !(-THRESH_MILLI_MAX <= cfg.contourarea_min_milli <= THRESH_MILLI_MAX) {
        "filter.contourarea.min"@
    } else if !(-THRESH_MILLI_MAX <= cfg.contourarea_max_milli <= THRESH_MILLI_MAX) {
        "filter.contourarea.max"@
    } else if !(-THRESH_MILLI_MAX <= cfg.percentfilled_min_milli <= THRESH_MILLI_MAX) {
        "filter.percentfilled.min"@
    } else if !(-THRESH_MILLI_MAX <= cfg.percentfilled_max_milli <= THRESH_MILLI_MAX) {
        "filter.percentfilled.max"@
    } else {
        Seq::empty()
    }
}

/// The filter stage a known filter name selects, built from the
/// configuration's parameter block for that variant.
pub open spec fn filter_variant(cfg: VisionConfig, name: Seq<char>) -> Filter {
    if name == "contourarea"@ {
        Filter::ContourArea(
            ContourArea {
                min_milli: cfg.contourarea_min_milli,
                max_milli: cfg.contourarea_max_milli,
                frame_area: (cfg.width * cfg.height) as i64,
            },
        )
    } else {
        Filter::PercentFilled(
            PercentFilled {
                min_milli: cfg.percentfilled_min_milli,
                max_milli: cfg.percentfilled_max_milli,
            },
        )
    }
}

/// Builds the pipeline from the configuration: one input, one threshold,
/// the filter stages in configuration order, one output.  Succeeds
/// exactly when every variant name is known and every parameter is in
/// range; otherwise reports the first offending name or key, in role
/// order, with nothing constructed.
pub fn compose(cfg: VisionConfig) -> (r: Result<Pipeline, ConfigError>)
    ensures
        r is Ok <==> names_known(cfg) && params_in_range(cfg),
        !input_known(cfg.input_name@) ==> (r matches Err(ConfigError::UnknownInput(n)) && n@
            == cfg.input_name@),
        input_known(cfg.input_name@) && !threshold_known(cfg.threshold_name@) ==> (r matches Err(
            ConfigError::UnknownThreshold(n),
        ) && n@ == cfg.threshold_name@),
        input_known(cfg.input_name@) && threshold_known(cfg.threshold_name@) && !filters_known(
            cfg.filter_names@,
        ) ==> (r matches Err(ConfigError::UnknownFilter(n)) && exists|k: int|
            {
                &&& 0 <= k < cfg.filter_names@.len()
                &&& !filter_known((#[trigger] cfg.filter_names@[k])@)
                &&& n@ == cfg.filter_names@[k]@
                &&& forall|j: int| 0 <= j < k ==> filter_known((#[trigger] cfg.filter_names@[j])@)
            }),
        input_known(cfg.input_name@) && threshold_known(cfg.threshold_name@) && filters_known(
            cfg.filter_names@,
        ) && !output_known(cfg.output_name@) ==> (r matches Err(ConfigError::UnknownOutput(n))
            && n@ == cfg.output_name@),
        names_known(cfg) && !params_in_range(cfg) ==> (r matches Err(
            ConfigError::ParameterOutOfRange(n),
        ) && n@ == first_bad_param(cfg)),
        r matches Ok(p) ==> {
            &&& p.input == InputKind::PiCamera
            &&& cfg.threshold_name@ == "simplecolor"@ ==> p.threshold == (ThresholdKind::SimpleColor(
                SimpleColor { color_l: cfg.threshold_color_l, color_u: cfg.threshold_color_u },
            ))
            &&& cfg.threshold_name@ == "complexcolor"@ ==> (p.threshold matches
            ThresholdKind::ComplexColor(c) && c.ranges@ == cfg.threshold_ranges@)
            &&& p.filters@.len() == cfg.filter_names@.len()
            &&& forall|k: int|
                0 <= k < p.filters@.len() ==> #[trigger] p.filters@[k] == filter_variant(
                    cfg,
                    cfg.filter_names@[k]@,
                )
            &&& (p.output matches OutputKind::NetworkTable { ip } && ip@ == cfg.output_ip@)
            &&& p.width == cfg.width
            &&& p.height == cfg.height
            &&& p.fps == cfg.fps
            &&& p.num_tracked_contours == cfg.num_tracked_contours
            &&& p.wf()
        },
{
    if !(cfg.input_name == "picamera".to_owned()) {
        return Err(ConfigError::UnknownInput(cfg.input_name));
    }
    let is_simple = cfg.threshold_name == "simplecolor".to_owned();
    let is_complex = cfg.threshold_name == "complexcolor".to_owned();
    if !(is_simple || is_complex) {
        return Err(ConfigError::UnknownThreshold(cfg.threshold_name));
    }
    let n_filters = cfg.filter_names.len();
    let mut k: usize = 0;
    while k < n_filters
        invariant
            n_filters == cfg.filter_names@.len(),
            0 <= k <= n_filters,
            input_known(cfg.input_name@),
            threshold_known(cfg.threshold_name@),
            forall|j: int| 0 <= j < k ==> filter_known((#[trigger] cfg.filter_names@[j])@),
        decreases n_filters - k,
    {
        let known = cfg.filter_names[k] == "contourarea".to_owned() || cfg.filter_names[k]
            == "percentfilled".to_owned();
        if !known {
            return Err(ConfigError::UnknownFilter(cfg.filter_names[k].clone()));
        }
        k = k + 1;
    }
    if !(cfg.output_name == "nt".to_owned()) {
        return Err(ConfigError::UnknownOutput(cfg.output_name));
    }
    if !(1 <= cfg.width && cfg.width <= FRAME_DIM_MAX) {
        return Err(ConfigError::ParameterOutOfRange("input.width".to_owned()));
    }
    if !(1 <= cfg.height && cfg.height <= FRAME_DIM_MAX) {
        return Err(ConfigError::ParameterOutOfRange("input.height".to_owned()));
    }
    if !(1 <= cfg.num_tracked_contours && cfg.num_tracked_contours <= NUM_TRACKED_MAX) {
        return Err(ConfigError::ParameterOutOfRange("tracking.num_tracked_contours".to_owned()));
    }
    if !(-THRESH_MILLI_MAX <= cfg.contourarea_min_milli && cfg.contourarea_min_milli
        <= THRESH_MILLI_MAX) {
        return Err(ConfigError::ParameterOutOfRange("filter.contourarea.min".to_owned()));
    }
    if !(-THRESH_MILLI_MAX <= cfg.contourarea_max_milli && cfg.contourarea_max_milli
        <= THRESH_MILLI_MAX) {
        return Err(ConfigError::ParameterOutOfRange("filter.contourarea.max".to_owned()));
    }
    if !(-THRESH_MILLI_MAX <= cfg.percentfilled_min_milli && cfg.percentfilled_min_milli
        <= THRESH_MILLI_MAX) {
        return Err(ConfigError::ParameterOutOfRange("filter.percentfilled.min".to_owned()));
    }
    if !(-THRESH_MILLI_MAX <= cfg.percentfilled_max_milli && cfg.percentfilled_max_milli
        <= THRESH_MILLI_MAX) {
        return Err(ConfigError::ParameterOutOfRange("filter.percentfilled.max".to_owned()));
    }
    let mut filters: Vec<Filter> = Vec::new();
    let mut k: usize = 0;
    while k < n_filters
        invariant
            n_filters == cfg.filter_names@.len(),
            0 <= k <= n_filters,
            input_known(cfg.input_name@),
            threshold_known(cfg.threshold_name@),
            output_known(cfg.output_name@),
            is_simple == (cfg.threshold_name@ == "simplecolor"@),
            is_complex == (cfg.threshold_name@ == "complexcolor"@),
            filters_known(cfg.filter_names@),
            params_in_range(cfg),
            filters@.len() == k,
            forall|j: int|
                0 <= j < k ==> #[trigger] filters@[j] == filter_variant(
                    cfg,
                    cfg.filter_names@[j]@,
                ),
            forall|j: int| 0 <= j < k ==> (#[trigger] filters@[j]).wf(),
        decreases n_filters - k,
    {
        let f: Filter = if cfg.filter_names[k] == "contourarea".to_owned() {
            Filter::ContourArea(
                ContourArea::new(
                    cfg.contourarea_min_milli,
                    cfg.contourarea_max_milli,
                    cfg.width,
                    cfg.height,
                ),
            )
        } else {
            Filter::PercentFilled(
                PercentFilled::new(cfg.percentfilled_min_milli, cfg.percentfilled_max_milli),
            )
        };
        filters.push(f);
        k = k + 1;
    }
    proof {
        reveal_strlit("simplecolor");
        reveal_strlit("complexcolor");
        assert("simplecolor"@.len() != "complexcolor"@.len());
    }
    let threshold = if is_simple {
        ThresholdKind::SimpleColor(SimpleColor::new(cfg.threshold_color_l, cfg.threshold_color_u))
    } else {
        ThresholdKind::ComplexColor(ComplexColor::new(cfg.threshold_ranges))
    };
    Ok(
        Pipeline {
            input: InputKind::PiCamera,
            threshold,
            filters,
            output: OutputKind::NetworkTable { ip: cfg.output_ip },
            width: cfg.width,
            height: cfg.height,
            fps: cfg.fps,
            num_tracked_contours: cfg.num_tracked_contours,
        },
    )
}

} // verus!
