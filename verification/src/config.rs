//! Validation of raw, loosely-typed widget parameters into the typed
//! configuration the core runs on, and selection of the configured group to
//! run. File discovery and JSON decoding happen outside; they hand in plain
//! strings, integers and pair lists. Sizes arrive already scaled to
//! subpixels (see [`crate::geometry::SUBPIXELS_PER_PIXEL`]).

use vstd::prelude::*;
use crate::color::{parse_color, spec_parse_color, Rgba};
use crate::event::{lookup_pairs, pairs_view, EventMap};
use crate::geometry::{Edge, SUBPIXELS_PER_PIXEL};

verus! {

/// Which monitor the widget goes to: by index, or by output name (a
/// non-empty name takes precedence over the index).
#[derive(Debug, Clone)]
pub enum MonitorSpecifier {
    ID(usize),
    Name(String),
}

/// A validated widget configuration, immutable for the widget's lifetime.
/// `size` is (thickness, length) in subpixels.
#[derive(Debug)]
pub struct Config {
    pub edge: Edge,
    pub position: Option<Edge>,
    pub size: (u64, u64),
    pub event_map: Option<EventMap>,
    pub color: Rgba,
    pub transition_duration: u64,
    pub frame_rate: u64,
    pub extra_trigger_size: u64,
    pub monitor: MonitorSpecifier,
}

impl Config {
    /// Relies on std's derived `Debug` formatting: a multi-line dump of the
    /// fields for startup diagnostics, with no promise about its shape.
    #[verifier::external_body]
    pub fn debug(&self) -> String {
        format!("{:#?}", self)
    }
}

/// Raw widget parameters as the configuration document hands them over,
/// sizes in subpixels, defaults already applied where a field was absent.
#[derive(Debug)]
pub struct RawConfig {
    pub edge: String,
    pub position: String,
    pub width: u64,
    pub height: u64,
    pub event_map: Vec<(u32, String)>,
    pub color: String,
    pub transition_duration: u64,
    pub frame_rate: u64,
    pub extra_trigger_size: u64,
    pub monitor_id: usize,
    pub monitor_name: String,
}

/// Why a raw widget configuration was rejected; each variant carries the
/// offending value.
#[derive(Debug)]
pub enum ConfigError {
    InvalidEdge(String),
    InvalidPosition(String),
    NonPositiveWidth,
    NonPositiveHeight,
    SizeConstraint,
    InvalidColor(String),
}

/// Why no group could be selected at startup.
#[derive(Debug)]
pub enum GroupMatchError {
    EmptyConfig,
    GroupNotFound(String),
    NoUniqueGroup,
}

/// The widgets of one named group, validated.
pub type GroupConfig = Vec<Config>;

/// The named groups of the whole document, in document order.
pub type GroupConfigMap = Vec<(String, GroupConfig)>;

/// Default edge.
pub fn dt_edge() -> (s: String)
    ensures
        s@ == "left"@,
{
    String::from_str("left")
}

/// Default thickness, in subpixels.
pub fn dt_width() -> (w: u64)
    ensures
        w == 15 * SUBPIXELS_PER_PIXEL,
{
    15 * SUBPIXELS_PER_PIXEL
}

/// Default length, in subpixels.
pub fn dt_height() -> (h: u64)
    ensures
        h == 50 * SUBPIXELS_PER_PIXEL,
{
    50 * SUBPIXELS_PER_PIXEL
}

/// Default color.
pub fn dt_color() -> (s: String)
    ensures
        s@ == "#7B98FF"@,
{
    String::from_str("#7B98FF")
}

/// Default transition duration, in milliseconds.
pub fn dt_duration() -> (d: u64)
    ensures
        d == 300,
{
    300
}

/// Default frame rate, in frames per second.
pub fn dt_frame_rate() -> (f: u64)
    ensures
        f == 30,
{
    30
}

/// Default trigger margin, in subpixels.
pub fn dt_trigger_size() -> (t: u64)
    ensures
        t == 5 * SUBPIXELS_PER_PIXEL,
{
    5 * SUBPIXELS_PER_PIXEL
}

impl Default for RawConfig {
    /// The documented defaults: a thin left-edge strip, centered, no
    /// actions, first monitor.
    fn default() -> (d: RawConfig)
        ensures
            d.edge@ == "left"@,
            d.position@.len() == 0,
            d.width == 15 * SUBPIXELS_PER_PIXEL,
            d.height == 50 * SUBPIXELS_PER_PIXEL,
            d.event_map@.len() == 0,
            d.color@ == "#7B98FF"@,
            d.transition_duration == 300,
            d.frame_rate == 30,
            d.extra_trigger_size == 5 * SUBPIXELS_PER_PIXEL,
            d.monitor_id == 0,
            d.monitor_name@.len() == 0,
    {
        RawConfig {
            edge: dt_edge(),
            position: String::new(),
            width: dt_width(),
            height: dt_height(),
            event_map: Vec::new(),
            color: dt_color(),
            transition_duration: dt_duration(),
            frame_rate: dt_frame_rate(),
            extra_trigger_size: dt_trigger_size(),
            monitor_id: 0,
            monitor_name: String::new(),
        }
    }
}

/// The edge a compass name denotes, or `None` for any other string.
pub open spec fn spec_edge_of(s: Seq<char>) -> Option<Edge> {
    if s == "top"@ {
        Some(Edge::Top)
    } else if s == "left"@ {
        Some(Edge::Left)
    } else if s == "bottom"@ {
        Some(Edge::Bottom)
    } else if s == "right"@ {
        Some(Edge::Right)
    } else {
        None
    }
}

/// What a position string denotes: a compass name an alignment edge, the
/// empty string or `center` no alignment; anything else is invalid.
pub open spec fn spec_position_of(s: Seq<char>) -> Option<Option<Edge>> {
    if s == "top"@ {
        Some(Some(Edge::Top))
    } else if s == "left"@ {
        Some(Some(Edge::Left))
    } else if s == "bottom"@ {
        Some(Some(Edge::Bottom))
    } else if s == "right"@ {
        Some(Some(Edge::Right))
    } else if s.len() == 0 || s == "center"@ {
        Some(None)
    } else {
        None
    }
}

/// Whether a raw widget passes every validation rule: known edge, known
/// position, positive sizes, the geometric constraint that the interactive
/// band can be at most half the strip's length, and a parseable color.
pub open spec fn valid_raw(raw: RawConfig) -> bool {
    &&& spec_edge_of(raw.edge@) is Some
    &&& spec_position_of(raw.position@) is Some
    &&& raw.width > 0
    &&& raw.height > 0
    &&& 2 * raw.width <= raw.height
    &&& spec_parse_color(raw.color@) is Some
}

/// How a validated configuration relates to the raw widget it came from.
pub open spec fn config_matches_raw(cfg: Config, raw: RawConfig) -> bool {
    &&& Some(cfg.edge) == spec_edge_of(raw.edge@)
    &&& Some(cfg.position) == spec_position_of(raw.position@)
    &&& cfg.size == (raw.width, raw.height)
    &&& Some(cfg.color) == spec_parse_color(raw.color@)
    &&& cfg.transition_duration == raw.transition_duration
    &&& cfg.frame_rate == raw.frame_rate
    &&& cfg.extra_trigger_size == raw.extra_trigger_size
    &&& match cfg.monitor {
        MonitorSpecifier::ID(i) => raw.monitor_name@.len() == 0 && i == raw.monitor_id,
        MonitorSpecifier::Name(n) => raw.monitor_name@.len() != 0 && n@ == raw.monitor_name@,
    }
    &&& match cfg.event_map {
        Some(m) => forall|code: u32|
            m.spec_lookup(code) == lookup_pairs(pairs_view(raw.event_map@), code),
        None => false,
    }
}

/// Which error a raw widget earns, fail-fast in rule order: edge before
/// position, position before sizes, sizes before the geometric constraint,
/// that before the color.
pub open spec fn error_matches_raw(err: ConfigError, raw: RawConfig) -> bool {
    match err {
        ConfigError::InvalidEdge(s) => spec_edge_of(raw.edge@) is None && s@ == raw.edge@,
        ConfigError::InvalidPosition(s) => spec_edge_of(raw.edge@) is Some && spec_position_of(
            raw.position@,
        ) is None && s@ == raw.position@,
        ConfigError::NonPositiveWidth => spec_edge_of(raw.edge@) is Some && spec_position_of(
            raw.position@,
        ) is Some && raw.width == 0,
        ConfigError::NonPositiveHeight => spec_edge_of(raw.edge@) is Some && spec_position_of(
            raw.position@,
        ) is Some && raw.width > 0 && raw.height == 0,
        ConfigError::SizeConstraint => spec_edge_of(raw.edge@) is Some && spec_position_of(
            raw.position@,
        ) is Some && raw.width > 0 && raw.height > 0 && 2 * raw.width > raw.height,
        ConfigError::InvalidColor(s) => spec_edge_of(raw.edge@) is Some && spec_position_of(
            raw.position@,
        ) is Some && raw.width > 0 && raw.height > 0 && 2 * raw.width <= raw.height
            && spec_parse_color(raw.color@) is None && s@ == raw.color@,
    }
}

/// Whether `s` and the literal `lit` hold the same characters.
fn str_eq_lit(s: &String, lit: &str) -> (r: bool)
    ensures
        r == (s@ == lit@),
{
    *s == String::from_str(lit)
}

/// Validates one raw widget into a `Config`, failing fast with the first
/// broken rule.
pub fn validate_widget(raw: &RawConfig) -> (r: Result<Config, ConfigError>)
    ensures
        r is Ok <==> valid_raw(*raw),
        match r {
            Ok(cfg) => config_matches_raw(cfg, *raw),
            Err(e) => error_matches_raw(e, *raw),
        },
{
    let edge = if str_eq_lit(&raw.edge, "top") {
        Edge::Top
    } else if str_eq_lit(&raw.edge, "left") {
        Edge::Left
    } else if str_eq_lit(&raw.edge, "bottom") {
        Edge::Bottom
    } else if str_eq_lit(&raw.edge, "right") {
        Edge::Right
    } else {
        return Err(ConfigError::InvalidEdge(raw.edge.clone()));
    };
    let position = if str_eq_lit(&raw.position, "top") {
        Some(Edge::Top)
    } else if str_eq_lit(&raw.position, "left") {
        Some(Edge::Left)
    } else if str_eq_lit(&raw.position, "bottom") {
        Some(Edge::Bottom)
    } else if str_eq_lit(&raw.position, "right") {
        Some(Edge::Right)
    } else if raw.position.as_str().is_empty() || str_eq_lit(&raw.position, "center") {
        None
    } else {
        return Err(ConfigError::InvalidPosition(raw.position.clone()));
    };
    if raw.width == 0 {
        return Err(ConfigError::NonPositiveWidth);
    }
    if raw.height == 0 {
        return Err(ConfigError::NonPositiveHeight);
    }
    if raw.width > raw.height / 2 {
        return Err(ConfigError::SizeConstraint);
    }
    let event_map = EventMap::from_pairs(&raw.event_map);
    let color = match parse_color(raw.color.as_str()) {
        Some(c) => c,
        None => {
            return Err(ConfigError::InvalidColor(raw.color.clone()));
        },
    };
    let monitor = if raw.monitor_name.as_str().is_empty() {
        MonitorSpecifier::ID(raw.monitor_id)
    } else {
        MonitorSpecifier::Name(raw.monitor_name.clone())
    };
    Ok(
        Config {
            edge,
            position,
            size: (raw.width, raw.height),
            event_map: Some(event_map),
            color,
            transition_duration: raw.transition_duration,
            frame_rate: raw.frame_rate,
            extra_trigger_size: raw.extra_trigger_size,
            monitor,
        },
    )
}

/// Validates the widgets of one group in order, stopping at the first
/// broken rule.
pub fn raw_2_conf(widgets: &Vec<RawConfig>) -> (r: Result<GroupConfig, ConfigError>)
    ensures
        r is Ok <==> (forall|i: int|
            0 <= i < widgets@.len() ==> valid_raw(#[trigger] widgets@[i])),
        match r {
            Ok(v) => v@.len() == widgets@.len() && forall|i: int|
                0 <= i < widgets@.len() ==> config_matches_raw(#[trigger] v@[i], widgets@[i]),
            Err(e) => exists|i: int|
                0 <= i < widgets@.len() && !valid_raw(#[trigger] widgets@[i])
                    && error_matches_raw(e, widgets@[i]) && (forall|j: int|
                    0 <= j < i ==> valid_raw(#[trigger] widgets@[j])),
        },
{
    let n = widgets.len();
    let mut out: Vec<Config> = Vec::new();
    let mut i: usize = 0;
    while i < n
        invariant
            i <= n,
            n == widgets@.len(),
            out@.len() == i,
            forall|j: int| 0 <= j < i ==> valid_raw(#[trigger] widgets@[j]),
            forall|j: int| 0 <= j < i ==> config_matches_raw(#[trigger] out@[j], widgets@[j]),
        decreases n - i,
    {
        match validate_widget(&widgets[i]) {
            Ok(cfg) => {
                out.push(cfg);
            },
            Err(e) => {
                return Err(e);
            },
        }
        i = i + 1;
    }
    Ok(out)
}

/// Whether every widget of a raw group list passes validation.
pub open spec fn all_groups_valid(groups: Seq<(String, Vec<RawConfig>)>) -> bool {
    forall|i: int, j: int|
        0 <= i < groups.len() && 0 <= j < groups[i].1@.len() ==> valid_raw(
            #[trigger] groups[i].1@[j],
        )
}

/// Validates every group of the document, in order, stopping at the first
/// widget that breaks a rule.
pub fn validate_groups(groups: &Vec<(String, Vec<RawConfig>)>) -> (r: Result<
    GroupConfigMap,
    ConfigError,
>)
    ensures
        r is Ok <==> all_groups_valid(groups@),
        match r {
            Ok(m) => m@.len() == groups@.len() && forall|i: int|
                0 <= i < groups@.len() ==> (#[trigger] m@[i]).0@ == groups@[i].0@ && m@[i].1@.len()
                    == groups@[i].1@.len() && (forall|j: int|
                    0 <= j < groups@[i].1@.len() ==> config_matches_raw(
                        #[trigger] m@[i].1@[j],
                        groups@[i].1@[j],
                    )),
            Err(e) => exists|i: int, j: int|
                0 <= i < groups@.len() && 0 <= j < groups@[i].1@.len() && !valid_raw(
                    #[trigger] groups@[i].1@[j],
                ) && error_matches_raw(e, groups@[i].1@[j]),
        },
{
    let n = groups.len();
    let mut out: GroupConfigMap = Vec::new();
    let mut i: usize = 0;
    while i < n
        invariant
            i <= n,
            n == groups@.len(),
            out@.len() == i,
            forall|k: int, j: int|
                0 <= k < i && 0 <= j < groups@[k].1@.len() ==> valid_raw(
                    #[trigger] groups@[k].1@[j],
                ),
            forall|k: int|
                0 <= k < i ==> (#[trigger] out@[k]).0@ == groups@[k].0@ && out@[k].1@.len()
                    == groups@[k].1@.len() && (forall|j: int|
                    0 <= j < groups@[k].1@.len() ==> config_matches_raw(
                        #[trigger] out@[k].1@[j],
                        groups@[k].1@[j],
                    )),
        decreases n - i,
    {
        let name = groups[i].0.clone();
        match raw_2_conf(&groups[i].1) {
            Ok(v) => {
                out.push((name, v));
            },
            Err(e) => {
                return Err(e);
            },
        }
        i = i + 1;
    }
    Ok(out)
}

/// Selects the group to run: the named one when a name is given, the only
/// one when none is; zero groups, an unknown name, or several groups with
/// no name to choose by are each a distinct startup error. For a duplicate
/// name the group written last wins.
pub fn match_group_config(group_map: GroupConfigMap, group: &Option<String>) -> (r: Result<
    GroupConfig,
    GroupMatchError,
>)
    ensures
        match r {
            Ok(cfgs) => {
                &&& group is Some ==> exists|i: int|
                    0 <= i < group_map@.len() && (#[trigger] group_map@[i]).0@ == group->0@ && cfgs
                        == group_map@[i].1 && (forall|j: int|
                        i < j < group_map@.len() ==> (#[trigger] group_map@[j]).0@ != group->0@)
                &&& group is None ==> group_map@.len() == 1 && cfgs == group_map@[0].1
            },
            Err(e) => match e {
                GroupMatchError::EmptyConfig => group_map@.len() == 0,
                GroupMatchError::GroupNotFound(n) => group_map@.len() > 0 && group is Some && n@
                    == group->0@ && (forall|i: int|
                    0 <= i < group_map@.len() ==> (#[trigger] group_map@[i]).0@ != group->0@),
                GroupMatchError::NoUniqueGroup => group_map@.len() > 1 && group is None,
            },
        },
{
    if group_map.len() == 0 {
        return Err(GroupMatchError::EmptyConfig);
    }
    if group.is_some() {
        let name: &String = group.as_ref().unwrap();
        let mut gm = group_map;
        let n = gm.len();
        let mut i: usize = n;
        while i > 0
            invariant
                i <= n,
                gm@ == group_map@,
                n == gm@.len(),
                group is Some,
                name@ == group->0@,
                forall|j: int| i <= j < n ==> (#[trigger] group_map@[j]).0@ != name@,
            decreases i,
        {
            i = i - 1;
            if str_eq_lit(&gm[i].0, name.as_str()) {
                let found = gm.remove(i);
                return Ok(found.1);
            }
        }
        Err(GroupMatchError::GroupNotFound(name.clone()))
    } else {
        if group_map.len() == 1 {
            let mut gm = group_map;
            let found = gm.remove(0);
            Ok(found.1)
        } else {
            Err(GroupMatchError::NoUniqueGroup)
        }
    }
}

} // verus!
