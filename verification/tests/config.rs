use way_edges::color::Rgba;
use way_edges::config::{
    dt_color, dt_duration, dt_edge, dt_frame_rate, dt_height, dt_trigger_size, dt_width,
    match_group_config, raw_2_conf, validate_groups, validate_widget, Config, ConfigError,
    GroupMatchError, MonitorSpecifier, RawConfig,
};
use way_edges::geometry::Edge;

const PX: u64 = 1000;

fn raw() -> RawConfig {
    RawConfig::default()
}

#[test]
fn documented_defaults() {
    assert_eq!(dt_edge(), "left");
    assert_eq!(dt_width(), 15 * PX);
    assert_eq!(dt_height(), 50 * PX);
    assert_eq!(dt_color(), "#7B98FF");
    assert_eq!(dt_duration(), 300);
    assert_eq!(dt_frame_rate(), 30);
    assert_eq!(dt_trigger_size(), 5 * PX);
}

#[test]
fn default_raw_config_validates() {
    let cfg = validate_widget(&raw()).unwrap();
    assert_eq!(cfg.edge, Edge::Left);
    assert_eq!(cfg.position, None);
    assert_eq!(cfg.size, (15 * PX, 50 * PX));
    assert_eq!(cfg.color, Rgba { red: 0x7B, green: 0x98, blue: 0xFF, alpha: 255 });
    assert_eq!(cfg.transition_duration, 300);
    assert_eq!(cfg.frame_rate, 30);
    assert_eq!(cfg.extra_trigger_size, 5 * PX);
    assert!(matches!(cfg.monitor, MonitorSpecifier::ID(0)));
    assert!(cfg.event_map.is_some());
}

#[test]
fn unknown_edge_is_rejected() {
    let mut r = raw();
    r.edge = String::from("up");
    assert!(matches!(validate_widget(&r), Err(ConfigError::InvalidEdge(s)) if s == "up"));
}

#[test]
fn edge_names_are_case_sensitive() {
    let mut r = raw();
    r.edge = String::from("Left");
    assert!(matches!(validate_widget(&r), Err(ConfigError::InvalidEdge(_))));
}

#[test]
fn position_accepts_compass_center_and_empty() {
    let mut r = raw();
    r.position = String::from("bottom");
    assert_eq!(validate_widget(&r).unwrap().position, Some(Edge::Bottom));
    r.position = String::from("center");
    assert_eq!(validate_widget(&r).unwrap().position, None);
    r.position = String::new();
    assert_eq!(validate_widget(&r).unwrap().position, None);
    r.position = String::from("middle");
    assert!(matches!(validate_widget(&r), Err(ConfigError::InvalidPosition(s)) if s == "middle"));
}

#[test]
fn zero_sizes_are_rejected() {
    let mut r = raw();
    r.width = 0;
    assert!(matches!(validate_widget(&r), Err(ConfigError::NonPositiveWidth)));
    let mut r = raw();
    r.height = 0;
    assert!(matches!(validate_widget(&r), Err(ConfigError::NonPositiveHeight)));
}

#[test]
fn geometric_constraint_boundary() {
    // width=10, height=19 must fail; width=10, height=20 must pass
    let mut r = raw();
    r.width = 10 * PX;
    r.height = 19 * PX;
    assert!(matches!(validate_widget(&r), Err(ConfigError::SizeConstraint)));
    r.height = 20 * PX;
    assert!(validate_widget(&r).is_ok());
}

#[test]
fn bad_color_is_rejected() {
    let mut r = raw();
    r.color = String::from("#GGGGGG");
    assert!(matches!(validate_widget(&r), Err(ConfigError::InvalidColor(s)) if s == "#GGGGGG"));
}

#[test]
fn monitor_name_takes_precedence_over_id() {
    let mut r = raw();
    r.monitor_id = 3;
    assert!(matches!(validate_widget(&r).unwrap().monitor, MonitorSpecifier::ID(3)));
    r.monitor_name = String::from("DP-1");
    assert!(matches!(validate_widget(&r).unwrap().monitor, MonitorSpecifier::Name(n) if n == "DP-1"));
}

#[test]
fn event_map_entries_carry_over() {
    let mut r = raw();
    r.event_map = vec![(272, String::from("a")), (273, String::from("b"))];
    let cfg = validate_widget(&r).unwrap();
    let m = cfg.event_map.unwrap();
    assert_eq!(m.dispatch(272).as_deref(), Some("a"));
    assert_eq!(m.dispatch(273).as_deref(), Some("b"));
    assert_eq!(m.dispatch(274), None);
}

#[test]
fn group_validation_stops_at_first_bad_widget() {
    let mut bad = raw();
    bad.edge = String::from("sideways");
    let widgets = vec![raw(), bad, raw()];
    assert!(matches!(raw_2_conf(&widgets), Err(ConfigError::InvalidEdge(s)) if s == "sideways"));
    let good = vec![raw(), raw()];
    assert_eq!(raw_2_conf(&good).unwrap().len(), 2);
}

#[test]
fn groups_validate_in_document_order() {
    let groups = vec![
        (String::from("work"), vec![raw()]),
        (String::from("play"), vec![raw(), raw()]),
    ];
    let m = validate_groups(&groups).unwrap();
    assert_eq!(m.len(), 2);
    assert_eq!(m[0].0, "work");
    assert_eq!(m[0].1.len(), 1);
    assert_eq!(m[1].0, "play");
    assert_eq!(m[1].1.len(), 2);
}

fn one_group(name: &str) -> (String, Vec<Config>) {
    (String::from(name), raw_2_conf(&vec![raw()]).unwrap())
}

#[test]
fn zero_groups_fail_startup() {
    let r = match_group_config(Vec::new(), &None);
    assert!(matches!(r, Err(GroupMatchError::EmptyConfig)));
    let r = match_group_config(Vec::new(), &Some(String::from("work")));
    assert!(matches!(r, Err(GroupMatchError::EmptyConfig)));
}

#[test]
fn absent_group_name_fails_startup() {
    let map = vec![one_group("work"), one_group("play")];
    let r = match_group_config(map, &Some(String::from("rest")));
    assert!(matches!(r, Err(GroupMatchError::GroupNotFound(n)) if n == "rest"));
}

#[test]
fn named_group_is_selected() {
    let map = vec![one_group("work"), one_group("play")];
    let g = match_group_config(map, &Some(String::from("play"))).unwrap();
    assert_eq!(g.len(), 1);
}

#[test]
fn single_group_is_selected_without_a_name() {
    let map = vec![one_group("only")];
    assert_eq!(match_group_config(map, &None).unwrap().len(), 1);
}

#[test]
fn several_groups_need_a_name() {
    let map = vec![one_group("work"), one_group("play")];
    assert!(matches!(match_group_config(map, &None), Err(GroupMatchError::NoUniqueGroup)));
}
