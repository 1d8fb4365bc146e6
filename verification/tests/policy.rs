use output_router::choice::{use_color, ColorChoice, PaginationChoice};
use output_router::config::{CommandError, CommandNameAndArgs, ConfigField, ConfigValue};
use output_router::pagination::Pagination;

fn node(default: PaginationChoice, commands: Vec<(String, Pagination)>) -> Pagination {
    Pagination { default, commands }
}

fn leaf(default: PaginationChoice) -> Pagination {
    node(default, Vec::new())
}

fn path(segments: &[&str]) -> Vec<String> {
    segments.iter().map(|s| s.to_string()).collect()
}

#[test]
fn color_choice_parsing() {
    assert_eq!(ColorChoice::from_str("always"), Ok(ColorChoice::Always));
    assert_eq!(ColorChoice::from_str("never"), Ok(ColorChoice::Never));
    assert_eq!(ColorChoice::from_str("auto"), Ok(ColorChoice::Auto));
    assert!(ColorChoice::from_str("Always").is_err());
    assert!(ColorChoice::from_str("").is_err());
    assert_eq!(ColorChoice::from_str("always").unwrap().as_str(), "always");
}

#[test]
fn pagination_choice_parsing() {
    assert_eq!(PaginationChoice::from_str("always"), Ok(PaginationChoice::Always));
    assert_eq!(PaginationChoice::from_str("never"), Ok(PaginationChoice::Never));
    assert_eq!(PaginationChoice::from_str("auto"), Ok(PaginationChoice::Auto));
    assert!(PaginationChoice::from_str("sometimes").is_err());
}

#[test]
fn use_color_resolution() {
    assert!(use_color(ColorChoice::Always, false));
    assert!(use_color(ColorChoice::Always, true));
    assert!(!use_color(ColorChoice::Never, true));
    assert!(!use_color(ColorChoice::Never, false));
    assert!(use_color(ColorChoice::Auto, true));
    assert!(!use_color(ColorChoice::Auto, false));
}

#[test]
fn all_auto_tree_yields_root_default() {
    let tree = node(
        PaginationChoice::Auto,
        vec![
            ("log".to_string(), leaf(PaginationChoice::Auto)),
            (
                "workspace".to_string(),
                node(
                    PaginationChoice::Auto,
                    vec![("add".to_string(), leaf(PaginationChoice::Auto))],
                ),
            ),
        ],
    );
    assert_eq!(tree.resolve(&path(&[])), PaginationChoice::Auto);
    assert_eq!(tree.resolve(&path(&["log"])), PaginationChoice::Auto);
    assert_eq!(tree.resolve(&path(&["workspace", "add"])), PaginationChoice::Auto);
    assert_eq!(tree.resolve(&path(&["missing"])), PaginationChoice::Auto);
}

#[test]
fn leaf_override_wins_over_ancestor() {
    // Root says never; the deeper leaf says always: the leaf decides.
    let tree = node(
        PaginationChoice::Never,
        vec![(
            "workspace".to_string(),
            node(
                PaginationChoice::Auto,
                vec![("add".to_string(), leaf(PaginationChoice::Always))],
            ),
        )],
    );
    assert_eq!(tree.resolve(&path(&["workspace", "add"])), PaginationChoice::Always);
    // The intermediate auto node is transparent: the root's decision carries.
    assert_eq!(tree.resolve(&path(&["workspace"])), PaginationChoice::Never);
    // A missing child stops the walk with the best decision so far.
    assert_eq!(tree.resolve(&path(&["workspace", "forget"])), PaginationChoice::Never);
    assert_eq!(tree.resolve(&path(&["log"])), PaginationChoice::Never);
}

#[test]
fn non_auto_node_with_auto_children_decides() {
    // A node with its own non-auto default and an auto child below it: the
    // deepest non-auto node encountered wins.
    let tree = node(
        PaginationChoice::Auto,
        vec![(
            "log".to_string(),
            node(
                PaginationChoice::Always,
                vec![("detail".to_string(), leaf(PaginationChoice::Auto))],
            ),
        )],
    );
    assert_eq!(tree.resolve(&path(&["log", "detail"])), PaginationChoice::Always);
    assert_eq!(tree.resolve(&path(&["log"])), PaginationChoice::Always);
}

#[test]
fn deepest_matched_non_auto_wins_past_auto_descendants() {
    // Root says always; its child says never and has an auto child of its
    // own: the deepest matched non-auto node decides, whether the walk ends
    // on the auto descendant or runs off the tree below it.
    let tree = node(
        PaginationChoice::Always,
        vec![(
            "log".to_string(),
            node(
                PaginationChoice::Never,
                vec![("detail".to_string(), leaf(PaginationChoice::Auto))],
            ),
        )],
    );
    assert_eq!(tree.resolve(&path(&["log", "detail"])), PaginationChoice::Never);
    assert_eq!(tree.resolve(&path(&["log", "detail", "extra"])), PaginationChoice::Never);
    assert_eq!(tree.resolve(&path(&["log"])), PaginationChoice::Never);
}

#[test]
fn pagination_from_string_value() {
    let p = Pagination::from_value(&ConfigValue::Str("never".to_string())).unwrap();
    assert_eq!(p.default, PaginationChoice::Never);
    assert!(p.commands.is_empty());

    let bad = Pagination::from_value(&ConfigValue::Str("page".to_string()));
    assert_eq!(bad.unwrap_err(), CommandError::ConfigError(ConfigField::Paginate));
}

#[test]
fn pagination_from_table_value() {
    let v = ConfigValue::Table(vec![
        ("default".to_string(), ConfigValue::Str("never".to_string())),
        ("log".to_string(), ConfigValue::Str("always".to_string())),
        (
            "workspace".to_string(),
            ConfigValue::Table(vec![(
                "add".to_string(),
                ConfigValue::Str("always".to_string()),
            )]),
        ),
    ]);
    let p = Pagination::from_value(&v).unwrap();
    assert_eq!(p.default, PaginationChoice::Never);
    assert_eq!(p.resolve(&path(&["log"])), PaginationChoice::Always);
    assert_eq!(p.resolve(&path(&["workspace", "add"])), PaginationChoice::Always);
    // The nested table has no default of its own: auto, transparent.
    assert_eq!(p.resolve(&path(&["workspace"])), PaginationChoice::Never);
    assert_eq!(p.resolve(&path(&["status"])), PaginationChoice::Never);
}

#[test]
fn pagination_table_without_default_is_auto() {
    let v = ConfigValue::Table(vec![(
        "log".to_string(),
        ConfigValue::Str("never".to_string()),
    )]);
    let p = Pagination::from_value(&v).unwrap();
    assert_eq!(p.default, PaginationChoice::Auto);
    assert_eq!(p.resolve(&path(&["log"])), PaginationChoice::Never);
}

#[test]
fn pagination_rejects_malformed_values() {
    assert!(Pagination::from_value(&ConfigValue::Bool(true)).is_err());
    assert!(Pagination::from_value(&ConfigValue::Other).is_err());
    let bad_default = ConfigValue::Table(vec![(
        "default".to_string(),
        ConfigValue::Bool(false),
    )]);
    assert!(Pagination::from_value(&bad_default).is_err());
    let bad_child = ConfigValue::Table(vec![(
        "log".to_string(),
        ConfigValue::Str("page-it".to_string()),
    )]);
    assert!(Pagination::from_value(&bad_child).is_err());
}

#[test]
fn pager_command_from_value() {
    let c = CommandNameAndArgs::from_value(&ConfigValue::Str("less".to_string())).unwrap();
    assert_eq!(c.name, "less");
    assert!(c.args.is_empty());
    assert_eq!(c.split_name(), "less");

    let c = CommandNameAndArgs::from_value(&ConfigValue::Array(vec![
        ConfigValue::Str("less".to_string()),
        ConfigValue::Str("-FRX".to_string()),
    ]))
    .unwrap();
    assert_eq!(c.name, "less");
    assert_eq!(c.args, vec!["-FRX".to_string()]);

    let empty = CommandNameAndArgs::from_value(&ConfigValue::Array(Vec::new()));
    assert_eq!(empty.unwrap_err(), CommandError::ConfigError(ConfigField::Pager));
    let mixed = CommandNameAndArgs::from_value(&ConfigValue::Array(vec![
        ConfigValue::Str("less".to_string()),
        ConfigValue::Bool(true),
    ]));
    assert!(mixed.is_err());
    assert!(CommandNameAndArgs::from_value(&ConfigValue::Other).is_err());
}
