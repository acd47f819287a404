use import_filter::ModuleItem;
use import_filter::Pattern;
use import_filter::TransformVisitor;
use import_filter::process_transform;

// Helper function to create an import module item
fn create_import_module_item(source: &str) -> ModuleItem {
    ModuleItem::Import { src: source.to_string(), bindings: vec![] }
}

fn sources(items: &[ModuleItem]) -> Vec<String> {
    let mut out: Vec<String> = Vec::new();
    for item in items {
        match item {
            ModuleItem::Import { src, .. } => out.push(src.clone()),
            ModuleItem::Stmt { .. } => out.push(String::new()),
        }
    }
    out
}

#[test]
fn test_visit_mut_module_items_removes_matching_imports() {
    let pattern = Pattern::compile("remove-me").unwrap();
    let mut visitor = TransformVisitor::new(pattern);

    // Create a module with two imports - one that should be removed and one that should be kept
    let mut items = vec![
        create_import_module_item("remove-me"),
        create_import_module_item("keep-this"),
    ];

    // Apply the visitor
    visitor.visit_mut_module_items(&mut items);

    // We should only have one item left
    assert_eq!(items.len(), 1);

    // Check that the remaining import is the one we wanted to keep
    if let ModuleItem::Import { src, .. } = &items[0] {
        assert_eq!(src.to_string(), "keep-this");
    } else {
        panic!("Expected an import declaration");
    }
}

#[test]
fn test_visit_mut_module_items_keeps_non_matching_imports() {
    let pattern = Pattern::compile("remove-me").unwrap();
    let mut visitor = TransformVisitor::new(pattern);

    // Create a module with two non-matching imports
    let mut items = vec![
        create_import_module_item("keep-this-1"),
        create_import_module_item("keep-this-2"),
    ];

    // Original length
    let original_len = items.len();

    // Apply the visitor
    visitor.visit_mut_module_items(&mut items);

    // We should still have the same number of items
    assert_eq!(items.len(), original_len);
}

#[test]
fn test_visit_mut_module_items_non_import_items() {
    let pattern = Pattern::compile("remove-me").unwrap();
    let mut visitor = TransformVisitor::new(pattern);

    // Create a non-import module item (an empty statement)
    let non_import_item = ModuleItem::Stmt { kind: 0, children: vec![] };

    let mut items = vec![non_import_item];

    // Original length
    let original_len = items.len();

    // Apply the visitor
    visitor.visit_mut_module_items(&mut items);

    // Non-import items should not be removed
    assert_eq!(items.len(), original_len);
}

#[test]
fn test_direct_transformation_with_visitor() {
    // Create a simple module body with an import that should be removed
    let import_stmt = create_import_module_item("test-pattern");
    let mut body = vec![import_stmt];

    // Apply transformation directly using the visitor
    let pattern = Pattern::compile("test-pattern").unwrap();
    let mut visitor = TransformVisitor::new(pattern);
    visitor.visit_mut_module_items(&mut body);

    // Verify the import was removed
    assert_eq!(body.len(), 0, "Import should have been removed");
}

#[test]
fn scenario_dot_plus_pattern() {
    let items = vec![
        create_import_module_item("some-module-name"),
        create_import_module_item("keep-this"),
    ];
    let out = process_transform(items, r#"{"pattern": "some.+name"}"#).unwrap();
    assert_eq!(sources(&out), vec!["keep-this"]);
}

#[test]
fn scenario_wildcard_pattern() {
    let items = vec![
        create_import_module_item("some-pattern"),
        create_import_module_item("another-pattern"),
        create_import_module_item("keep-this"),
    ];
    let out = process_transform(items, r#"{"pattern": ".*-pattern"}"#).unwrap();
    assert_eq!(sources(&out), vec!["keep-this"]);
}

#[test]
fn scenario_anchored_pattern() {
    // Anchors prevent the partial match: only the exact source is removed.
    let items = vec![
        create_import_module_item("exact-pattern"),
        create_import_module_item("exact-pattern-2"),
    ];
    let out = process_transform(items, r#"{"pattern": "^exact-pattern$"}"#).unwrap();
    assert_eq!(sources(&out), vec!["exact-pattern-2"]);
}

#[test]
fn scenario_substring_pattern() {
    // An unanchored pattern matches anywhere in the source string.
    let items = vec![
        create_import_module_item("ignore"),
        create_import_module_item("ignore-this"),
        create_import_module_item("keep-this"),
    ];
    let out = process_transform(items, r#"{"pattern": "ignore"}"#).unwrap();
    assert_eq!(sources(&out), vec!["keep-this"]);
}

#[test]
fn scenario_alternation_pattern() {
    let items = vec![
        create_import_module_item("ignore-this"),
        create_import_module_item("ignore-that"),
        create_import_module_item("keep-this"),
    ];
    let out = process_transform(items, r#"{"pattern": "ignore-this|ignore-that"}"#).unwrap();
    assert_eq!(sources(&out), vec!["keep-this"]);
}

#[test]
fn scenario_empty_pattern_removes_every_import() {
    // An empty pattern is a valid regular expression that matches every
    // string, so every import goes; non-import items stay.
    let items = vec![
        create_import_module_item("anything"),
        ModuleItem::Stmt { kind: 7, children: vec![] },
        create_import_module_item(""),
    ];
    let out = process_transform(items, r#"{"pattern": ""}"#).unwrap();
    assert_eq!(out, vec![ModuleItem::Stmt { kind: 7, children: vec![] }]);
}

#[test]
fn scenario_non_import_beside_matching_import() {
    // The non-import item is retained unconditionally; only the matching
    // import is dropped.
    let items = vec![
        ModuleItem::Stmt { kind: 3, children: vec![] },
        create_import_module_item("remove-me"),
    ];
    let out = process_transform(items, r#"{"pattern": "remove-me"}"#).unwrap();
    assert_eq!(out, vec![ModuleItem::Stmt { kind: 3, children: vec![] }]);
}

#[test]
fn nested_items_are_filtered_too() {
    // A single pass descends into nested item lists of retained items.
    let nested = ModuleItem::Stmt {
        kind: 1,
        children: vec![
            create_import_module_item("drop-inner"),
            ModuleItem::Stmt {
                kind: 2,
                children: vec![create_import_module_item("drop-inner-deep")],
            },
            create_import_module_item("keep-inner"),
        ],
    };
    let items = vec![nested, create_import_module_item("drop-inner")];
    let out = process_transform(items, r#"{"pattern": "^drop-inner"}"#).unwrap();
    let expected = vec![ModuleItem::Stmt {
        kind: 1,
        children: vec![
            ModuleItem::Stmt { kind: 2, children: vec![] },
            create_import_module_item("keep-inner"),
        ],
    }];
    assert_eq!(out, expected);
}

#[test]
fn import_kept_wholly_with_its_bindings() {
    // An import is an atomic unit: kept wholly, bindings never pruned.
    let items = vec![ModuleItem::Import {
        src: "react".to_string(),
        bindings: vec!["React".to_string(), "useState".to_string()],
    }];
    let out = process_transform(items, r#"{"pattern": "^lodash$"}"#).unwrap();
    assert_eq!(
        out,
        vec![ModuleItem::Import {
            src: "react".to_string(),
            bindings: vec!["React".to_string(), "useState".to_string()],
        }]
    );
}

#[test]
fn filtering_twice_is_a_no_op() {
    let config = r#"{"pattern": "drop"}"#;
    let items = vec![
        create_import_module_item("drop-this"),
        create_import_module_item("keep-this"),
        ModuleItem::Stmt { kind: 5, children: vec![create_import_module_item("dropped-too")] },
    ];
    let once = process_transform(items, config).unwrap();
    let expected = vec![
        create_import_module_item("keep-this"),
        ModuleItem::Stmt { kind: 5, children: vec![] },
    ];
    assert_eq!(once, expected);
    let again = process_transform(expected, config).unwrap();
    assert_eq!(again, once);
}

#[test]
fn retained_items_keep_their_relative_order() {
    let items = vec![
        create_import_module_item("keep-a"),
        create_import_module_item("drop-1"),
        ModuleItem::Stmt { kind: 9, children: vec![] },
        create_import_module_item("drop-2"),
        create_import_module_item("keep-b"),
    ];
    let out = process_transform(items, r#"{"pattern": "^drop"}"#).unwrap();
    assert_eq!(
        out,
        vec![
            create_import_module_item("keep-a"),
            ModuleItem::Stmt { kind: 9, children: vec![] },
            create_import_module_item("keep-b"),
        ]
    );
}

#[test]
fn process_transform_reports_config_errors() {
    let items = vec![create_import_module_item("anything")];
    let err = process_transform(items, r#"not json"#).unwrap_err();
    assert_eq!(err, import_filter::ConfigError::ConfigParse);
}
