use kyyn_core::registry::{Affordance, Field, FieldType, Kind, Namespace, Registry, RoleDecl};
use kyyn_templates::component::TemplateValidator;
use kyyn_templates::queries::queries;
use kyyn_templates::roles::{blank_roles, Binding, RoleSpec};
use kyyn_templates::validate::{
    validate_entries, validate_entries_with, validate_transition, DEFAULT_SYSTEMS,
};
use kyyn_templates::wire::{
    Authority, CheckedSnapshot, Entry, Severity, Snapshot, Transition, TransitionContext,
    ValidationContext,
};

/// The library's role policy as registry role declarations.
fn role_decls(roles: Vec<RoleSpec>) -> Vec<RoleDecl> {
    roles
        .into_iter()
        .map(|role| RoleDecl {
            name: role.name,
            doc: role.doc,
            binds: match role.binds {
                Binding::Title => Affordance::Title,
                Binding::Timeline => Affordance::Timeline,
            },
            variants: vec![],
        })
        .collect()
}

fn field(name: &str, ty: FieldType, role: Option<&str>) -> Field {
    Field {
        name: name.into(),
        doc: String::new(),
        ty,
        role: role.map(|r| r.to_string()),
        refers_to: None,
    }
}

/// The blank template's registry: the owner's record and the charter.
fn blank_registry() -> Registry {
    let charter = Kind {
        name: "charter".into(),
        doc: "The KB's charter — WHY this knowledge base exists.".into(),
        storage: "facts/charter.ron".into(),
        fields: vec![
            field("purpose", FieldType::Str, Some("title")),
            field("objectives", FieldType::List(Box::new(FieldType::Markdown)), None),
            field("notes", FieldType::Markdown, None),
        ],
    };
    let owner = Kind {
        name: "self".into(),
        doc: "The owner's own context.".into(),
        storage: "facts/self.ron".into(),
        fields: vec![
            field("name", FieldType::Str, Some("title")),
            field("role", FieldType::Str, None),
            field("notes", FieldType::Markdown, None),
        ],
    };
    let roles = role_decls(blank_roles());
    Registry {
        schema_hash: "test".into(),
        namespaces: vec![Namespace::new(
            "default",
            "The starter's explicit general-purpose ontology.",
            vec![charter, owner],
            roles,
            vec![],
        )],
    }
}

fn entry(path: &str, text: &str) -> (String, String) {
    (path.to_string(), text.to_string())
}

fn file(path: &str, text: &str) -> Entry {
    Entry { path: path.to_string(), contents: text.as_bytes().to_vec() }
}

fn tree(version: u32, entries: Vec<Entry>) -> Snapshot {
    Snapshot { format_version: version, entries, systems: vec!["graph".to_string()] }
}

fn context(version: u32, previous: Option<Snapshot>, candidate: Snapshot) -> ValidationContext {
    ValidationContext { format_version: version, previous, candidate, transitions: vec![] }
}

#[test]
fn happy_path_is_clean() {
    let entries = vec![
        entry(
            "facts/charter.ron",
            r#"(purpose: "Track training", objectives: ["a list of sessions"], notes: "")"#,
        ),
        entry("facts/self.ron", r#"(name: "Owner", role: "CTO")"#),
    ];
    let v = validate_entries(&blank_registry(), &entries);
    assert!(v.is_empty(), "expected clean, got: {v:?}");
}

#[test]
fn parse_failures_and_dangling_inline_links_are_reported() {
    let entries = vec![
        entry("facts/self.ron", "(name: "),
        entry("facts/charter.ron", r#"(purpose: "P", notes: "see [[default/self]]")"#),
    ];
    let v = validate_entries(&blank_registry(), &entries);
    assert!(v
        .iter()
        .any(|x| x.path == "facts/self.ron" && x.message.contains("does not parse")));
    assert!(v.iter().any(|x| x.path == "facts/charter.ron"
        && x.severity == Severity::Warning
        && x.message.contains("inline")));
}

#[test]
fn generic_findings_name_facts_entries_only() {
    let entries = vec![
        entry("README.md", "not a record"),
        entry("facts/unknown.ron", "()"),
        entry("sources.ron", "(oops"),
    ];
    let v = validate_entries_with(&blank_registry(), &entries, &[]);
    assert!(!v.is_empty());
    assert!(v.iter().all(|x| x.path == "facts/unknown.ron"), "{v:?}");
    assert!(v.iter().any(|x| x.severity == Severity::Error));
}

#[test]
fn default_systems_are_graph_and_sharepoint() {
    assert_eq!(DEFAULT_SYSTEMS, ["graph", "sharepoint"]);
}

#[test]
fn a_declared_system_lets_an_external_link_pass() {
    let entries = vec![entry(
        "facts/charter.ron",
        r#"(purpose: "P", notes: "see [[graph:email:abc]]")"#,
    )];
    let with_graph = validate_entries_with(&blank_registry(), &entries, &["graph"]);
    assert!(with_graph.is_empty(), "{with_graph:?}");
}

#[test]
fn a_clean_tree_validates_to_no_findings() {
    let candidate = tree(
        1,
        vec![
            file("facts/charter.ron", r#"(purpose: "Track training")"#),
            file("facts/self.ron", r#"(name: "Owner", role: "CTO")"#),
        ],
    );
    let v = TemplateValidator::validate(context(1, None, candidate), &blank_registry()).unwrap();
    assert!(v.is_empty(), "{v:?}");
}

#[test]
fn findings_come_back_in_report_order() {
    let candidate = tree(
        1,
        vec![
            file("facts/charter.ron", r#"(purpose: "P", notes: "[[default/self]]")"#),
            file("facts/nowhere.ron", "()"),
            file("facts/self.ron", "(name: "),
        ],
    );
    let v = TemplateValidator::validate(context(1, None, candidate), &blank_registry()).unwrap();
    assert!(v.len() >= 3, "{v:?}");
    let keys: Vec<_> = v
        .iter()
        .map(|x| (x.path.clone(), x.severity == Severity::Warning, x.message.clone()))
        .collect();
    let mut sorted = keys.clone();
    sorted.sort();
    assert_eq!(keys, sorted);
    assert_eq!(v[0].path, "facts/charter.ron");
    assert_eq!(v[v.len() - 1].path, "facts/self.ron");
}

#[test]
fn an_unsupported_context_is_refused_first() {
    let candidate = tree(9, vec![]);
    let d = TemplateValidator::validate(context(2, None, candidate), &blank_registry())
        .unwrap_err();
    assert_eq!(d.code, "unsupported-validation-context");
    assert_eq!(d.message, "validation context format 2 is unsupported; expected 1");
}

#[test]
fn the_candidate_is_checked_before_the_previous_tree() {
    let candidate = tree(1, vec![file("facts/b.ron", ""), file("facts/a.ron", "")]);
    let previous = tree(5, vec![]);
    let d = TemplateValidator::validate(context(1, Some(previous), candidate), &blank_registry())
        .unwrap_err();
    assert_eq!(d.code, "noncanonical-snapshot");
}

#[test]
fn a_broken_previous_tree_is_refused() {
    let candidate = tree(1, vec![]);
    let previous = tree(5, vec![]);
    let d = TemplateValidator::validate(context(1, Some(previous), candidate), &blank_registry())
        .unwrap_err();
    assert_eq!(d.code, "unsupported-snapshot");
    assert_eq!(d.message, "snapshot format 5 is unsupported; expected 1");
    let previous = Snapshot {
        format_version: 1,
        entries: vec![Entry { path: "facts/self.ron".into(), contents: vec![0xfe] }],
        systems: vec![],
    };
    let d = TemplateValidator::validate(context(1, Some(previous), tree(1, vec![])), &blank_registry())
        .unwrap_err();
    assert_eq!(d.code, "non-utf8-entry");
}

#[test]
fn a_candidate_that_is_not_utf8_is_refused() {
    let candidate = Snapshot {
        format_version: 1,
        entries: vec![Entry { path: "facts/self.ron".into(), contents: vec![0xe2, 0x82] }],
        systems: vec![],
    };
    let d = TemplateValidator::validate(context(1, None, candidate), &blank_registry())
        .unwrap_err();
    assert_eq!(d.code, "non-utf8-entry");
}

#[test]
fn transitions_pass_through_without_rules() {
    let candidate = tree(1, vec![file("facts/self.ron", r#"(name: "Owner", role: "CTO")"#)]);
    let mut ctx = context(1, Some(tree(1, vec![])), candidate);
    ctx.transitions.push(Transition {
        path: "facts/self.ron".into(),
        subject: None,
        field: Some("role".into()),
        before_sha256: None,
        after_sha256: Some("ab".into()),
        authority: Authority::DirectHuman,
        causal_reference: "proposal-1".into(),
    });
    assert!(TemplateValidator::validate(ctx, &blank_registry()).unwrap().is_empty());
    let change = TransitionContext {
        previous: None,
        candidate: CheckedSnapshot { entries: vec![], systems: vec![] },
        transitions: vec![],
    };
    assert!(validate_transition(&change).is_empty());
}

#[test]
fn the_registry_is_served_as_canonical_ron() {
    let registry = blank_registry();
    let bytes = TemplateValidator::registry(&registry).unwrap();
    let text = String::from_utf8(bytes).unwrap();
    assert_eq!(text, kyyn_core::ronfmt::to_ron(&registry).unwrap());
    assert!(text.ends_with('\n'));
    let back: Registry = ron::from_str(&text).unwrap();
    assert_eq!(back.namespaces[0].kinds[0].name, "default/charter");
}

#[test]
fn the_templates_ship_no_queries() {
    assert!(queries().is_empty());
}

/// The media kind of the gbrain template, as its registry declares it.
fn media_registry() -> Registry {
    let variant = |name: &str| kyyn_core::registry::Variant {
        name: name.into(),
        doc: String::new(),
        fields: vec![],
        tone: None,
    };
    let media = Kind {
        name: "media".into(),
        doc: "An artifact.".into(),
        storage: "facts/media/{id}.ron".into(),
        fields: vec![
            field("id", FieldType::Str, None),
            field("title", FieldType::Str, Some("title")),
            field(
                "type",
                FieldType::Enum(vec![
                    variant("Media"),
                    variant("Tweet"),
                    variant("Analysis"),
                    variant("Source"),
                    variant("Writing"),
                ]),
                None,
            ),
            field("date", FieldType::Option(Box::new(FieldType::Date)), Some("date")),
        ],
    };
    Registry {
        schema_hash: "test".into(),
        namespaces: vec![Namespace::new("gbrain", "gbrain", vec![media], vec![], vec![])],
    }
}

#[test]
fn a_malformed_date_is_reported() {
    let entries = vec![entry(
        "facts/media/x.ron",
        r#"(id: "x", title: "X", type: Media, date: Some("31/07/2026"))"#,
    )];
    let v = validate_entries(&media_registry(), &entries);
    assert!(!v.is_empty(), "malformed date should be reported: {v:?}");
    let fine = vec![entry(
        "facts/media/x.ron",
        r#"(id: "x", title: "X", type: Media, date: Some("2026-07-31"))"#,
    )];
    assert!(validate_entries(&media_registry(), &fine).is_empty());
}

#[test]
fn an_empty_facts_entry_is_an_error() {
    let entries = vec![
        entry("README.md", ""),
        entry("facts/charter.ron", ""),
        entry("facts/elsewhere/x.ron", ""),
    ];
    for systems in [&[][..], &["graph"][..]] {
        let v = validate_entries_with(&blank_registry(), &entries, systems);
        for path in ["facts/charter.ron", "facts/elsewhere/x.ron"] {
            assert!(
                v.iter().any(|x| x.path == path && x.severity == Severity::Error),
                "{path}: {v:?}"
            );
        }
        assert!(v.iter().all(|x| x.path != "README.md"));
    }
    let v = validate_entries(&media_registry(), &[entry("facts/media/x.ron", "")]);
    assert!(v.iter().any(|x| x.path == "facts/media/x.ron" && x.severity == Severity::Error));
}

#[test]
fn paths_outside_facts_never_change_the_findings() {
    let registry = blank_registry();
    let entries = vec![
        entry("facts/charter.ron", r#"(purpose: "P", notes: "see [[default/self]]")"#),
        entry("facts/self.ron", "(name: "),
    ];
    let before = validate_entries(&registry, &entries);
    let mut more = entries.clone();
    more.push(entry("notes/scratch.md", "(not RON at all"));
    more.push(entry("sources.ron", ""));
    more.insert(0, entry("README.md", "# a KB"));
    more.insert(2, entry("facts", "(not under facts/)"));
    assert_eq!(validate_entries(&registry, &more), before);
}

#[test]
fn the_shorthand_uses_the_default_systems() {
    let registry = blank_registry();
    let entries = vec![entry(
        "facts/charter.ron",
        r#"(purpose: "P", notes: "see [[graph:abc]] and [[default/self]]")"#,
    )];
    assert_eq!(
        validate_entries(&registry, &entries),
        validate_entries_with(&registry, &entries, &DEFAULT_SYSTEMS)
    );
}

#[test]
fn validation_reports_the_generic_findings_in_order() {
    let registry = blank_registry();
    let texts = [
        ("facts/charter.ron", r#"(purpose: "P", notes: "[[default/self]]")"#),
        ("facts/zeta.ron", "()"),
        ("facts/self.ron", "(name: "),
        ("notes.md", "prose"),
    ];
    let mut files: Vec<Entry> = texts.iter().map(|(p, t)| file(p, t)).collect();
    files.sort_by(|a, b| a.path.as_bytes().cmp(b.path.as_bytes()));
    let pairs: Vec<(String, String)> = files
        .iter()
        .map(|f| (f.path.clone(), String::from_utf8(f.contents.clone()).unwrap()))
        .collect();
    let mut expected = validate_entries_with(&registry, &pairs, &["graph"]);
    expected.sort_by(|a, b| {
        (a.path.as_bytes(), a.severity == Severity::Warning, a.message.as_bytes()).cmp(&(
            b.path.as_bytes(),
            b.severity == Severity::Warning,
            b.message.as_bytes(),
        ))
    });
    assert!(!expected.is_empty());
    let got = TemplateValidator::validate(context(1, None, tree(1, files)), &registry).unwrap();
    assert_eq!(got, expected);
}

#[test]
fn a_previous_tree_that_is_not_utf8_is_told_as_the_tree_check_tells_it() {
    let previous = Snapshot {
        format_version: 1,
        entries: vec![Entry { path: "facts/self.ron".into(), contents: vec![0xff] }],
        systems: vec![],
    };
    let expected = kyyn_templates::component::snapshot(previous.clone()).unwrap_err();
    assert_eq!(expected.message, "invalid utf-8 sequence of 1 bytes from index 0");
    let d = TemplateValidator::validate(context(1, Some(previous), tree(1, vec![])), &blank_registry())
        .unwrap_err();
    assert_eq!(d, expected);
}
