use confique::meta::{Expr, Field, FieldKind, Meta};
use confique::toml::FormatOptions;

/// A schema with one required top-level field `color`, and a nested section
/// `log` holding `stdout` (default `true`) and the optional `file` bound to
/// the environment variable `LOG_FILE`.
fn example1() -> Meta {
    Meta {
        doc: vec![],
        fields: vec![
            Field {
                name: "color".to_string(),
                doc: vec![" The color of the app.".to_string()],
                kind: FieldKind::Leaf { optional: false, env: None, default: None },
            },
            Field {
                name: "log".to_string(),
                doc: vec![],
                kind: FieldKind::Nested {
                    meta: Meta {
                        doc: vec![],
                        fields: vec![
                            Field {
                                name: "stdout".to_string(),
                                doc: vec![
                                    " If set to `true`, the app will log to stdout.".to_string(),
                                ],
                                kind: FieldKind::Leaf {
                                    optional: false,
                                    env: None,
                                    default: Some(Expr::Bool(true)),
                                },
                            },
                            Field {
                                name: "file".to_string(),
                                doc: vec![
                                    " If this is set, the app will write logs to the given file. Of course,".to_string(),
                                    " the app has to have write access to that file.".to_string(),
                                ],
                                kind: FieldKind::Leaf {
                                    optional: true,
                                    env: Some("LOG_FILE".to_string()),
                                    default: None,
                                },
                            },
                        ],
                    },
                },
            },
        ],
    }
}

/// A schema whose first field is itself a nested section, immediately
/// holding another nested section.
fn example2() -> Meta {
    Meta {
        doc: vec![],
        fields: vec![Field {
            name: "a".to_string(),
            doc: vec![],
            kind: FieldKind::Nested {
                meta: Meta {
                    doc: vec![],
                    fields: vec![Field {
                        name: "b".to_string(),
                        doc: vec![],
                        kind: FieldKind::Nested {
                            meta: Meta {
                                doc: vec![],
                                fields: vec![Field {
                                    name: "x".to_string(),
                                    doc: vec![],
                                    kind: FieldKind::Leaf {
                                        optional: false,
                                        env: None,
                                        default: Some(Expr::Integer(1)),
                                    },
                                }],
                            },
                        },
                    }],
                },
            },
        }],
    }
}

#[test]
fn default() {
    let out = confique::toml::format(&example1(), FormatOptions::default());
    assert_eq!(
        out,
        "\n# The color of the app.\n#\n# Required! This value must be specified.\n#color =\n\n[log]\n# If set to `true`, the app will log to stdout.\n#\n# Default value: true\n#stdout = true\n\n# If this is set, the app will write logs to the given file. Of course,\n# the app has to have write access to that file.\n#\n# Can also be specified via environment variable `LOG_FILE`.\n#file =\n"
    );
}

#[test]
fn no_comments() {
    let mut options = FormatOptions::default();
    options.general.comments = false;
    let out = confique::toml::format(&example1(), options);
    assert_eq!(out, "\n#color =\n\n[log]\n#stdout = true\n#file =\n");
}

#[test]
fn indent_2() {
    let mut options = FormatOptions::default();
    options.indent = 2;
    let out = confique::toml::format(&example1(), options);
    assert_eq!(
        out,
        "\n# The color of the app.\n#\n# Required! This value must be specified.\n#color =\n\n  [log]\n  # If set to `true`, the app will log to stdout.\n  #\n  # Default value: true\n  #stdout = true\n\n  # If this is set, the app will write logs to the given file. Of course,\n  # the app has to have write access to that file.\n  #\n  # Can also be specified via environment variable `LOG_FILE`.\n  #file =\n"
    );
}

#[test]
fn nested_gap_2() {
    let mut options = FormatOptions::default();
    options.general.nested_field_gap = 2;
    let out = confique::toml::format(&example1(), options);
    assert_eq!(
        out,
        "\n# The color of the app.\n#\n# Required! This value must be specified.\n#color =\n\n\n[log]\n# If set to `true`, the app will log to stdout.\n#\n# Default value: true\n#stdout = true\n\n# If this is set, the app will write logs to the given file. Of course,\n# the app has to have write access to that file.\n#\n# Can also be specified via environment variable `LOG_FILE`.\n#file =\n"
    );
}

#[test]
fn immediately_nested() {
    let out = confique::toml::format(&example2(), FormatOptions::default());
    assert_eq!(out, "\n[a]\n[a.b]\n# Default value: 1\n#x = 1\n");
}

#[test]
fn format_is_idempotent() {
    let options = FormatOptions::default();
    let first = confique::toml::format(&example1(), options);
    let second = confique::toml::format(&example1(), options);
    assert_eq!(first, second);
}

#[test]
fn dotted_path_keeps_ancestors() {
    // The header of a section nested inside `a` names the whole path.
    let out = confique::toml::format(&example2(), FormatOptions::default());
    assert!(out.contains("[a]\n"));
    assert!(out.contains("[a.b]\n"));
    assert!(!out.contains("\n[b]"));
}

#[test]
fn indentation_grows_with_depth() {
    // Depth d is indented by exactly d * indent spaces.
    for indent in [0u8, 2, 5] {
        let mut options = FormatOptions::default();
        options.indent = indent;
        let out = confique::toml::format(&example2(), options);
        let pad1 = " ".repeat(indent as usize);
        let pad2 = " ".repeat(2 * indent as usize);
        assert_eq!(
            out,
            format!(
                "\n{pad1}[a]\n{pad2}[a.b]\n{pad2}# Default value: 1\n{pad2}#x = 1\n"
            )
        );
    }
}

#[test]
fn top_level_doc_then_gap() {
    let meta = Meta {
        doc: vec![" App configuration.".to_string()],
        fields: vec![Field {
            name: "color".to_string(),
            doc: vec![],
            kind: FieldKind::Leaf { optional: false, env: None, default: None },
        }],
    };
    let out = confique::toml::format(&meta, FormatOptions::default());
    assert_eq!(
        out,
        "# App configuration.\n\n# Required! This value must be specified.\n#color =\n"
    );
}

#[test]
fn env_and_required_both_noted() {
    let meta = Meta {
        doc: vec![],
        fields: vec![Field {
            name: "port".to_string(),
            doc: vec![],
            kind: FieldKind::Leaf {
                optional: false,
                env: Some("PORT".to_string()),
                default: None,
            },
        }],
    };
    let out = confique::toml::format(&meta, FormatOptions::default());
    assert_eq!(
        out,
        "\n# Can also be specified via environment variable `PORT`.\n# Required! This value must be specified.\n#port =\n"
    );
}

#[test]
fn empty_schema_renders_only_the_gap() {
    let meta = Meta { doc: vec![], fields: vec![] };
    let out = confique::toml::format(&meta, FormatOptions::default());
    assert_eq!(out, "\n");
}

#[test]
fn section_doc_lines_precede_the_header() {
    let meta = Meta {
        doc: vec![],
        fields: vec![Field {
            name: "log".to_string(),
            doc: vec![" Logging options.".to_string()],
            kind: FieldKind::Nested {
                meta: Meta {
                    doc: vec![],
                    fields: vec![Field {
                        name: "stdout".to_string(),
                        doc: vec![],
                        kind: FieldKind::Leaf {
                            optional: false,
                            env: None,
                            default: Some(Expr::Bool(true)),
                        },
                    }],
                },
            },
        }],
    };
    let out = confique::toml::format(&meta, FormatOptions::default());
    assert_eq!(
        out,
        "\n# Logging options.\n[log]\n# Default value: true\n#stdout = true\n"
    );

    let mut quiet = FormatOptions::default();
    quiet.general.comments = false;
    let out = confique::toml::format(&meta, quiet);
    assert_eq!(out, "\n[log]\n#stdout = true\n");
}

#[test]
fn optional_leaf_without_default_gets_no_status() {
    let meta = Meta {
        doc: vec![],
        fields: vec![Field {
            name: "file".to_string(),
            doc: vec![" Where to log.".to_string()],
            kind: FieldKind::Leaf { optional: true, env: None, default: None },
        }],
    };
    let out = confique::toml::format(&meta, FormatOptions::default());
    assert_eq!(out, "\n# Where to log.\n#file =\n");
}
