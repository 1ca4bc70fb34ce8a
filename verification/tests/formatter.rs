use confique::meta::Expr;
use confique::toml::{FormatOptions, TomlFormatter};

fn options_with_indent(indent: u8) -> FormatOptions {
    let mut options = FormatOptions::default();
    options.indent = indent;
    options
}

#[test]
fn balanced_sections_leave_an_empty_stack() {
    // Every enter is matched by an exit, so finishing is allowed and the
    // headers name the full dotted path.
    let mut f = TomlFormatter::new(&FormatOptions::default());
    f.start_nested("a", &vec![]);
    f.start_nested("b", &vec![]);
    f.end_nested();
    f.end_nested();
    f.start_nested("c", &vec![]);
    f.end_nested();
    assert_eq!(f.finish(), "[a]\n[a.b]\n[c]\n");
}

#[test]
fn comment_lines_are_indented_per_depth() {
    let mut f = TomlFormatter::new(&options_with_indent(3));
    f.comment("top");
    f.start_nested("s", &vec![]);
    f.comment("inner");
    f.end_nested();
    f.comment("top again");
    assert_eq!(f.finish(), "#top\n   [s]\n   #inner\n#top again\n");
}

#[test]
fn section_documentation_is_written_at_the_new_depth() {
    let mut f = TomlFormatter::new(&options_with_indent(2));
    f.start_nested("s", &vec!["about s".to_string(), "more".to_string()]);
    f.end_nested();
    assert_eq!(f.finish(), "  #about s\n  #more\n  [s]\n");
}

#[test]
fn disabled_field_with_and_without_default() {
    let mut f = TomlFormatter::new(&FormatOptions::default());
    f.disabled_field("color", None);
    f.disabled_field("stdout", Some(&Expr::Bool(true)));
    f.disabled_field("name", Some(&Expr::Str("app".to_string())));
    assert_eq!(f.finish(), "#color =\n#stdout = true\n#name = \"app\"\n");
}

#[test]
fn start_main_emits_one_leading_blank_line() {
    let mut f = TomlFormatter::new(&FormatOptions::default());
    f.start_main();
    f.comment("x");
    assert_eq!(f.finish(), "\n#x\n");
}

#[test]
fn gaps_top_up_but_never_accumulate() {
    let mut f = TomlFormatter::new(&FormatOptions::default());
    f.comment("x");
    f.make_gap(1);
    f.make_gap(1);
    f.make_gap(1);
    f.comment("y");
    assert_eq!(f.finish(), "#x\n\n#y\n");

    let mut g = TomlFormatter::new(&FormatOptions::default());
    g.comment("x");
    g.make_gap(2);
    g.make_gap(1);
    g.comment("y");
    assert_eq!(g.finish(), "#x\n\n\n#y\n");
}
