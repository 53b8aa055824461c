use ranim::utils::typst::{get_typst_element, try_get_typst_element};

#[test]
fn removes_a_self_closing_path() {
    let svg = r#"<svg><path d="M0 0"/><g id="glyph"/></svg>"#;
    assert_eq!(get_typst_element(svg), r#"<svg><g id="glyph"/></svg>"#);
}

#[test]
fn removes_a_path_with_a_closing_tag() {
    let svg = r#"<svg><path fill="none">x</path><use href="a"/></svg>"#;
    assert_eq!(get_typst_element(svg), r#"<svg><use href="a"/></svg>"#);
}

#[test]
fn removes_only_the_first_path() {
    let svg = r#"<svg><path d="a"/><path d="b"/></svg>"#;
    assert_eq!(get_typst_element(svg), r#"<svg><path d="b"/></svg>"#);
}

#[test]
fn leaves_svg_without_path_unchanged() {
    let svg = "<svg><rect width=\"1\"/></svg>";
    assert_eq!(get_typst_element(svg), svg);
}

#[test]
fn keeps_non_ascii_text() {
    let svg = "<svg><path d=\"z\"/><text>é ü 你好</text></svg>";
    assert_eq!(get_typst_element(svg), "<svg><text>é ü 你好</text></svg>");
}

#[test]
fn try_variant_compiles_the_pattern() {
    let svg = r#"<path/>rest"#;
    assert_eq!(try_get_typst_element(svg), Some("rest".to_string()));
}
