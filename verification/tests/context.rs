use root_attribute::context::split_path;

#[test]
fn split_path_three_parts() {
    assert_eq!(split_path("source.Health.base_value"), Ok(("source", "Health", Some("base_value"))));
    assert_eq!(split_path("a.b.c.d"), Ok(("a", "b", Some("c.d"))));
}

#[test]
fn split_path_two_parts() {
    assert_eq!(split_path("target.Health"), Ok(("target", "Health", None)));
    assert_eq!(split_path("target."), Ok(("target", "", None)));
    assert_eq!(split_path(".x."), Ok(("", "x", Some(""))));
}

#[test]
fn split_path_without_separator_is_refused() {
    assert_eq!(split_path("Health"), Err("missing . separator"));
    assert_eq!(split_path(""), Err("missing . separator"));
}

#[test]
fn split_path_handles_non_ascii() {
    assert_eq!(split_path("é.ß.ü"), Ok(("é", "ß", Some("ü"))));
}
