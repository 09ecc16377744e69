use wasm_wrapper_gen::style::{AccessStyle, Config};

#[test]
fn the_default_choices() {
    let config = Config::new();
    assert_eq!(config.class_name, "WasmWrapper");
    assert_eq!(config.indent, 4);
    assert_eq!(config.access_style, AccessStyle::DataView);
    let config = Config::default();
    assert_eq!(config.class_name, "WasmWrapper");
    assert_eq!(config.indent, 4);
    assert_eq!(config.access_style, AccessStyle::DataView);
    assert_eq!(AccessStyle::default(), AccessStyle::DataView);
}

#[test]
fn each_setter_sets_one_choice() {
    let mut config = Config::new();
    config.with_class_name("Summation");
    assert_eq!(config.class_name, "Summation");
    assert_eq!(config.indent, 4);
    assert_eq!(config.access_style, AccessStyle::DataView);
    config.with_indent(2);
    assert_eq!(config.class_name, "Summation");
    assert_eq!(config.indent, 2);
    assert_eq!(config.access_style, AccessStyle::DataView);
    config.with_array_access_style(AccessStyle::TypedArrays);
    assert_eq!(config.class_name, "Summation");
    assert_eq!(config.indent, 2);
    assert_eq!(config.access_style, AccessStyle::TypedArrays);
}

#[test]
fn setters_can_be_chained() {
    let mut config = Config::new();
    config.with_indent(0).with_class_name("A").with_array_access_style(AccessStyle::TypedArrays);
    assert_eq!(config.class_name, "A");
    assert_eq!(config.indent, 0);
    assert_eq!(config.access_style, AccessStyle::TypedArrays);
}
