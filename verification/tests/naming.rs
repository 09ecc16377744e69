use wasm_wrapper_gen::naming::ConstructedArgIdent;

#[test]
fn a_name_is_its_base_and_its_number() {
    assert_eq!(ConstructedArgIdent::new("__arg", 0).to_text(), "__arg0");
    assert_eq!(ConstructedArgIdent::new("__arg", 17).to_text(), "__arg17");
    assert_eq!(ConstructedArgIdent::new("", u32::MAX).to_text(), "4294967295");
}

#[test]
fn suffixes_follow_in_the_order_in_which_they_were_added() {
    let name = ConstructedArgIdent::new("__arg", 3);
    let ptr = name.with_suffix("_ptr");
    assert_eq!(ptr.to_text(), "__arg3_ptr");
    let view = ptr.with_suffix("_view");
    assert_eq!(view.to_text(), "__arg3_ptr_view");
    assert_eq!(name.with_suffix("_len").to_text(), "__arg3_len");
}

#[test]
fn adding_a_suffix_leaves_the_name_as_it_was() {
    let name = ConstructedArgIdent::new("x", 1);
    let _longer = name.with_suffix("_a");
    assert_eq!(name.to_text(), "x1");
}

#[test]
fn a_name_has_room_for_four_suffixes() {
    let name = ConstructedArgIdent::new("a", 0)
        .with_suffix("_1")
        .with_suffix("_2")
        .with_suffix("_3")
        .with_suffix("_4");
    assert_eq!(name.to_text(), "a0_1_2_3_4");
    assert!(name.try_with_suffix("_5").is_none());
    let three = ConstructedArgIdent::new("a", 0).with_suffix("_1").with_suffix("_2").with_suffix("_3");
    assert_eq!(three.try_with_suffix("_4").unwrap().to_text(), "a0_1_2_3_4");
}

#[test]
fn a_copy_holds_the_same_parts() {
    let name = ConstructedArgIdent::new("__arg", 2).with_suffix("_ptr");
    assert_eq!(name.duplicate().to_text(), "__arg2_ptr");
    assert_eq!(name.duplicate().with_suffix("_i").to_text(), "__arg2_ptr_i");
    assert_eq!(name.to_text(), "__arg2_ptr");
}
