use echo_service::typetags::test_types_trait;

#[test]
fn integers_describe_themselves_with_their_tag() {
    assert_eq!(test_types_trait(99i32), "i32: 99");
    assert_eq!(test_types_trait(0i32), "i32: 0");
    assert_eq!(test_types_trait(-7i32), "i32: -7");
    assert_eq!(test_types_trait(i32::MIN), "i32: -2147483648");
}

#[test]
fn strings_describe_themselves_with_their_tag() {
    assert_eq!(
        test_types_trait("Hello....".to_string()),
        "String: Hello...."
    );
    assert_eq!(test_types_trait(String::new()), "String: ");
}

#[test]
fn string_slices_describe_themselves_with_their_tag() {
    assert_eq!(test_types_trait("Hello...."), "&str: Hello....");
    assert_eq!(test_types_trait(""), "&str: ");
}
