use echo_service::arrays::mod_arr;
use echo_service::arrays::mod_arr_with_validation;
use echo_service::arrays::ModArrResult;

#[test]
fn i8_array_increments_odd_indices_in_place() {
    let mut values: Vec<i8> = vec![1, 2, 3, 4, 5, 6];
    match mod_arr(&mut values) {
        ModArrResult::ModifiedValues(map) => {
            assert_eq!(map.len(), 3);
            assert_eq!(map.get(&1), Some(&3));
            assert_eq!(map.get(&3), Some(&5));
            assert_eq!(map.get(&5), Some(&7));
            assert_eq!(map.get(&0), None);
        }
        _ => panic!("an i8 array is modified in place"),
    }
    assert_eq!(values, vec![1, 3, 3, 5, 5, 7]);
}

#[test]
fn i32_array_increments_odd_indices_in_place() {
    let mut values: Vec<i32> = vec![10, 20, 30, 40];
    match mod_arr(&mut values) {
        ModArrResult::ModifiedValues(map) => {
            assert_eq!(map.len(), 2);
            assert_eq!(map.get(&1), Some(&21));
            assert_eq!(map.get(&3), Some(&41));
        }
        _ => panic!("an i32 array is modified in place"),
    }
    assert_eq!(values, vec![10, 21, 30, 41]);
}

#[test]
fn string_array_returns_a_copy_untouched() {
    let mut values: Vec<String> = vec![
        "Hello".to_string(),
        "World".to_string(),
        "!".to_string(),
    ];
    match mod_arr(&mut values) {
        ModArrResult::NewArray(copy) => {
            assert_eq!(copy, vec!["Hello", "World", "!"]);
        }
        _ => panic!("a String array is copied out"),
    }
    assert_eq!(values, vec!["Hello", "World", "!"]);
}

#[test]
fn str_array_returns_a_copy_untouched() {
    let mut values: Vec<&str> = vec!["foo", "bar", "baz"];
    match mod_arr(&mut values) {
        ModArrResult::NewArray(copy) => {
            assert_eq!(copy, vec!["foo", "bar", "baz"]);
        }
        _ => panic!("a &str array is copied out"),
    }
    assert_eq!(values, vec!["foo", "bar", "baz"]);
}

#[test]
fn bool_array_is_rejected_with_its_type_named() {
    let mut values: Vec<bool> = vec![true, false, true];
    match mod_arr(&mut values) {
        ModArrResult::Error(message) => {
            assert_eq!(
                message,
                "Unsupported types of array: bool. Use integers, floats, or string arrays"
            );
        }
        _ => panic!("a bool array is unsupported"),
    }
    assert_eq!(values, vec![true, false, true]);
}

#[test]
fn validation_rejects_an_empty_array() {
    let mut values: Vec<i32> = Vec::new();
    match mod_arr_with_validation(&mut values) {
        ModArrResult::Error(message) => {
            assert_eq!(message, "Array cannot be empty");
        }
        _ => panic!("an empty array is rejected"),
    }
}

#[test]
fn validation_rejects_an_oversized_array() {
    let mut values: Vec<i32> = vec![0; 1001];
    match mod_arr_with_validation(&mut values) {
        ModArrResult::Error(message) => {
            assert_eq!(message, "Array too large (max 1000 elements)");
        }
        _ => panic!("an oversized array is rejected"),
    }
}

#[test]
fn validation_accepts_the_largest_allowed_array() {
    let mut values: Vec<i32> = vec![0; 1000];
    match mod_arr_with_validation(&mut values) {
        ModArrResult::ModifiedValues(map) => {
            assert_eq!(map.len(), 500);
            assert_eq!(map.get(&999), Some(&1));
        }
        _ => panic!("a thousand elements are allowed"),
    }
    assert_eq!(values[998], 0);
    assert_eq!(values[999], 1);
}

#[test]
fn validation_still_rejects_unsupported_types_first() {
    let mut values: Vec<bool> = Vec::new();
    match mod_arr_with_validation(&mut values) {
        ModArrResult::Error(message) => {
            assert_eq!(
                message,
                "Unsupported types of array: bool. Use integers, floats, or string arrays"
            );
        }
        _ => panic!("the unsupported type wins over emptiness"),
    }
}
