use wakeword::devices::{find_device_index, format_device_listing};

#[test]
fn listing_is_indexed_and_exact() {
    let names = vec![String::from("alpha"), String::from("beta mic")];
    assert_eq!(
        format_device_listing(&names),
        "Devices:\n\t 0. alpha\n\t 1. beta mic\n"
    );
}

#[test]
fn listing_of_no_devices_is_just_the_header() {
    let names: Vec<String> = vec![];
    assert_eq!(format_device_listing(&names), "Devices:\n");
}

#[test]
fn listing_twice_yields_the_same_text() {
    let names = vec![String::from("alpha"), String::from("beta"), String::from("gamma")];
    let first = format_device_listing(&names);
    let second = format_device_listing(&names);
    assert_eq!(first, second);
}

#[test]
fn device_lookup_finds_the_first_match() {
    let names = vec![String::from("a"), String::from("b"), String::from("b")];
    assert_eq!(find_device_index(&names, "b"), Some(1));
    assert_eq!(find_device_index(&names, "c"), None);
    let empty: Vec<String> = vec![];
    assert_eq!(find_device_index(&empty, "a"), None);
}
