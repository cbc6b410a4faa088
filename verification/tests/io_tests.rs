use orbiter_rs::Dword;
use orbiter_rs::FileHandle;
use orbiter_rs::ObjHandle;
use orbiter_rs::PropellantHandle;
use orbiter_rs::ThrustGroupHandle;
use orbiter_rs::ThrusterHandle;
use orbiter_rs::nul_terminated_prefix;
use orbiter_rs::read_bool_value;
use orbiter_rs::read_i32_value;
use orbiter_rs::read_string_value;

#[test]
fn absent_integer_tag_yields_zero() {
    // The host signals an absent tag with a false found flag; the
    // accessor surfaces the documented zero default, never a fault.
    assert_eq!(read_i32_value(false, 1234), 0);
    assert_eq!(read_i32_value(false, -7), 0);
}

#[test]
fn present_integer_tag_yields_host_value() {
    assert_eq!(read_i32_value(true, 1234), 1234);
    assert_eq!(read_i32_value(true, -7), -7);
}

#[test]
fn absent_bool_tag_yields_false() {
    assert!(!read_bool_value(false, true));
    assert!(read_bool_value(true, true));
    assert!(!read_bool_value(true, false));
}

#[test]
fn absent_string_tag_is_empty() {
    assert_eq!(read_string_value(false, "leftover".to_string()), "");
    assert_eq!(read_string_value(true, "ShuttlePB".to_string()), "ShuttlePB");
}

#[test]
fn nul_prefix_stops_at_first_zero() {
    let buf = vec![72u8, 105, 0, 65, 0, 66];
    assert_eq!(nul_terminated_prefix(&buf), vec![72u8, 105]);
}

#[test]
fn nul_prefix_of_zeroed_buffer_is_empty() {
    let buf = vec![0u8; 256];
    assert_eq!(nul_terminated_prefix(&buf), Vec::<u8>::new());
}

#[test]
fn nul_prefix_without_zero_is_whole_buffer() {
    let buf = vec![65u8, 66, 67];
    assert_eq!(nul_terminated_prefix(&buf), vec![65u8, 66, 67]);
}

#[test]
fn handle_defaults_are_unassigned() {
    assert_eq!(ThrusterHandle::default().0, 0);
    assert_eq!(PropellantHandle::default().0, 0);
    assert_eq!(ThrustGroupHandle::default().0, 0);
    assert_eq!(ObjHandle::default().0, 0);
    assert_eq!(Dword::default().0, 0);
    assert_eq!(FileHandle(12), FileHandle(12));
}
