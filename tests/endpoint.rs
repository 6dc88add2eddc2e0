use multi_node::endpoint::{endpoint_path, Channel};

#[test]
fn endpoint_names_are_zero_padded() {
    assert_eq!(endpoint_path("/tmp/sock", Channel::Done, 3), "/tmp/sock/m2s_03");
    assert_eq!(endpoint_path("/tmp/sock", Channel::Continue, 0), "/tmp/sock/s2m_00");
    assert_eq!(endpoint_path("base", Channel::Done, 42), "base/m2s_42");
    assert_eq!(endpoint_path("base", Channel::Continue, 107), "base/s2m_107");
}
