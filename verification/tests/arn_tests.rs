use meta2env::arn::extract_region_from_arn;

#[test]
fn region_of_container_instance_arn() {
    let r = extract_region_from_arn("arn:aws:ecs:ap-northeast-1:123456789012:container-instance/xxx");
    assert_eq!(r, Some("ap-northeast-1".to_string()));
}

#[test]
fn region_of_malformed_arn_is_absent() {
    assert_eq!(extract_region_from_arn("not-an-arn"), None);
}

#[test]
fn region_of_empty_string_is_absent() {
    assert_eq!(extract_region_from_arn(""), None);
}

#[test]
fn region_with_exactly_three_colons_runs_to_the_end() {
    assert_eq!(
        extract_region_from_arn("arn:aws:ecs:us-east-1"),
        Some("us-east-1".to_string())
    );
}

#[test]
fn region_of_two_colons_is_absent() {
    assert_eq!(extract_region_from_arn("arn:aws:ecs"), None);
}

#[test]
fn empty_region_segment_is_kept() {
    assert_eq!(
        extract_region_from_arn("arn:aws:ecs::123456789012:task/t"),
        Some("".to_string())
    );
}
