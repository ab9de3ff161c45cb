use berg_operator::naming::generate_namespace_name;

#[test]
fn test_namespace_name_generation() {
    let owner_id = "a1b2c3d4-e5f6-7890-abcd-ef1234567890";
    let expected = "ci-nginx-a1b2c3d4-e5f6-7890-abcd-ef1234567890";
    assert_eq!(generate_namespace_name("ci", "nginx", owner_id), expected);
}

#[test]
fn long_challenge_names_are_cut_to_fit() {
    let owner_id = "a1b2c3d4-e5f6-7890-abcd-ef1234567890";
    let name = "a-very-long-challenge-name-that-does-not-fit";
    let r = generate_namespace_name("ci", name, owner_id);
    assert_eq!(r.len(), 63);
    assert!(r.starts_with("ci-a-very-long-challenge-n"));
    assert!(r.ends_with(&format!("-{}", owner_id)));
    assert_eq!(r, format!("ci-{}-{}", &name[..23], owner_id));
}

#[test]
fn prefix_and_owner_that_fill_the_limit_leave_no_room() {
    let prefix = "p".repeat(30);
    let id = "i".repeat(31);
    let r = generate_namespace_name(&prefix, "nginx", &id);
    assert_eq!(r, format!("{}--{}", prefix, id));
    assert_eq!(r.len(), 63);
}
