#[test]
fn test_cube() {}
