use backgammon::{Rules, SetRules};

#[test]
fn test_default_rules() {
    let rules = Rules::default();
    assert_eq!(rules.points, 7);
    assert!(!rules.beaver);
    assert!(!rules.raccoon);
    assert!(!rules.murphy);
    assert_eq!(rules.murphy_limit, 0);
    assert!(!rules.jacoby);
    assert!(rules.crawford);
    assert!(!rules.holland);
}

#[test]
fn rules_test_set_rules() {
    let rules = Rules::default()
        .with_points(5)
        .with_beaver()
        .with_raccoon()
        .with_murphy(3)
        .with_jacoby()
        .with_crawford()
        .with_holland();
    assert_eq!(rules.points, 5);
    assert!(rules.beaver);
    assert!(rules.raccoon);
    assert!(rules.murphy);
    assert_eq!(rules.murphy_limit, 3);
    assert!(rules.jacoby);
    assert!(rules.crawford);
    assert!(rules.holland);
}

#[test]
fn test_with_holland() {
    let rules = Rules::default().with_holland();
    assert!(rules.crawford);
}

#[test]
fn test_with_raccoon() {
    let rules = Rules::default().with_raccoon();
    assert!(rules.raccoon);
}

#[test]
fn setters_leave_other_rules_alone() {
    let rules = Rules::default().with_points(3).with_points(9).with_jacoby();
    assert_eq!(rules.points, 9);
    assert!(rules.jacoby);
    assert!(!rules.beaver);
    assert!(rules.crawford);
    assert!(!rules.holland);
}
