use kyyn_templates::component::finish_validation;
use kyyn_templates::ordering::{order_violations, violation_le};
use kyyn_templates::wire::{Severity, Violation};

fn v(path: &str, severity: Severity, message: &str) -> Violation {
    Violation { path: path.to_string(), severity, message: message.to_string() }
}

fn sample() -> Vec<Violation> {
    vec![
        v("facts/b.ron", Severity::Warning, "dangling link"),
        v("facts/a.ron", Severity::Warning, "zeta"),
        v("facts/b.ron", Severity::Error, "does not parse"),
        v("facts/a.ron", Severity::Error, "beta"),
        v("facts/a.ron", Severity::Warning, "alpha"),
        v("facts/A.ron", Severity::Warning, "upper case sorts first"),
    ]
}

fn expected() -> Vec<Violation> {
    vec![
        v("facts/A.ron", Severity::Warning, "upper case sorts first"),
        v("facts/a.ron", Severity::Error, "beta"),
        v("facts/a.ron", Severity::Warning, "alpha"),
        v("facts/a.ron", Severity::Warning, "zeta"),
        v("facts/b.ron", Severity::Error, "does not parse"),
        v("facts/b.ron", Severity::Warning, "dangling link"),
    ]
}

#[test]
fn findings_come_out_by_path_then_severity_then_message() {
    assert_eq!(order_violations(sample()), expected());
}

#[test]
fn ordering_keeps_repeated_findings() {
    let twice = vec![
        v("facts/a.ron", Severity::Error, "x"),
        v("facts/a.ron", Severity::Error, "x"),
        v("facts/0.ron", Severity::Warning, "y"),
    ];
    assert_eq!(
        order_violations(twice),
        vec![
            v("facts/0.ron", Severity::Warning, "y"),
            v("facts/a.ron", Severity::Error, "x"),
            v("facts/a.ron", Severity::Error, "x"),
        ]
    );
    assert_eq!(order_violations(vec![]), vec![]);
}

#[test]
fn the_order_does_not_depend_on_which_phase_reported_first() {
    let mut first = sample();
    let second = first.split_off(3);
    let mut again = sample();
    let again_second = again.split_off(3);
    assert_eq!(finish_validation(first, second), expected());
    assert_eq!(finish_validation(again_second, again), expected());
}

#[test]
fn ordered_findings_stay_in_order() {
    assert_eq!(order_violations(expected()), expected());
}

#[test]
fn comparison_follows_the_report_order() {
    let a = v("facts/a.ron", Severity::Warning, "m");
    let b = v("facts/a.ron", Severity::Error, "z");
    assert!(violation_le(&b, &a));
    assert!(!violation_le(&a, &b));
    assert!(violation_le(&a, &a));
    let c = v("facts/a.ron\u{e9}", Severity::Error, "a");
    assert!(violation_le(&a, &c));
}
