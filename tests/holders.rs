use eos420::holders::top_holders;

fn groups() -> Vec<(String, i64)> {
    vec![
        ("A".to_string(), 10),
        ("B".to_string(), 7),
        ("C".to_string(), 7),
        ("D".to_string(), 1),
    ]
}

#[test]
fn top_three_holders() {
    let r = top_holders(&groups(), 3);
    let names: Vec<&str> = r.iter().map(|(a, _)| a.as_str()).collect();
    assert_eq!(names, vec!["A", "B", "C"]);
    let counts: Vec<i64> = r.iter().map(|(_, c)| *c).collect();
    assert_eq!(counts, vec![10, 7, 7]);
}

#[test]
fn unordered_input_is_ranked() {
    let g = vec![("D".to_string(), 1), ("C".to_string(), 7), ("A".to_string(), 10), ("B".to_string(), 7)];
    let r = top_holders(&g, 2);
    assert_eq!(r, vec![("A".to_string(), 10), ("C".to_string(), 7)]);
}

#[test]
fn limit_beyond_groups_and_zero() {
    assert_eq!(top_holders(&groups(), 10).len(), 4);
    assert!(top_holders(&groups(), 0).is_empty());
    assert!(top_holders(&Vec::new(), 5).is_empty());
}
