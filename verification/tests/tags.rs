use cyrfix::tags::collect_fixes;

#[test]
fn collects_only_accepted_repairs() {
    let texts = vec![
        "Ëüâèöà ðîêà".to_string(),
        "Hello World".to_string(),
        "Привет".to_string(),
    ];
    let fixes = collect_fixes(&texts, 200);
    assert_eq!(fixes, vec![(0usize, "Львица рока".to_string())]);
}

#[test]
fn two_of_three_fields_accepted() {
    let texts = vec![
        "Ëüâèöà ðîêà".to_string(),
        "Hello World".to_string(),
        "Ëüâèöà".to_string(),
    ];
    let fixes = collect_fixes(&texts, 200);
    assert_eq!(
        fixes,
        vec![
            (0usize, "Львица рока".to_string()),
            (2usize, "Львица".to_string()),
        ]
    );
}

#[test]
fn nothing_accepted_means_empty_batch() {
    let texts = vec!["Hello".to_string(), "Привет".to_string()];
    let fixes = collect_fixes(&texts, 200);
    assert!(fixes.is_empty());
}

#[test]
fn empty_field_list_means_empty_batch() {
    let texts: Vec<String> = Vec::new();
    assert!(collect_fixes(&texts, 200).is_empty());
}
