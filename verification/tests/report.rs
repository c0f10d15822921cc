use pedals::report::log_error;

#[test]
fn report_of_an_error_without_causes_is_one_line() {
    let lines = log_error("pixels.render", "surface lost", &Vec::new());
    assert_eq!(lines, vec!["pixels.render() failed: surface lost".to_string()]);
}

#[test]
fn report_lists_each_cause_on_a_line_of_its_own() {
    let causes = vec!["adapter not found".to_string(), "no backend".to_string()];
    let lines = log_error("pixels.resize_surface", "resize failed", &causes);
    assert_eq!(
        lines,
        vec![
            "pixels.resize_surface() failed: resize failed".to_string(),
            "  Caused by: adapter not found".to_string(),
            "  Caused by: no backend".to_string(),
        ]
    );
}

#[test]
fn report_keeps_empty_names_and_messages() {
    let causes = vec![String::new()];
    let lines = log_error("", "", &causes);
    assert_eq!(lines, vec!["() failed: ".to_string(), "  Caused by: ".to_string()]);
}
