#[test]
fn test_get_sessions() {
    let result = octomind_ui::get_available_sessions();
    println!("Available sessions: {:?}", result);
    // This should not fail even if no sessions exist
    assert!(result.is_ok());
}
