use guessing_games::AppError;

#[test]
fn error_keeps_its_message() {
    let e = AppError::new("something went wrong".to_string());
    assert_eq!(e.message(), "something went wrong");
}
