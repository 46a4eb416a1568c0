use codexbar_rs::output::JsonResponse;

#[test]
fn answers_carry_ok_data_and_error() {
    let ok = JsonResponse::success(7u32);
    assert!(ok.ok);
    assert_eq!(ok.data, Some(7));
    assert!(ok.error.is_none());
    let failed = JsonResponse::<u32>::from_error("provider 'x' is not available".to_string());
    assert!(!failed.ok);
    assert!(failed.data.is_none());
    assert_eq!(failed.error.unwrap().message, "provider 'x' is not available");
}
