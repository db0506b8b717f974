use matter_influx::controllers::commission::{
    commission_failure_message, plan_commission, CommissionForm, CommissionStep,
};
use matter_influx::controllers::index::device_status;
use matter_influx::errors::AppError;

#[test]
fn empty_names_are_refused() {
    for name in ["", "   ", "\t\n"] {
        let form = CommissionForm::new("1234".to_string(), name.to_string());
        match plan_commission(&form) {
            CommissionStep::Reject(error) => assert_eq!(error, "Name must not be empty"),
            other => panic!("unexpected {other:?}"),
        }
    }
}

#[test]
fn commissioning_uses_the_trimmed_code_and_the_name_as_given() {
    let form = CommissionForm::new(" 3497-011-2332 \n".to_string(), "  Lamp ".to_string());
    match plan_commission(&form) {
        CommissionStep::Commission { pairing_code, label } => {
            assert_eq!(pairing_code, "3497-011-2332");
            assert_eq!(label, "  Lamp ");
        }
        other => panic!("unexpected {other:?}"),
    }
}

#[test]
fn forms_compare_by_fields() {
    let form = CommissionForm::new("a".to_string(), "b".to_string());
    assert_eq!(form, CommissionForm::new("a".to_string(), "b".to_string()));
    assert_ne!(form, CommissionForm::new("a".to_string(), "c".to_string()));
    assert_eq!(CommissionForm::default(), CommissionForm::new(String::new(), String::new()));
    assert_eq!(form.pairing_code(), "a");
    assert_eq!(form.name(), "b");
}

#[test]
fn failure_message() {
    assert_eq!(commission_failure_message("timed out"), "Failed to commission: timed out");
}

#[test]
fn device_status_from_result() {
    let ok = device_status(Ok(vec!["On: on".to_string()]));
    assert_eq!(ok.error, None);
    assert_eq!(ok.info, vec!["On: on".to_string()]);
    let err = device_status(Err("unreachable".to_string()));
    assert_eq!(err.error, Some("unreachable".to_string()));
    assert!(err.info.is_empty());
}

#[test]
fn app_error_response() {
    let error = AppError::new("boom".to_string());
    assert_eq!(error.status_code(), 500);
    assert_eq!(error.response_body(), "Internal error: boom");
}
