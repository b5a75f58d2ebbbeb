use vault_admin::{handle_tx_response, SdkError, StandardResponse, TransactionResponse};

#[test]
fn summary_gives_200() {
    let response = handle_tx_response(Ok(TransactionResponse {
        tx: Some("abc123".to_string()),
        error: None,
    }));
    assert_eq!(
        response,
        StandardResponse { status: 200, message: "abc123".to_string() }
    );
}

#[test]
fn summary_wins_over_a_reason() {
    let response = handle_tx_response(Ok(TransactionResponse {
        tx: Some("AAAA".to_string()),
        error: Some("ignored".to_string()),
    }));
    assert_eq!(response.status, 200);
    assert_eq!(response.message, "AAAA");
}

#[test]
fn reason_without_summary_gives_400() {
    let response = handle_tx_response(Ok(TransactionResponse {
        tx: None,
        error: Some("admin mismatch".to_string()),
    }));
    assert_eq!(
        response,
        StandardResponse { status: 400, message: "admin mismatch".to_string() }
    );
}

#[test]
fn neither_summary_nor_reason_gives_400_unknown_error() {
    let response = handle_tx_response(Ok(TransactionResponse { tx: None, error: None }));
    assert_eq!(
        response,
        StandardResponse { status: 400, message: "unknown error".to_string() }
    );
}

#[test]
fn empty_summary_is_still_a_summary() {
    let response = handle_tx_response(Ok(TransactionResponse {
        tx: Some(String::new()),
        error: None,
    }));
    assert_eq!(response, StandardResponse { status: 200, message: String::new() });
}

#[test]
fn every_host_failure_gives_500() {
    for failure in [
        SdkError::Conversion,
        SdkError::DbRead,
        SdkError::DbWrite,
        SdkError::NoValOnStack,
        SdkError::HostConfiguration,
        SdkError::ReadOnUpdateAction,
        SdkError::UpdateOnReadAction,
        SdkError::Unknown,
    ] {
        assert_eq!(
            handle_tx_response(Err(failure)),
            StandardResponse {
                status: 500,
                message: "Internal simulation error".to_string()
            }
        );
    }
}

#[test]
fn every_outcome_has_one_of_three_statuses() {
    let outcomes = vec![
        Ok(TransactionResponse { tx: Some("t".to_string()), error: Some("e".to_string()) }),
        Ok(TransactionResponse { tx: Some("t".to_string()), error: None }),
        Ok(TransactionResponse { tx: None, error: Some("e".to_string()) }),
        Ok(TransactionResponse { tx: None, error: None }),
        Err(SdkError::Unknown),
    ];
    let statuses: Vec<u32> = outcomes
        .into_iter()
        .map(|outcome| handle_tx_response(outcome).status)
        .collect();
    assert_eq!(statuses, vec![200, 200, 400, 400, 500]);
}

#[test]
fn transaction_response_clone_is_equal() {
    let reply = TransactionResponse { tx: Some("t".to_string()), error: Some("e".to_string()) };
    assert_eq!(reply.clone(), reply);
    let empty = TransactionResponse { tx: None, error: None };
    assert_eq!(empty.clone(), empty);
}
