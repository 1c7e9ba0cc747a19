use ethash_pow::error::Error;
use ethash_pow::helpers::codes;
use ethash_pow::helpers::errors::{
    cannot_submit_work, exceptional, execution, internal, invalid_input, invalid_params,
    no_author, no_new_work, no_work, no_work_required, request_not_found, request_rejected,
    request_rejected_limit, state_corrupt, state_pruned, unavailable_block, unimplemented,
    unsupported, ErrorCode, RpcError,
};

fn plain(code: i64, message: &str) -> RpcError {
    RpcError { code: ErrorCode::ServerError(code), message: message.to_string(), data: None }
}

#[test]
fn codes_go_over_the_wire_as_numbers() {
    assert_eq!(ErrorCode::ParseError.code(), -32700);
    assert_eq!(ErrorCode::InvalidRequest.code(), -32600);
    assert_eq!(ErrorCode::MethodNotFound.code(), -32601);
    assert_eq!(ErrorCode::InvalidParams.code(), -32602);
    assert_eq!(ErrorCode::InternalError.code(), -32603);
    assert_eq!(ErrorCode::ServerError(-32001).code(), -32001);
    assert_eq!(ErrorCode::ServerError(i64::MIN).code(), i64::MIN);
}

#[test]
fn server_codes_are_stable() {
    assert_eq!(codes::UNSUPPORTED_REQUEST, -32000);
    assert_eq!(codes::NO_WORK, -32001);
    assert_eq!(codes::NO_AUTHOR, -32002);
    assert_eq!(codes::NO_NEW_WORK, -32003);
    assert_eq!(codes::NO_WORK_REQUIRED, -32004);
    assert_eq!(codes::CANNOT_SUBMIT_WORK, -32005);
    assert_eq!(codes::EXECUTION_ERROR, -32015);
    assert_eq!(codes::EXCEPTION_ERROR, -32016);
    assert_eq!(codes::REQUEST_REJECTED, -32040);
    assert_eq!(codes::REQUEST_REJECTED_LIMIT, -32041);
    assert_eq!(codes::REQUEST_NOT_FOUND, -32042);
}

#[test]
fn unimplemented_carries_its_details() {
    let message = "This request is not implemented yet. Please create an issue on Github repo.";
    assert_eq!(unimplemented(None), plain(-32000, message));
    let with = unimplemented(Some("hashrate".to_string()));
    assert_eq!(with.code, ErrorCode::ServerError(-32000));
    assert_eq!(with.message, message);
    assert_eq!(with.data, Some("hashrate".to_string()));
}

#[test]
fn unsupported_carries_message_and_details() {
    let e = unsupported("not here".to_string(), Some("why".to_string()));
    assert_eq!(e.code, ErrorCode::ServerError(-32000));
    assert_eq!(e.message, "not here");
    assert_eq!(e.data, Some("why".to_string()));
    assert_eq!(unsupported("x".to_string(), None), plain(-32000, "x"));
}

#[test]
fn request_errors_have_fixed_texts() {
    assert_eq!(request_not_found(), plain(-32042, "Request not found."));
    assert_eq!(request_rejected(), plain(-32040, "Request has been rejected."));
    assert_eq!(
        request_rejected_limit(),
        plain(-32041, "Request has been rejected because of queue limit.")
    );
    assert_eq!(invalid_input(), plain(-32000, "Invalid input"));
    assert_eq!(
        state_pruned(),
        plain(
            -32000,
            "This request is not supported because your node is running with state pruning. Run with --pruning=archive."
        )
    );
}

#[test]
fn work_errors_have_fixed_texts() {
    assert_eq!(no_work(), plain(-32001, "Still syncing."));
    assert_eq!(no_new_work(), plain(-32003, "Work has not changed."));
    assert_eq!(
        no_author(),
        plain(-32002, "Author not configured. Run Parity with --author to configure.")
    );
    assert_eq!(
        no_work_required(),
        plain(-32004, "External work is only required for Proof of Work engines.")
    );
    assert_eq!(cannot_submit_work(), plain(-32005, "Cannot submit work."));
}

#[test]
fn internal_names_the_fault() {
    let e = internal("lock poisoned", "Mutex".to_string());
    assert_eq!(e.code, ErrorCode::InternalError);
    assert_eq!(e.message, "Internal error occurred: lock poisoned");
    assert_eq!(e.data, Some("Mutex".to_string()));
    let e = state_corrupt();
    assert_eq!(e.code, ErrorCode::InternalError);
    assert_eq!(e.message, "Internal error occurred: State corrupt");
    assert_eq!(e.data, Some(format!("{:?}", "")));
}

#[test]
fn invalid_params_names_the_parameter() {
    let e = invalid_params("nonce", "not hex".to_string());
    assert_eq!(e.code, ErrorCode::InvalidParams);
    assert_eq!(e.message, "Couldn't parse parameters: nonce");
    assert_eq!(e.data, Some("not hex".to_string()));
}

#[test]
fn execution_errors_carry_their_cause() {
    let e = execution("out of gas".to_string());
    assert_eq!(e.code, ErrorCode::ServerError(-32015));
    assert_eq!(e.message, "Transaction execution error.");
    assert_eq!(e.data, Some("out of gas".to_string()));
    let e = exceptional("boom".to_string());
    assert_eq!(e.code, ErrorCode::ServerError(-32016));
    assert_eq!(e.message, "The execution failed due to an exception.");
    assert_eq!(e.data, Some("boom".to_string()));
}

#[test]
fn an_unavailable_block_says_why() {
    let ancient = "Looks like you disabled ancient block download, unfortunately the information you're trying to fetch doesn't exist in the db and is probably in the ancient blocks.";
    let by_hash = "Block information is incomplete while ancient block sync is still in progress, before it's finished we can't determine the existence of requested item.";
    let by_number = "Requested block number is in a range that is not available yet, because the ancient block sync is still in progress.";
    assert_eq!(unavailable_block(true, true), plain(-32000, ancient));
    assert_eq!(unavailable_block(true, false), plain(-32000, ancient));
    assert_eq!(unavailable_block(false, true), plain(-32000, by_hash));
    assert_eq!(unavailable_block(false, false), plain(-32000, by_number));
}

#[test]
fn failures_map_to_rpc_errors() {
    assert_eq!(Error::NoWork.to_rpc(), no_work());
    assert_eq!(Error::NoMetaData.to_rpc(), cannot_submit_work());
    assert_eq!(Error::Unsupported.to_rpc(), unimplemented(None));
    for e in [
        Error::MismatchedSealElement,
        Error::InvalidProofOfWork,
        Error::SealOutOfRange,
        Error::DecodeFailure,
    ] {
        assert_eq!(e.to_rpc(), invalid_params("seal", e.describe()));
        assert_eq!(e.to_rpc().code.code(), -32602);
    }
    for e in [Error::HeaderNotFound, Error::HeaderUnsealed] {
        assert_eq!(e.to_rpc(), exceptional(e.describe()));
    }
}

#[test]
fn retry_invalid_and_unimplemented_have_different_codes() {
    let retry = [Error::NoWork.to_rpc().code.code(), Error::NoMetaData.to_rpc().code.code()];
    let invalid = Error::MismatchedSealElement.to_rpc().code.code();
    let missing = Error::Unsupported.to_rpc().code.code();
    assert_eq!(retry, [-32001, -32005]);
    assert_eq!(missing, -32000);
    assert!(!retry.contains(&invalid));
    assert!(!retry.contains(&missing));
    assert_ne!(invalid, missing);
}

#[test]
fn every_failure_has_its_own_description() {
    let all = [
        Error::NoWork,
        Error::NoMetaData,
        Error::MismatchedSealElement,
        Error::InvalidProofOfWork,
        Error::SealOutOfRange,
        Error::DecodeFailure,
        Error::HeaderNotFound,
        Error::HeaderUnsealed,
        Error::Unsupported,
    ];
    for (i, a) in all.iter().enumerate() {
        assert!(!a.describe().is_empty());
        for b in &all[i + 1..] {
            assert_ne!(a.describe(), b.describe());
        }
    }
    assert_eq!(Error::DecodeFailure.describe(), "the seal bytes are malformed");
}
