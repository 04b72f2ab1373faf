use b2_client::error::B2ErrorMessage;
use b2_client::models::B2UploadUrl;
use b2_client::upload_url::CallAction;
use b2_client::upload_url::CallEvent;
use b2_client::upload_url::CallPhase;
use b2_client::upload_url::RawUploadUrl;
use b2_client::upload_url::ReauthGuard;
use b2_client::upload_url::ReauthStep;
use b2_client::upload_url::UploadCall;
use b2_client::B2Error;

fn url(n: u32, in_parts: bool) -> B2UploadUrl {
    B2UploadUrl {
        bucket_id: if in_parts { None } else { Some("bucket-1".to_owned()) },
        file_id: if in_parts { Some("file-1".to_owned()) } else { None },
        upload_url: format!("https://pod.example/upload/{n}"),
        authorization_token: format!("token-{n}"),
    }
}

fn service_error(status: u16) -> B2Error {
    B2Error::B2ErrorMessage(B2ErrorMessage {
        status,
        code: "code".to_owned(),
        message: "message".to_owned(),
    })
}

#[test]
fn status_401_is_an_expiry_and_nothing_else_is() {
    assert!(service_error(401).is_expired());
    assert!(!service_error(400).is_expired());
    assert!(!service_error(403).is_expired());
    assert!(!service_error(500).is_expired());
    assert!(!B2Error::Unauthorized.is_expired());
    assert!(!B2Error::Unknown.is_expired());
    assert!(!B2Error::InvalidPartSorting.is_expired());
}

#[test]
fn error_message_reads_as_status_code_and_message() {
    let message = B2ErrorMessage {
        status: 401,
        code: "expired_auth_token".to_owned(),
        message: "Authorization token has expired".to_owned(),
    };
    assert_eq!(message.to_string(), "401 expired_auth_token: Authorization token has expired");
    let zero = B2ErrorMessage { status: 0, code: String::new(), message: String::new() };
    assert_eq!(zero.to_string(), "0 : ");
    let big = B2ErrorMessage { status: 65535, code: "c".to_owned(), message: "m".to_owned() };
    assert_eq!(big.to_string(), "65535 c: m");
}

#[test]
fn upload_that_succeeds_is_sent_once() {
    let mut lease = RawUploadUrl::new(url(1, false), false);
    let mut call = UploadCall::new();
    assert_eq!(call.phase(), CallPhase::Ready);
    assert!(matches!(call.step::<u32>(&mut lease, CallEvent::Begin), CallAction::Send));
    assert_eq!(call.phase(), CallPhase::Sent);
    let action = call.step(&mut lease, CallEvent::Response(Ok(7u32)));
    assert!(matches!(action, CallAction::Return(Ok(7))));
    assert_eq!(call.phase(), CallPhase::Finished);
    assert_eq!(lease.url().upload_url, "https://pod.example/upload/1");
}

#[test]
fn expiry_leads_to_one_refresh_and_a_second_try() {
    let mut lease = RawUploadUrl::new(url(1, true), true);
    let mut call = UploadCall::new();
    let mut refreshes = 0;
    let mut sends = 0;
    let mut action = call.step::<u32>(&mut lease, CallEvent::Begin);
    let result = loop {
        match action {
            CallAction::Send => {
                sends += 1;
                let response = if sends == 1 { Err(service_error(401)) } else { Ok(42) };
                action = call.step(&mut lease, CallEvent::Response(response));
            }
            CallAction::Refresh(target) => {
                refreshes += 1;
                assert!(target.in_parts);
                assert_eq!(target.id.as_deref(), Some("file-1"));
                assert_eq!(call.phase(), CallPhase::Refreshing);
                action = call.step(&mut lease, CallEvent::Refreshed(Ok(url(2, true))));
            }
            CallAction::Return(result) => break result,
        }
    };
    assert_eq!(result.unwrap(), 42);
    assert_eq!(sends, 2);
    assert_eq!(refreshes, 1);
    assert!(lease.in_parts());
    assert_eq!(lease.url().upload_url, "https://pod.example/upload/2");
    assert_eq!(lease.url().header(), "token-2");

    let mut next = UploadCall::new();
    assert!(matches!(next.step::<u32>(&mut lease, CallEvent::Begin), CallAction::Send));
    assert!(matches!(
        next.step(&mut lease, CallEvent::Response(Ok(1u32))),
        CallAction::Return(Ok(1))
    ));
    assert_eq!(lease.url().upload_url, "https://pod.example/upload/2");
}

#[test]
fn expiry_that_recurs_is_refreshed_each_time() {
    let mut lease = RawUploadUrl::new(url(0, false), false);
    let mut call = UploadCall::new();
    let mut refreshes = 0;
    let mut sends = 0;
    let mut action = call.step::<u32>(&mut lease, CallEvent::Begin);
    let result = loop {
        match action {
            CallAction::Send => {
                sends += 1;
                let response = if sends <= 3 { Err(service_error(401)) } else { Ok(sends) };
                action = call.step(&mut lease, CallEvent::Response(response));
            }
            CallAction::Refresh(target) => {
                refreshes += 1;
                assert!(!target.in_parts);
                assert_eq!(target.id.as_deref(), Some("bucket-1"));
                action = call.step(&mut lease, CallEvent::Refreshed(Ok(url(refreshes, false))));
            }
            CallAction::Return(result) => break result,
        }
    };
    assert_eq!(result.unwrap(), 4);
    assert_eq!(refreshes, 3);
    assert_eq!(lease.url().header(), "token-3");
}

#[test]
fn other_errors_are_not_tried_again() {
    for status in [400u16, 403, 408, 429, 500, 503] {
        let mut lease = RawUploadUrl::new(url(1, false), false);
        let mut call = UploadCall::new();
        call.step::<u32>(&mut lease, CallEvent::Begin);
        let action = call.step::<u32>(&mut lease, CallEvent::Response(Err(service_error(status))));
        match action {
            CallAction::Return(Err(B2Error::B2ErrorMessage(e))) => assert_eq!(e.status, status),
            _ => panic!("an error that is no expiry must be returned"),
        }
        assert_eq!(call.phase(), CallPhase::Finished);
        assert_eq!(lease.url().header(), "token-1");
    }
}

#[test]
fn failed_refresh_ends_the_call() {
    let mut lease = RawUploadUrl::new(url(1, false), false);
    let mut call = UploadCall::new();
    call.step::<u32>(&mut lease, CallEvent::Begin);
    let action = call.step::<u32>(&mut lease, CallEvent::Response(Err(service_error(401))));
    assert!(matches!(action, CallAction::Refresh(_)));
    let action = call.step::<u32>(&mut lease, CallEvent::Refreshed(Err(B2Error::MissingBucketId)));
    assert!(matches!(action, CallAction::Return(Err(B2Error::MissingBucketId))));
    assert_eq!(call.phase(), CallPhase::Finished);
    assert_eq!(lease.url().header(), "token-1");
}

#[test]
fn event_out_of_turn_ends_the_call_with_unknown() {
    let mut lease = RawUploadUrl::new(url(1, false), false);
    let mut call = UploadCall::new();
    let action = call.step(&mut lease, CallEvent::Response(Ok(1u32)));
    assert!(matches!(action, CallAction::Return(Err(B2Error::Unknown))));
    assert_eq!(call.phase(), CallPhase::Finished);
    let action = call.step::<u32>(&mut lease, CallEvent::Begin);
    assert!(matches!(action, CallAction::Return(Err(B2Error::Unknown))));

    let mut call = UploadCall::new();
    call.step::<u32>(&mut lease, CallEvent::Begin);
    let action = call.step::<u32>(&mut lease, CallEvent::Refreshed(Ok(url(9, false))));
    assert!(matches!(action, CallAction::Return(Err(B2Error::Unknown))));
    assert_eq!(lease.url().header(), "token-1");
}

#[test]
fn target_of_a_url_is_its_bucket_or_its_large_file() {
    let whole = RawUploadUrl::new(url(1, false), false);
    let target = whole.target();
    assert!(!target.in_parts);
    assert_eq!(target.id.as_deref(), Some("bucket-1"));
    let parts = RawUploadUrl::new(url(1, true), true);
    let target = parts.target();
    assert!(target.in_parts);
    assert_eq!(target.id.as_deref(), Some("file-1"));
    let mut unnamed = RawUploadUrl::new(url(1, true), false);
    assert_eq!(unnamed.target().id, None);
    unnamed.replace(url(5, false));
    assert!(!unnamed.in_parts());
    assert_eq!(unnamed.target().id.as_deref(), Some("bucket-1"));
}

#[test]
fn call_is_reauthorized_once_at_most() {
    let mut guard = ReauthGuard::new();
    assert!(matches!(guard.on_result::<u32>(Err(service_error(401))), ReauthStep::Reauthorize));
    match guard.on_result::<u32>(Err(service_error(401))) {
        ReauthStep::Done(Err(B2Error::B2ErrorMessage(e))) => assert_eq!(e.status, 401),
        _ => panic!("a second expiry must be returned"),
    }
    assert!(matches!(guard.on_result(Ok(3u32)), ReauthStep::Done(Ok(3))));
}

#[test]
fn call_without_expiry_is_not_reauthorized() {
    let mut guard = ReauthGuard::new();
    assert!(matches!(guard.on_result(Ok(3u32)), ReauthStep::Done(Ok(3))));
    assert!(matches!(
        guard.on_result::<u32>(Err(B2Error::MissingFileName)),
        ReauthStep::Done(Err(B2Error::MissingFileName))
    ));
    match guard.on_result::<u32>(Err(service_error(500))) {
        ReauthStep::Done(Err(B2Error::B2ErrorMessage(e))) => assert_eq!(e.status, 500),
        _ => panic!("an error that is no expiry must be returned"),
    }
    assert!(matches!(guard.on_result::<u32>(Err(service_error(401))), ReauthStep::Reauthorize));
}
