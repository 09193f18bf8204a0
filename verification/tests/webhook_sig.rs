use rustshop::webhook::{
    tag_signature, tag_verdict, verify_github_request, RequestError, WebhookVerificationError,
};

const KEY: &str = "Jefe";
const PAYLOAD: &[u8] = b"what do ya want for nothing?";
const TAG: &[u8] = b"sha256=5bdcc146bf60754e6a042426089575c75a003f089d2739839dec58b964ec3843";

#[test]
fn a_signed_request_is_accepted() {
    assert!(verify_github_request(Some(KEY), PAYLOAD, Some(TAG)).is_ok());
    let upper = b"sha256=5BDCC146BF60754E6A042426089575C75A003F089D2739839DEC58B964EC3843";
    assert!(verify_github_request(Some(KEY), PAYLOAD, Some(upper)).is_ok());
}

#[test]
fn without_secret_everything_is_accepted() {
    assert!(verify_github_request(None, PAYLOAD, None).is_ok());
    assert!(verify_github_request(None, PAYLOAD, Some(b"nonsense")).is_ok());
}

#[test]
fn a_request_without_tag_is_refused() {
    assert!(matches!(
        verify_github_request(Some(KEY), PAYLOAD, None),
        Err(WebhookVerificationError::MissingTag)
    ));
}

fn refused_with_tag(secret: &str, payload: &[u8], tag: &[u8]) {
    match verify_github_request(Some(secret), payload, Some(tag)) {
        Err(WebhookVerificationError::InvalidTag { tag: got }) => assert_eq!(got, tag),
        other => panic!("unexpected: {:?}", other),
    }
}

#[test]
fn a_wrong_signature_is_refused() {
    refused_with_tag("other", PAYLOAD, TAG);
    refused_with_tag(KEY, b"what do ya want for nothing!", TAG);
    refused_with_tag(KEY, PAYLOAD, b"sha256=5bdcc146bf60754e6a042426089575c75a003f089d2739839dec58b964ec3844");
    refused_with_tag(KEY, PAYLOAD, b"sha256=5bdcc146");
    refused_with_tag(KEY, PAYLOAD, b"sha256=");
}

#[test]
fn a_malformed_tag_is_refused() {
    refused_with_tag(KEY, PAYLOAD, b"sha1=5bdcc146bf60754e6a042426089575c75a003f089d2739839dec58b964ec3843");
    refused_with_tag(KEY, PAYLOAD, b"5bdcc146bf60754e6a042426089575c75a003f089d2739839dec58b964ec3843");
    refused_with_tag(KEY, PAYLOAD, b"sha256=5bdcc146bf60754e6a042426089575c75a003f089d2739839dec58b964ec384");
    refused_with_tag(KEY, PAYLOAD, b"sha256=zzdcc146bf60754e6a042426089575c75a003f089d2739839dec58b964ec3843");
    refused_with_tag(KEY, PAYLOAD, b"sha");
    refused_with_tag(KEY, PAYLOAD, b"");
}

#[test]
fn the_signature_is_what_follows_the_prefix_in_hexadecimal() {
    assert_eq!(tag_signature(b"sha256=00ff1a").unwrap(), vec![0x00, 0xff, 0x1a]);
    assert_eq!(tag_signature(b"sha256=00FF1A").unwrap(), vec![0x00, 0xff, 0x1a]);
    assert_eq!(tag_signature(b"sha256=").unwrap(), Vec::<u8>::new());
    assert!(tag_signature(b"sha256=0").is_none());
    assert!(tag_signature(b"sha256=0g").is_none());
    assert!(tag_signature(b"SHA256=00").is_none());
    assert!(tag_signature(b"00").is_none());
}

#[test]
fn the_verdict_carries_the_tag() {
    assert!(tag_verdict(b"t", true).is_ok());
    assert!(matches!(
        tag_verdict(b"t", false),
        Err(WebhookVerificationError::InvalidTag { tag }) if tag == b"t"
    ));
}

#[test]
fn failures_have_their_status() {
    assert_eq!(RequestError::from_verification(WebhookVerificationError::MissingTag).status_code(), 400);
    assert_eq!(
        RequestError::WebhookVerification(WebhookVerificationError::InvalidTag { tag: Vec::new() })
            .status_code(),
        401
    );
    assert_eq!(RequestError::InternalError.status_code(), 500);
}
