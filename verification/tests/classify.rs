use fcm::result::{Error, FCMError};

fn text(s: &str) -> String {
    String::from(s)
}

#[test]
fn classify_400_is_invalid_argument() {
    assert_eq!(FCMError::classify(400, text("detail")), FCMError::InvalidArgument(text("detail")));
}

#[test]
fn classify_401_is_third_party_auth_error() {
    assert_eq!(
        FCMError::classify(401, text("detail")),
        FCMError::ThirdPartyAuthError(text("detail"))
    );
}

#[test]
fn classify_403_is_sender_id_mismatch() {
    assert_eq!(FCMError::classify(403, text("detail")), FCMError::SenderIdMismatch(text("detail")));
}

#[test]
fn classify_404_is_unregistered() {
    assert_eq!(FCMError::classify(404, text("detail")), FCMError::Unregistered(text("detail")));
}

#[test]
fn classify_429_is_quota_exceeded() {
    assert_eq!(FCMError::classify(429, text("detail")), FCMError::QuotaExceeded(text("detail")));
}

#[test]
fn classify_500_is_internal() {
    assert_eq!(FCMError::classify(500, text("detail")), FCMError::Internal(text("detail")));
}

#[test]
fn classify_503_is_unavailable() {
    assert_eq!(FCMError::classify(503, text("detail")), FCMError::Unavailable(text("detail")));
}

#[test]
fn classify_unlisted_codes_are_unspecified() {
    let codes: [i64; 16] = [
        0, 1, 100, 200, 204, 301, 399, 402, 405, 428, 430, 499, 501, 502, 504, 599,
    ];
    for code in codes {
        assert_eq!(
            FCMError::classify(code, text("detail")),
            FCMError::UnspecifiedError(text("detail")),
            "code {}",
            code
        );
    }
}

#[test]
fn classify_is_exact_match_not_range() {
    for code in 0i64..1000 {
        let listed = matches!(code, 400 | 401 | 403 | 404 | 429 | 500 | 503);
        let got = FCMError::classify(code, text("d"));
        assert_eq!(got == FCMError::UnspecifiedError(text("d")), !listed, "code {}", code);
    }
}

#[test]
fn classify_accepts_negative_and_huge_codes() {
    for code in [-1i64, -400, -503, i64::MIN, i64::MAX, 65_535, 65_536, 1_000_000] {
        assert_eq!(
            FCMError::classify(code, text("weird")),
            FCMError::UnspecifiedError(text("weird")),
            "code {}",
            code
        );
    }
}

#[test]
fn classify_does_not_wrap_codes_that_differ_by_a_power_of_two() {
    assert_eq!(
        FCMError::classify(400 + 65_536, text("d")),
        FCMError::UnspecifiedError(text("d"))
    );
    assert_eq!(
        FCMError::classify(404 + 4_294_967_296, text("d")),
        FCMError::UnspecifiedError(text("d"))
    );
}

#[test]
fn classify_keeps_the_detail_verbatim() {
    let details = [
        "",
        " ",
        "  leading and trailing  ",
        "MiXeD CaSe",
        "line one\nline two\r\n\ttabbed",
        "colon: inside: text",
        "snowman \u{2603} and emoji \u{1F600}",
    ];
    for d in details {
        match FCMError::classify(400, text(d)) {
            FCMError::InvalidArgument(kept) => assert_eq!(kept, d),
            other => panic!("unexpected {:?}", other),
        }
        match FCMError::classify(12345, text(d)) {
            FCMError::UnspecifiedError(kept) => assert_eq!(kept, d),
            other => panic!("unexpected {:?}", other),
        }
    }
}

#[test]
fn classify_keeps_a_very_long_detail() {
    let long = "x".repeat(1 << 20);
    match FCMError::classify(503, long.clone()) {
        FCMError::Unavailable(kept) => {
            assert_eq!(kept.len(), 1 << 20);
            assert_eq!(kept, long);
        }
        other => panic!("unexpected {:?}", other),
    }
}

#[test]
fn from_pair_follows_the_table() {
    assert_eq!(FCMError::from((400, text("d"))), FCMError::InvalidArgument(text("d")));
    assert_eq!(FCMError::from((401, text("d"))), FCMError::ThirdPartyAuthError(text("d")));
    assert_eq!(FCMError::from((403, text("d"))), FCMError::SenderIdMismatch(text("d")));
    assert_eq!(FCMError::from((404, text("d"))), FCMError::Unregistered(text("d")));
    assert_eq!(FCMError::from((429, text("d"))), FCMError::QuotaExceeded(text("d")));
    assert_eq!(FCMError::from((500, text("d"))), FCMError::Internal(text("d")));
    assert_eq!(FCMError::from((503, text("d"))), FCMError::Unavailable(text("d")));
    assert_eq!(FCMError::from((0, text("d"))), FCMError::UnspecifiedError(text("d")));
    assert_eq!(FCMError::from((418, text("d"))), FCMError::UnspecifiedError(text("d")));
    assert_eq!(FCMError::from((u16::MAX, text("d"))), FCMError::UnspecifiedError(text("d")));
}

#[test]
fn from_pair_agrees_with_classify_on_every_code() {
    for code in 0u16..=u16::MAX {
        assert_eq!(
            FCMError::from((code, text("d"))),
            FCMError::classify(i64::from(code), text("d")),
            "code {}",
            code
        );
    }
}

#[test]
fn into_from_pair() {
    let e: FCMError = (404u16, text("gone")).into();
    assert_eq!(e, FCMError::Unregistered(text("gone")));
}

#[test]
fn classified_error_wraps_into_client_error() {
    let e = Error::FCM(FCMError::classify(429, text("slow down")));
    assert_eq!(e, Error::FCM(FCMError::QuotaExceeded(text("slow down"))));
}
