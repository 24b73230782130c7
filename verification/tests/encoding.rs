use mqtt_options::encoding::EncodedText;
use mqtt_options::error::ConfigError;
use mqtt_options::interval::{clamp_seconds, interval_seconds};
use mqtt_options::record::{Address, BoundaryRecord};
use mqtt_options::ssl_options::SslOptions;
use mqtt_options::will_options::WillOptions;
use std::time::Duration;

#[test]
fn clamp_raises_only_zero() {
    assert_eq!(clamp_seconds(0), 1);
    assert_eq!(clamp_seconds(1), 1);
    assert_eq!(clamp_seconds(2), 2);
    assert_eq!(clamp_seconds(u64::MAX), u64::MAX);
}

#[test]
fn interval_seconds_drops_the_fraction() {
    assert_eq!(interval_seconds(Duration::from_millis(2500)), 2);
    assert_eq!(interval_seconds(Duration::from_secs(60)), 60);
    assert_eq!(interval_seconds(Duration::from_nanos(1)), 1);
    assert_eq!(interval_seconds(Duration::from_secs(0)), 1);
    assert_eq!(interval_seconds(Duration::new(3, 999_999_999)), 3);
}

#[test]
fn encoded_text_appends_one_terminator() {
    let text = EncodedText::new("secret").unwrap();
    assert_eq!(text.as_bytes(), "secret".as_bytes());
    assert_eq!(text.as_bytes_with_nul(), &[b's', b'e', b'c', b'r', b'e', b't', 0][..]);
    assert!(!text.is_empty());
}

#[test]
fn encoded_empty_text_is_a_lone_terminator() {
    let text = EncodedText::new("").unwrap();
    assert!(text.is_empty());
    assert_eq!(text.as_bytes(), &[0u8; 0][..]);
    assert_eq!(text.as_bytes_with_nul(), &[0u8][..]);

    let empty = EncodedText::empty();
    assert!(empty.is_empty());
    assert_eq!(empty.as_bytes_with_nul(), &[0u8][..]);
}

#[test]
fn encoding_rejects_a_zero_byte_anywhere() {
    assert_eq!(EncodedText::new("\0").err(), Some(ConfigError::InvalidConfig));
    assert_eq!(EncodedText::new("\0abc").err(), Some(ConfigError::InvalidConfig));
    assert_eq!(EncodedText::new("ab\0c").err(), Some(ConfigError::InvalidConfig));
    assert_eq!(EncodedText::new("abc\0").err(), Some(ConfigError::InvalidConfig));
    assert_eq!(EncodedText::new("\u{e9}\0").err(), Some(ConfigError::InvalidConfig));
}

#[test]
fn encoding_keeps_multibyte_characters() {
    let text = EncodedText::new("\u{100}\u{800}\u{10000}").unwrap();
    assert_eq!(
        text.as_bytes(),
        &[0xc4, 0x80, 0xe0, 0xa0, 0x80, 0xf0, 0x90, 0x80, 0x80][..]
    );
    assert_eq!(text.as_bytes_with_nul().len(), 10);
}

#[test]
fn encoded_text_clone_is_a_copy() {
    let text = EncodedText::new("alice").unwrap();
    let copy = text.clone();
    drop(text);
    assert_eq!(copy.as_bytes(), "alice".as_bytes());
    assert_eq!(copy.as_bytes_with_nul().last(), Some(&0u8));
}

#[test]
fn address_null_test() {
    assert!(Address::Null.is_null());
    assert!(!Address::UserName.is_null());
    assert!(!Address::Password.is_null());
    assert!(!Address::Will.is_null());
    assert!(!Address::Security.is_null());
}

#[test]
fn initial_record() {
    let record = BoundaryRecord::default();
    assert_eq!(record.struct_id, [77, 81, 84, 67]);
    assert_eq!(record.struct_version, 5);
    assert_eq!(record.keep_alive_interval, 0);
    assert_eq!(record.clean_session, 0);
    assert_eq!(record.max_inflight, 0);
    assert_eq!(record.connect_timeout, 0);
    assert_eq!(record.retry_interval, 0);
    assert_eq!(record.automatic_reconnect, 0);
    assert_eq!(record.min_retry_interval, 0);
    assert_eq!(record.max_retry_interval, 0);
    assert!(record.will.is_null());
    assert!(record.ssl.is_null());
    assert!(record.username.is_null());
    assert!(record.password.is_null());
}

#[test]
fn fresh_will_options() {
    let will = WillOptions::new();
    assert_eq!(will.topic, "");
    assert!(will.payload.is_empty());
    assert_eq!(will.qos, 0);
    assert!(!will.retained);
}

#[test]
fn will_options_clone_is_deep() {
    let will = WillOptions { topic: "t".to_string(), payload: vec![9, 8], qos: 2, retained: true };
    let mut copy = will.clone();
    assert_eq!(copy, will);
    copy.payload.push(7);
    copy.topic.push('x');
    assert_eq!(will.payload, vec![9, 8]);
    assert_eq!(will.topic, "t");
}

#[test]
fn fresh_ssl_options() {
    let ssl = SslOptions::new();
    assert_eq!(ssl.trust_store, "");
    assert_eq!(ssl.key_store, "");
    assert_eq!(ssl.private_key, "");
    assert_eq!(ssl.private_key_password, "");
    assert_eq!(ssl.enabled_cipher_suites, "");
    assert!(ssl.enable_server_cert_auth);
}

#[test]
fn ssl_options_clone_is_deep() {
    let mut ssl = SslOptions::new();
    ssl.trust_store = "ca.crt".to_string();
    let mut copy = ssl.clone();
    assert_eq!(copy, ssl);
    copy.trust_store.push('x');
    assert_eq!(ssl.trust_store, "ca.crt");
}
