use realworld_balance::settings::{
    compensation_topic, kafka_setting, kafka_settings, max_connections, parse_u32_text,
    request_topic, response_topic,
};

fn pair(a: &str, b: &str) -> (String, String) {
    (a.to_string(), b.to_string())
}

#[test]
fn kafka_variable_becomes_client_setting() {
    assert_eq!(
        kafka_setting("KAFKA_BOOTSTRAP_SERVERS", "localhost:9092"),
        Some(pair("bootstrap.servers", "localhost:9092"))
    );
    assert_eq!(kafka_setting("KAFKA_GROUP_ID", "balance"), Some(pair("group.id", "balance")));
}

#[test]
fn variable_without_kafka_is_left_out() {
    assert_eq!(kafka_setting("DATABASE_URL", "postgres://x"), None);
    assert_eq!(kafka_setting("kafka_lower", "v"), None);
    assert_eq!(kafka_setting("", "v"), None);
}

#[test]
fn kafka_inside_name_is_kept_and_prefix_removed_everywhere() {
    assert_eq!(kafka_setting("MY_KAFKA", "1"), Some(pair("my.kafka", "1")));
    assert_eq!(kafka_setting("A_KAFKA_B_KAFKA_C", "2"), Some(pair("a.b.c", "2")));
    assert_eq!(kafka_setting("KAFKA", "3"), Some(pair("kafka", "3")));
}

#[test]
fn settings_keep_order_and_drop_others() {
    let vars = vec![
        pair("PATH", "/bin"),
        pair("KAFKA_SASL_USERNAME", "u"),
        pair("HOME", "/root"),
        pair("KAFKA_SASL_PASSWORD", "p"),
    ];
    assert_eq!(
        kafka_settings(&vars),
        vec![pair("sasl.username", "u"), pair("sasl.password", "p")]
    );
    assert_eq!(kafka_settings(&Vec::new()), Vec::<(String, String)>::new());
}

#[test]
fn pool_size_defaults_to_five() {
    assert_eq!(max_connections(None), Some(5));
}

#[test]
fn pool_size_is_read_as_u32() {
    assert_eq!(max_connections(Some("12")), Some(12));
    assert_eq!(max_connections(Some("+7")), Some(7));
    assert_eq!(max_connections(Some("0")), Some(0));
    assert_eq!(max_connections(Some("4294967295")), Some(4294967295));
}

#[test]
fn bad_pool_size_is_refused() {
    assert_eq!(max_connections(Some("")), None);
    assert_eq!(max_connections(Some("+")), None);
    assert_eq!(max_connections(Some("-1")), None);
    assert_eq!(max_connections(Some("4294967296")), None);
    assert_eq!(max_connections(Some("99999999999999999999x")), None);
    assert_eq!(max_connections(Some(" 5")), None);
    assert_eq!(max_connections(Some("5a")), None);
}

#[test]
fn parse_agrees_with_std() {
    for text in ["", "+", "-", "0", "007", "+12", "-12", "4294967295", "4294967296", "1e3", "٣"] {
        assert_eq!(parse_u32_text(text), text.parse::<u32>().ok(), "{}", text);
    }
}

#[test]
fn topics() {
    assert_eq!(response_topic(), "enge-corp-transac-response");
    assert_eq!(compensation_topic(), "enge-corp-transac-compensation");
    assert_eq!(request_topic(), "enge-corp-transac-request");
}
