use sdkwork_shop::identity::{
    static_node_id, DEVELOPMENT_NODE_ID, SHOP_IDENTITY_DATABASE_SERVICE, SHOP_IDENTITY_SERVICE_NAME,
    SHOP_SNOWFLAKE_NODE_ID_ENV,
};
use sdkwork_shop::{identity_posture, IdentityPosture};

#[test]
fn production_refuses_a_static_node_id() {
    let error = identity_posture(true, Some("7")).expect_err("must fail closed");
    assert!(
        error.contains(SHOP_SNOWFLAKE_NODE_ID_ENV),
        "the error must name the offending variable: {error}"
    );
}

#[test]
fn production_without_a_static_node_id_leases() {
    assert_eq!(
        identity_posture(true, None).expect("leased posture"),
        IdentityPosture::Leased
    );
}

#[test]
fn development_uses_a_static_node_id_even_when_one_is_configured() {
    assert_eq!(
        identity_posture(false, Some("7")).expect("static posture"),
        IdentityPosture::Static
    );
}

#[test]
fn development_without_a_configured_id_is_static() {
    assert_eq!(identity_posture(false, None), Ok(IdentityPosture::Static));
}

#[test]
fn refusal_message_is_exact() {
    assert_eq!(
        identity_posture(true, Some("42")),
        Err("static SDKWORK_SHOP_SNOWFLAKE_NODE_ID=42 is forbidden in production-like environments; remove it so the node id is leased from the platform node registry".to_string())
    );
}

#[test]
fn identity_constants() {
    assert_eq!(SHOP_SNOWFLAKE_NODE_ID_ENV, "SDKWORK_SHOP_SNOWFLAKE_NODE_ID");
    assert_eq!(SHOP_IDENTITY_SERVICE_NAME, "sdkwork-shop");
    assert_eq!(SHOP_IDENTITY_DATABASE_SERVICE, "SHOP");
    assert_eq!(DEVELOPMENT_NODE_ID, 1);
}

#[test]
fn static_node_id_defaults_to_the_development_id() {
    assert_eq!(static_node_id(None), Ok(1));
}

#[test]
fn static_node_id_is_trimmed_and_parsed() {
    assert_eq!(static_node_id(Some(" 7 ")), Ok(7));
    assert_eq!(static_node_id(Some("\t+8\n")), Ok(8));
    assert_eq!(static_node_id(Some("65535")), Ok(65535));
    assert_eq!(static_node_id(Some("0")), Ok(0));
}

#[test]
fn static_node_id_errors_match_the_parser() {
    assert_eq!(
        static_node_id(Some("   ")),
        Err("invalid SDKWORK_SHOP_SNOWFLAKE_NODE_ID: cannot parse integer from empty string".to_string())
    );
    assert_eq!(
        static_node_id(Some("7a")),
        Err("invalid SDKWORK_SHOP_SNOWFLAKE_NODE_ID: invalid digit found in string".to_string())
    );
    assert_eq!(
        static_node_id(Some("+")),
        Err("invalid SDKWORK_SHOP_SNOWFLAKE_NODE_ID: invalid digit found in string".to_string())
    );
    assert_eq!(
        static_node_id(Some("-1")),
        Err("invalid SDKWORK_SHOP_SNOWFLAKE_NODE_ID: invalid digit found in string".to_string())
    );
    assert_eq!(
        static_node_id(Some("70000")),
        Err("invalid SDKWORK_SHOP_SNOWFLAKE_NODE_ID: number too large to fit in target type".to_string())
    );
}

#[test]
fn static_node_id_agrees_with_std_parsing() {
    for raw in ["1", " 12 ", "+3", "", "x", "99999", "65536", "00042", "1 2", "+", "-0", "65535x", "70000x", "+65535"] {
        let expected = raw.trim().parse::<u16>().map_err(|e| {
            format!("invalid SDKWORK_SHOP_SNOWFLAKE_NODE_ID: {e}")
        });
        assert_eq!(static_node_id(Some(raw)), expected, "input {raw:?}");
    }
}
