use deribit_mcp::error::AdapterError;
use deribit_mcp::resources::{parse_resource_uri, ResourceUri};

#[test]
fn parse_accepts_every_template() {
    assert_eq!(parse_resource_uri("deribit://currencies").unwrap(), ResourceUri::Currencies);
    assert_eq!(
        parse_resource_uri("deribit://instruments/BTC").unwrap(),
        ResourceUri::Instruments { currency: "BTC".to_string() }
    );
    assert_eq!(
        parse_resource_uri("deribit://book/BTC-PERPETUAL").unwrap(),
        ResourceUri::Book { instrument: "BTC-PERPETUAL".to_string() }
    );
    assert_eq!(
        parse_resource_uri("deribit://ticker/ETH_USDC-29SEP24").unwrap(),
        ResourceUri::Ticker { instrument: "ETH_USDC-29SEP24".to_string() }
    );
    assert_eq!(
        parse_resource_uri("deribit://trades/BTC-31MAY24-50000-C").unwrap(),
        ResourceUri::Trades { instrument: "BTC-31MAY24-50000-C".to_string() }
    );
}

#[test]
fn parse_rejects_everything_else() {
    for bad in [
        "",
        "http://currencies",
        "deribit://currency",
        "deribit://currencies/",
        "deribit://instruments/",
        "deribit://instruments",
        "deribit://book/BTC/PERPETUAL",
        "deribit://book/BTC PERPETUAL",
        "deribit://orders/BTC",
        "DERIBIT://book/BTC",
    ] {
        match parse_resource_uri(bad) {
            Err(AdapterError::Validation { field, message }) => {
                assert_eq!(field, "uri");
                assert!(message.contains(bad), "{message}");
            }
            other => panic!("{bad:?}: unexpected {other:?}"),
        }
    }
}

#[test]
fn to_uri_round_trips() {
    for text in [
        "deribit://currencies",
        "deribit://instruments/ETH",
        "deribit://book/BTC-PERPETUAL",
        "deribit://ticker/BTC-PERPETUAL",
        "deribit://trades/ETH-30JUN23-1500-P",
    ] {
        let uri = parse_resource_uri(text).unwrap();
        assert_eq!(uri.to_uri(), text);
        assert_eq!(parse_resource_uri(&uri.to_uri()).unwrap(), uri);
    }
}

#[test]
fn same_and_duplicate_compare_by_kind_and_name() {
    let a = ResourceUri::Book { instrument: "X".to_string() };
    let b = ResourceUri::Ticker { instrument: "X".to_string() };
    assert!(a.same(&a.duplicate()));
    assert!(!a.same(&b));
    assert!(ResourceUri::Currencies.same(&ResourceUri::Currencies));
}
