use wamp_async::common::{canonical_dict, copy_arg, copy_dict, dict_insert, Arg, WampDict};
use wamp_async::config::ClientConfig;
use wamp_async::serializer::SerializerType;
use wamp_async::text::{comes_before, folds_to, same_text, to_lower};

fn nested() -> Arg {
    Arg::Dict(vec![
        ("list".to_owned(), Arg::List(vec![Arg::Null, Arg::Bool(true), Arg::Integer(7)])),
        ("text".to_owned(), Arg::String("value".to_owned())),
        ("dict".to_owned(), Arg::Dict(vec![("inner".to_owned(), Arg::List(vec![]))])),
    ])
}

#[test]
fn copy_of_a_value_equals_the_value() {
    assert_eq!(copy_arg(&nested()), nested());
    assert_eq!(copy_arg(&Arg::Null), Arg::Null);
    assert_eq!(copy_arg(&Arg::Integer(u64::MAX)), Arg::Integer(u64::MAX));
}

#[test]
fn copy_of_a_dictionary_equals_the_dictionary() {
    let d: WampDict = vec![("a".to_owned(), nested()), ("b".to_owned(), Arg::Bool(false))];
    assert_eq!(copy_dict(&d), d);
    assert_eq!(copy_dict(&vec![]), vec![]);
}

#[test]
fn insert_under_a_new_key_keeps_the_order_of_keys() {
    let mut d: WampDict = vec![];
    dict_insert(&mut d, "b".to_owned(), Arg::Integer(2));
    dict_insert(&mut d, "c".to_owned(), Arg::Integer(3));
    dict_insert(&mut d, "a".to_owned(), Arg::Integer(1));
    dict_insert(&mut d, "bb".to_owned(), Arg::Integer(4));
    assert_eq!(
        d,
        vec![
            ("a".to_owned(), Arg::Integer(1)),
            ("b".to_owned(), Arg::Integer(2)),
            ("bb".to_owned(), Arg::Integer(4)),
            ("c".to_owned(), Arg::Integer(3)),
        ]
    );
}

#[test]
fn order_of_inserts_does_not_show() {
    let keys = ["match", "invoke", "acknowledge", "x", ""];
    let mut forth: WampDict = vec![];
    for key in keys.iter() {
        dict_insert(&mut forth, (*key).to_owned(), Arg::String((*key).to_owned()));
    }
    let mut back: WampDict = vec![];
    for key in keys.iter().rev() {
        dict_insert(&mut back, (*key).to_owned(), Arg::String((*key).to_owned()));
    }
    assert_eq!(forth, back);
    assert_eq!(
        forth.into_iter().map(|(key, _)| key).collect::<Vec<String>>(),
        vec!["", "acknowledge", "invoke", "match", "x"]
    );
}

#[test]
fn canonical_form_is_ordered_and_keeps_the_last_value() {
    let d: WampDict = vec![
        ("b".to_owned(), Arg::Integer(1)),
        ("a".to_owned(), Arg::Integer(2)),
        ("b".to_owned(), Arg::Integer(3)),
        ("c".to_owned(), nested()),
    ];
    assert_eq!(
        canonical_dict(&d),
        vec![
            ("a".to_owned(), Arg::Integer(2)),
            ("b".to_owned(), Arg::Integer(3)),
            ("c".to_owned(), nested()),
        ]
    );
    assert_eq!(canonical_dict(&vec![]), vec![]);
    let ordered: WampDict = vec![("a".to_owned(), Arg::Null), ("b".to_owned(), Arg::Null)];
    assert_eq!(canonical_dict(&ordered), ordered);
}

#[test]
fn texts_are_ordered_by_their_characters() {
    assert!(comes_before("", "a"));
    assert!(!comes_before("", ""));
    assert!(!comes_before("a", ""));
    assert!(comes_before("a", "b"));
    assert!(!comes_before("b", "a"));
    assert!(!comes_before("a", "a"));
    assert!(comes_before("a", "aa"));
    assert!(!comes_before("aa", "a"));
    assert!(comes_before("invoke", "match"));
    assert!(comes_before("Z", "a"));
    assert!(comes_before("z", "\u{e4}"));
    assert!(comes_before("\u{ffff}", "\u{10000}"));
    for (a, b) in [("", "a"), ("ab", "b"), ("x", "x"), ("\u{e9}", "z"), ("\u{ffff}", "\u{1f600}")] {
        assert_eq!(comes_before(a, b), a < b);
        assert_eq!(comes_before(b, a), b < a);
    }
}

#[test]
fn insert_under_an_old_key_replaces_in_place() {
    let mut d: WampDict = vec![("a".to_owned(), Arg::Integer(1)), ("b".to_owned(), Arg::Integer(2))];
    dict_insert(&mut d, "a".to_owned(), Arg::Bool(true));
    assert_eq!(d, vec![("a".to_owned(), Arg::Bool(true)), ("b".to_owned(), Arg::Integer(2))]);
}

#[test]
fn insert_replaces_the_first_of_two_equal_keys() {
    let mut d: WampDict = vec![("a".to_owned(), Arg::Integer(1)), ("a".to_owned(), Arg::Integer(2))];
    dict_insert(&mut d, "a".to_owned(), Arg::Integer(3));
    assert_eq!(d, vec![("a".to_owned(), Arg::Integer(3)), ("a".to_owned(), Arg::Integer(2))]);
}

#[test]
fn keys_are_compared_by_their_characters() {
    let mut d: WampDict = vec![("A".to_owned(), Arg::Integer(1))];
    dict_insert(&mut d, "a".to_owned(), Arg::Integer(2));
    assert_eq!(d.len(), 2);
}

#[test]
fn same_text_compares_characters() {
    assert!(same_text("", ""));
    assert!(same_text("wamp.2.json", "wamp.2.json"));
    assert!(!same_text("wamp.2.json", "wamp.2.jsoN"));
    assert!(!same_text("ws", "wss"));
}

#[test]
fn lower_case_of_ascii_capitals_only() {
    assert_eq!(to_lower('A'), 'a');
    assert_eq!(to_lower('Z'), 'z');
    assert_eq!(to_lower('a'), 'a');
    assert_eq!(to_lower('@'), '@');
    assert_eq!(to_lower('['), '[');
    assert_eq!(to_lower('-'), '-');
    assert_eq!(to_lower('\u{c4}'), '\u{c4}');
    assert_eq!(to_lower('\u{212a}'), '\u{212a}');
}

#[test]
fn folding_lowers_the_first_text_only() {
    assert!(folds_to("Sec-WebSocket-Protocol", "sec-websocket-protocol"));
    assert!(folds_to("", ""));
    assert!(!folds_to("sec-websocket-protocol", "Sec-WebSocket-Protocol"));
    assert!(!folds_to("sec-websocket-protoco", "sec-websocket-protocol"));
    assert!(!folds_to("\u{c4}", "\u{e4}"));
    assert!(folds_to("\u{e4}X", "\u{e4}x"));
}

#[test]
fn serializer_names() {
    assert_eq!(SerializerType::Json.to_str(), "wamp.2.json");
    assert_eq!(SerializerType::MsgPack.to_str(), "wamp.2.msgpack");
    assert_eq!(SerializerType::Cbor.to_str(), "wamp.2.cbor");
}

#[test]
fn serializer_is_recognised_by_its_name() {
    for s in [SerializerType::Json, SerializerType::MsgPack, SerializerType::Cbor] {
        assert_eq!(SerializerType::from_str(s.to_str()).unwrap(), s);
    }
}

#[test]
fn unknown_serializer_name_is_handed_back() {
    assert_eq!(SerializerType::from_str("wamp.2.xml").unwrap_err().0, "wamp.2.xml");
    assert_eq!(SerializerType::from_str("").unwrap_err().0, "");
    assert_eq!(SerializerType::from_str("WAMP.2.JSON").unwrap_err().0, "WAMP.2.JSON");
}

#[test]
fn only_json_travels_as_text() {
    assert!(!SerializerType::Json.is_binary());
    assert!(SerializerType::MsgPack.is_binary());
    assert!(SerializerType::Cbor.is_binary());
}

#[test]
fn config_hands_back_what_it_was_given() {
    let config = ClientConfig::new(
        "agent".to_owned(),
        vec![SerializerType::MsgPack],
        vec![("X-A".to_owned(), "1".to_owned())],
        false,
    );
    assert!(!config.get_ssl_verify());
    assert_eq!(config.get_agent(), "agent");
    assert_eq!(config.get_serializers(), &vec![SerializerType::MsgPack]);
    assert_eq!(config.get_websocket_headers(), &vec![("X-A".to_owned(), "1".to_owned())]);
}
