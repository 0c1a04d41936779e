use wamp_async::common::Arg;
use wamp_async::options::{
    InvokeOption, MatchOption, OptionBuilder, RegistrationOptions, WampOption,
};

#[test]
fn invoke_option_names() {
    assert_eq!(InvokeOption::Single.value(), "single");
    assert_eq!(InvokeOption::First.value(), "first");
    assert_eq!(InvokeOption::Last.value(), "last");
    assert_eq!(InvokeOption::Roundrobin.value(), "roundrobin");
    assert_eq!(InvokeOption::Random.value(), "random");
}

#[test]
fn match_option_names() {
    assert_eq!(MatchOption::Exact.value(), "exact");
    assert_eq!(MatchOption::Prefix.value(), "prefix");
    assert_eq!(MatchOption::Wildcard.value(), "wildcard");
}

#[test]
fn new_builder_has_no_dictionary() {
    assert!(RegistrationOptions::new().get_dict().is_none());
    assert!(RegistrationOptions::empty().get_dict().is_none());
    assert!(RegistrationOptions::default().get_dict().is_none());
}

#[test]
fn invoke_builds_one_entry() {
    let options = RegistrationOptions::invoke(InvokeOption::Roundrobin);
    assert_eq!(
        options.get_dict(),
        Some(vec![("invoke".to_owned(), Arg::String("roundrobin".to_owned()))])
    );
}

#[test]
fn options_stand_in_the_order_of_their_keys() {
    let options = RegistrationOptions::match_(MatchOption::Prefix)
        .with_invoke(InvokeOption::First)
        .with_match(MatchOption::Wildcard);
    assert_eq!(
        options.get_dict(),
        Some(vec![
            ("invoke".to_owned(), Arg::String("first".to_owned())),
            ("match".to_owned(), Arg::String("wildcard".to_owned())),
        ])
    );
}

#[test]
fn order_of_invoke_and_match_does_not_matter() {
    let one = RegistrationOptions::new()
        .with_match(MatchOption::Prefix)
        .with_invoke(InvokeOption::Random);
    let other = RegistrationOptions::new()
        .with_invoke(InvokeOption::Random)
        .with_match(MatchOption::Prefix);
    assert_eq!(one.get_dict(), other.get_dict());
    assert_eq!(
        one.get_dict(),
        Some(vec![
            ("invoke".to_owned(), Arg::String("random".to_owned())),
            ("match".to_owned(), Arg::String("prefix".to_owned())),
        ])
    );
    let base = RegistrationOptions::create(Some(vec![
        ("zeta".to_owned(), Arg::Integer(1)),
        ("alpha".to_owned(), Arg::Integer(2)),
        ("kappa".to_owned(), Arg::Integer(3)),
    ]));
    let one = base.with_match(MatchOption::Exact).with_invoke(InvokeOption::Last);
    let other = base.with_invoke(InvokeOption::Last).with_match(MatchOption::Exact);
    assert_eq!(one.get_dict(), other.get_dict());
    assert_eq!(
        one.get_dict().unwrap().into_iter().map(|(key, _)| key).collect::<Vec<String>>(),
        vec!["alpha", "invoke", "kappa", "match", "zeta"]
    );
}

#[test]
fn with_option_leaves_the_old_builder_unchanged() {
    let first = RegistrationOptions::invoke(InvokeOption::Single);
    let second = first.with_option(WampOption::RegisterOption(
        "force_reregister".to_owned(),
        Arg::Bool(true),
    ));
    assert_eq!(
        first.get_dict(),
        Some(vec![("invoke".to_owned(), Arg::String("single".to_owned()))])
    );
    assert_eq!(
        second.get_dict(),
        Some(vec![
            ("force_reregister".to_owned(), Arg::Bool(true)),
            ("invoke".to_owned(), Arg::String("single".to_owned())),
        ])
    );
}

#[test]
fn with_option_replaces_the_value_under_a_key() {
    let options = RegistrationOptions::invoke(InvokeOption::Single)
        .with_option(WampOption::CallOption("invoke".to_owned(), Arg::Integer(7)));
    assert_eq!(options.get_dict(), Some(vec![("invoke".to_owned(), Arg::Integer(7))]));
}

#[test]
fn create_brings_a_dictionary_into_order() {
    let options = RegistrationOptions::create(Some(vec![
        ("match".to_owned(), Arg::String("prefix".to_owned())),
        ("invoke".to_owned(), Arg::String("first".to_owned())),
        ("match".to_owned(), Arg::String("exact".to_owned())),
    ]));
    assert_eq!(
        options.get_dict(),
        Some(vec![
            ("invoke".to_owned(), Arg::String("first".to_owned())),
            ("match".to_owned(), Arg::String("exact".to_owned())),
        ])
    );
    assert_eq!(RegistrationOptions::create(Some(vec![])).get_dict(), Some(vec![]));
    assert_eq!(RegistrationOptions::create(None).get_dict(), None);
}

#[test]
fn validate_option_accepts_every_role() {
    let pair = Some(("k".to_owned(), Arg::Integer(1)));
    assert_eq!(
        RegistrationOptions::validate_option(WampOption::PublishOption(
            "k".to_owned(),
            Arg::Integer(1)
        )),
        pair
    );
    assert_eq!(
        RegistrationOptions::validate_option(WampOption::CallOption(
            "k".to_owned(),
            Arg::Integer(1)
        )),
        pair
    );
    assert_eq!(
        RegistrationOptions::validate_option(WampOption::SubscribeOption(
            "k".to_owned(),
            Arg::Integer(1)
        )),
        pair
    );
    assert_eq!(
        RegistrationOptions::validate_option(WampOption::RegisterOption(
            "k".to_owned(),
            Arg::Integer(1)
        )),
        pair
    );
    assert_eq!(RegistrationOptions::validate_option(WampOption::Empty), None);
}
