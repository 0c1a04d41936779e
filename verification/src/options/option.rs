//! Option values and the behaviour shared by all option builders.

use vstd::prelude::*;
use crate::common::{arg_model, canonical, dict_insert, dict_model, sorted_keys, with_entry};
use crate::common::{lemma_canonical_of_sorted, lemma_with_entry_sorted};
use crate::common::{Arg, ArgModel, WampDict, WampString};

verus! {

/// How a router chooses among several callees of one procedure.
pub enum InvokeOption {
    Single,
    First,
    Last,
    Roundrobin,
    Random,
}

/// The name of an invocation policy in an option dictionary.
pub open spec fn invoke_name(option: InvokeOption) -> Seq<char> {
    match option {
        InvokeOption::Single => "single"@,
        InvokeOption::First => "first"@,
        InvokeOption::Last => "last"@,
        InvokeOption::Roundrobin => "roundrobin"@,
        InvokeOption::Random => "random"@,
    }
}

impl InvokeOption {
    /// The name of this policy in an option dictionary.
    pub fn value(&self) -> (name: String)
        ensures
            name@ == invoke_name(*self),
    {
        match *self {
            InvokeOption::Single => "single".to_owned(),
            InvokeOption::First => "first".to_owned(),
            InvokeOption::Last => "last".to_owned(),
            InvokeOption::Roundrobin => "roundrobin".to_owned(),
            InvokeOption::Random => "random".to_owned(),
        }
    }
}

/// How a router matches a name against a registered or subscribed one.
pub enum MatchOption {
    Exact,
    Prefix,
    Wildcard,
}

/// The name of a matching policy in an option dictionary.
pub open spec fn match_name(option: MatchOption) -> Seq<char> {
    match option {
        MatchOption::Exact => "exact"@,
        MatchOption::Prefix => "prefix"@,
        MatchOption::Wildcard => "wildcard"@,
    }
}

impl MatchOption {
    /// The name of this policy in an option dictionary.
    pub fn value(&self) -> (name: String)
        ensures
            name@ == match_name(*self),
    {
        match *self {
            MatchOption::Exact => "exact".to_owned(),
            MatchOption::Prefix => "prefix".to_owned(),
            MatchOption::Wildcard => "wildcard".to_owned(),
        }
    }
}

/// A key and a value for the option dictionary of one role.
#[derive(Debug, Clone)]
pub enum WampOption<K, V> {
    /// An option of the publisher role.
    PublishOption(K, V),
    /// An option of the subscriber role.
    SubscribeOption(K, V),
    /// An option of the caller role.
    CallOption(K, V),
    /// An option of the callee role.
    RegisterOption(K, V),
    /// No option.
    Empty,
}

/// The key and the value of an option, whatever its role; none for the
/// empty option.
pub open spec fn accepted(option: WampOption<String, Arg>) -> Option<(WampString, Arg)> {
    match option {
        WampOption::PublishOption(key, value) => Some((key, value)),
        WampOption::SubscribeOption(key, value) => Some((key, value)),
        WampOption::RegisterOption(key, value) => Some((key, value)),
        WampOption::CallOption(key, value) => Some((key, value)),
        WampOption::Empty => None,
    }
}

/// The key of a pair that a builder takes from an option.
pub open spec fn key_of(pair: Option<(WampString, Arg)>) -> Seq<char> {
    match pair {
        Some((key, _)) => key@,
        None => Seq::empty(),
    }
}

/// What the value holds of a pair that a builder takes from an option.
pub open spec fn value_of(pair: Option<(WampString, Arg)>) -> ArgModel {
    match pair {
        Some((_, value)) => arg_model(value),
        None => ArgModel::Null,
    }
}

/// What an optional dictionary holds.
pub open spec fn options_model(options: Option<WampDict>) -> Option<Seq<(Seq<char>, ArgModel)>> {
    match options {
        Some(d) => Some(dict_model(d@)),
        None => None,
    }
}

/// What an optional dictionary holds once it is brought into its canonical
/// form: its entries in the order of their keys, each key once.
pub open spec fn canonical_options(options: Option<WampDict>) -> Option<
    Seq<(Seq<char>, ArgModel)>,
> {
    match options {
        Some(d) => Some(canonical(dict_model(d@))),
        None => None,
    }
}

/// The entries of an optional dictionary; none where there is no dictionary.
pub open spec fn entries_of(options: Option<Seq<(Seq<char>, ArgModel)>>) -> Seq<
    (Seq<char>, ArgModel),
> {
    match options {
        Some(entries) => entries,
        None => Seq::empty(),
    }
}

/// Whether what a builder holds is in order: its entries stand in the order
/// of their keys, so no key stands twice and builders that hold the same
/// value under every key hold the same dictionary.
pub open spec fn well_kept(options: Option<Seq<(Seq<char>, ArgModel)>>) -> bool {
    sorted_keys(entries_of(options))
}

/// Takes the key and the value of an option, whatever its role; the empty
/// option gives none.
pub fn accept_any(option: WampOption<String, Arg>) -> (r: Option<(WampString, Arg)>)
    ensures
        r == accepted(option),
{
    match option {
        WampOption::PublishOption(key, value) => Some((key, value)),
        WampOption::SubscribeOption(key, value) => Some((key, value)),
        WampOption::RegisterOption(key, value) => Some((key, value)),
        WampOption::CallOption(key, value) => Some((key, value)),
        WampOption::Empty => None,
    }
}

/// What every builder of an option dictionary can do. A builder is a value:
/// adding an option gives a new builder and leaves the old one as it was.
/// What a builder holds is always in order (see [`well_kept`]).
pub trait OptionBuilder: Sized {
    /// What the dictionary of this builder holds; nothing before the first
    /// option is added.
    spec fn options(&self) -> Option<Seq<(Seq<char>, ArgModel)>>;

    /// The key and the value that builders of this kind take from an option;
    /// none for an option that they refuse.
    spec fn accepts(option: WampOption<String, Arg>) -> Option<(WampString, Arg)>;

    /// A builder whose dictionary is that of this one with the option's value
    /// put under the option's key. An option that builders of this kind
    /// refuse cannot be added.
    fn with_option(&self, option: WampOption<String, Arg>) -> (next: Self)
        requires
            Self::accepts(option) is Some,
        ensures
            next.options() == Some(
                with_entry(
                    entries_of(self.options()),
                    key_of(Self::accepts(option)),
                    value_of(Self::accepts(option)),
                ),
            ),
            well_kept(self.options()),
            well_kept(next.options()),
    {
        let mut next_options: WampDict = match self.get_dict() {
            Some(opts) => opts,
            None => Vec::new(),
        };
        assert(dict_model(next_options@) =~= entries_of(self.options()));
        match Self::validate_option(option) {
            Some((key, value)) => {
                proof {
                    lemma_with_entry_sorted(dict_model(next_options@), key@, arg_model(value));
                }
                dict_insert(&mut next_options, key, value);
            },
            None => {},
        }
        proof {
            lemma_canonical_of_sorted(dict_model(next_options@));
        }
        Self::create(Some(next_options))
    }

    /// Validates an option: gives the key and the value that builders of
    /// this kind take from it, or none where they refuse it.
    fn validate_option(option: WampOption<String, Arg>) -> (r: Option<(WampString, Arg)>)
        ensures
            r == Self::accepts(option),
    ;

    /// A builder without a dictionary.
    fn new() -> (r: Self)
        ensures
            r.options() is None,
    {
        Self::empty()
    }

    /// A builder without a dictionary.
    fn empty() -> (r: Self)
        ensures
            r.options() is None,
    {
        Self::create(None)
    }

    /// A builder with the given dictionary, brought into its canonical form.
    fn create(options: Option<WampDict>) -> (r: Self)
        ensures
            r.options() == canonical_options(options),
            well_kept(r.options()),
    ;

    /// A copy of the dictionary of this builder.
    fn get_dict(&self) -> (r: Option<WampDict>)
        ensures
            options_model(r) == self.options(),
            well_kept(self.options()),
    ;
}

} // verus!
