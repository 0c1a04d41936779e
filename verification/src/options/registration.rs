//! Options for registering a procedure.

use vstd::prelude::*;
use crate::common::{canonical_dict, copy_dict, dict_model, sorted_keys, with_entry};
use crate::common::lemma_with_entry_commutes;
use crate::common::{Arg, ArgModel, WampDict, WampString};
use crate::options::option::{
    accept_any, accepted, entries_of, invoke_name, match_name, options_model, well_kept,
};
use crate::options::option::{InvokeOption, MatchOption, OptionBuilder, WampOption};

verus! {

/// Builder of the option dictionary of a registration. It takes the options
/// of every role.
pub struct RegistrationOptionItem(Option<WampDict>);

/// The usual name of [`RegistrationOptionItem`].
pub type RegistrationOptions = RegistrationOptionItem;

impl RegistrationOptionItem {
    /// The entries of the dictionary stand in the order of their keys.
    #[verifier::type_invariant]
    spec fn kept(self) -> bool {
        match self.0 {
            Some(d) => sorted_keys(dict_model(d@)),
            None => true,
        }
    }

    /// A builder that asks for an invocation policy.
    pub fn invoke(invoke_option: InvokeOption) -> (r: Self)
        ensures
            r.options() == Some(seq![("invoke"@, ArgModel::String(invoke_name(invoke_option)))]),
    {
        let r = RegistrationOptions::new().with_invoke(invoke_option);
        assert(with_entry(Seq::empty(), "invoke"@, ArgModel::String(invoke_name(invoke_option)))
            == seq![("invoke"@, ArgModel::String(invoke_name(invoke_option)))]);
        r
    }

    /// This builder with the invocation policy put under the key `invoke`.
    pub fn with_invoke(&self, invoke_option: InvokeOption) -> (r: Self)
        ensures
            r.options() == Some(
                with_entry(
                    entries_of(self.options()),
                    "invoke"@,
                    ArgModel::String(invoke_name(invoke_option)),
                ),
            ),
            well_kept(self.options()),
            well_kept(r.options()),
    {
        self.with_option(
            WampOption::RegisterOption("invoke".to_owned(), Arg::String(invoke_option.value())),
        )
    }

    /// A builder that asks for a matching policy.
    pub fn match_(match_option: MatchOption) -> (r: Self)
        ensures
            r.options() == Some(seq![("match"@, ArgModel::String(match_name(match_option)))]),
    {
        let r = RegistrationOptions::new().with_match(match_option);
        assert(with_entry(Seq::empty(), "match"@, ArgModel::String(match_name(match_option)))
            == seq![("match"@, ArgModel::String(match_name(match_option)))]);
        r
    }

    /// This builder with the matching policy put under the key `match`.
    pub fn with_match(&self, match_option: MatchOption) -> (r: Self)
        ensures
            r.options() == Some(
                with_entry(
                    entries_of(self.options()),
                    "match"@,
                    ArgModel::String(match_name(match_option)),
                ),
            ),
            well_kept(self.options()),
            well_kept(r.options()),
    {
        self.with_option(
            WampOption::RegisterOption("match".to_owned(), Arg::String(match_option.value())),
        )
    }
}

/// It does not matter in which order an invocation policy and a matching
/// policy are put into a dictionary that is in order: both orders give the
/// same dictionary.
pub proof fn lemma_invoke_and_match_commute(
    entries: Seq<(Seq<char>, ArgModel)>,
    invoke_option: InvokeOption,
    match_option: MatchOption,
)
    requires
        sorted_keys(entries),
    ensures
        with_entry(
            with_entry(entries, "invoke"@, ArgModel::String(invoke_name(invoke_option))),
            "match"@,
            ArgModel::String(match_name(match_option)),
        ) == with_entry(
            with_entry(entries, "match"@, ArgModel::String(match_name(match_option))),
            "invoke"@,
            ArgModel::String(invoke_name(invoke_option)),
        ),
{
    reveal_strlit("invoke");
    reveal_strlit("match");
    assert("invoke"@.len() != "match"@.len());
    lemma_with_entry_commutes(
        entries,
        ("invoke"@, ArgModel::String(invoke_name(invoke_option))),
        ("match"@, ArgModel::String(match_name(match_option))),
    );
}

impl OptionBuilder for RegistrationOptionItem {
    closed spec fn options(&self) -> Option<Seq<(Seq<char>, ArgModel)>> {
        options_model(self.0)
    }

    open spec fn accepts(option: WampOption<String, Arg>) -> Option<(WampString, Arg)> {
        accepted(option)
    }

    fn validate_option(option: WampOption<String, Arg>) -> (r: Option<(WampString, Arg)>) {
        accept_any(option)
    }

    fn create(options: Option<WampDict>) -> (r: Self) {
        match options {
            Some(d) => Self(Some(canonical_dict(&d))),
            None => Self(None),
        }
    }

    fn get_dict(&self) -> (r: Option<WampDict>) {
        proof {
            use_type_invariant(self);
        }
        match &self.0 {
            Some(d) => Some(copy_dict(d)),
            None => None,
        }
    }
}

impl Default for RegistrationOptionItem {
    /// A builder without a dictionary.
    fn default() -> (r: Self)
        ensures
            r.options() is None,
    {
        Self::empty()
    }
}

} // verus!
