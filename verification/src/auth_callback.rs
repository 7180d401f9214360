//! The desktop callback page that the sign-in provider returns to: what the
//! callback URL says about the sign-in attempt.
use vstd::prelude::*;

use crate::text::{
    chars_equal, chars_of, chars_start_with, find_char, first_index_of, split, split_on,
    starts_with, string_from_chars, sub_chars, lemma_chars_deep_view,
};

verus! {

/// What a callback URL reports.
#[derive(Clone, Debug, PartialEq, Eq)]
pub enum AuthCallbackState {
    CodeReceived,
    ProviderError(String),
    MissingCode,
}

/// A callback report with the provider's error as characters.
pub enum AuthCallbackModel {
    CodeReceived,
    ProviderError(Seq<char>),
    MissingCode,
}

impl DeepView for AuthCallbackState {
    type V = AuthCallbackModel;

    open spec fn deep_view(&self) -> AuthCallbackModel {
        match self {
            AuthCallbackState::CodeReceived => AuthCallbackModel::CodeReceived,
            AuthCallbackState::ProviderError(e) => AuthCallbackModel::ProviderError(e@),
            AuthCallbackState::MissingCode => AuthCallbackModel::MissingCode,
        }
    }
}

/// The callback URL followed by `?`, which opens its query.
pub open spec fn callback_query_prefix() -> Seq<char> {
    "ely://auth/callback?"@
}

/// The value of a `key=value` pair when its key is `name`; the key ends at the first `=`.
pub open spec fn pair_value(pair: Seq<char>, name: Seq<char>) -> Option<Seq<char>> {
    match first_index_of(pair, '=') {
        Some(k) => if pair.take(k as int) == name {
            Some(pair.skip(k + 1 as int))
        } else {
            None
        },
        None => None,
    }
}

/// The value of the first pair in `pairs` whose key is `name`.
pub open spec fn find_pair_value(pairs: Seq<Seq<char>>, name: Seq<char>) -> Option<Seq<char>>
    decreases pairs.len(),
{
    if pairs.len() == 0 {
        None
    } else if pair_value(pairs[0], name) is Some {
        pair_value(pairs[0], name)
    } else {
        find_pair_value(pairs.drop_first(), name)
    }
}

/// The value of query parameter `name` in a callback URL: only URLs of the
/// callback route with a query have parameters, pairs are separated by `&`,
/// and the first pair with that key counts.
pub open spec fn query_value_spec(url: Seq<char>, name: Seq<char>) -> Option<Seq<char>> {
    if starts_with(url, callback_query_prefix()) {
        find_pair_value(split(url.skip(callback_query_prefix().len() as int), '&'), name)
    } else {
        None
    }
}

/// What a callback URL reports: a non-empty `error` parameter is the
/// provider's error; otherwise a non-empty `code` means the code arrived.
pub open spec fn auth_callback_spec(url: Seq<char>) -> AuthCallbackModel {
    match query_value_spec(url, "error"@) {
        Some(e) if e.len() > 0 => AuthCallbackModel::ProviderError(e),
        _ => match query_value_spec(url, "code"@) {
            Some(c) if c.len() > 0 => AuthCallbackModel::CodeReceived,
            _ => AuthCallbackModel::MissingCode,
        },
    }
}

/// The value of `name` in one `key=value` pair, if that is its key.
fn pair_value_exec(pair: &Vec<char>, name: &Vec<char>) -> (res: Option<Vec<char>>)
    ensures
        match res {
            Some(v) => pair_value(pair@, name@) == Some(v@),
            None => pair_value(pair@, name@) is None,
        },
{
    match find_char(pair, '=') {
        Some(k) => {
            let key = sub_chars(pair, 0, k);
            if chars_equal(&key, name) {
                Some(sub_chars(pair, k + 1, pair.len()))
            } else {
                None
            }
        },
        None => None,
    }
}

/// The value of query parameter `name` in a callback URL.
pub fn query_value(url: &str, name: &str) -> (res: Option<String>)
    ensures
        match res {
            Some(v) => query_value_spec(url@, name@) == Some(v@),
            None => query_value_spec(url@, name@) is None,
        },
{
    let chars = chars_of(url);
    let prefix = chars_of("ely://auth/callback?");
    if !chars_start_with(&chars, &prefix) {
        return None;
    }
    let query = sub_chars(&chars, prefix.len(), chars.len());
    let pairs = split_on(&query, '&');
    let key = chars_of(name);
    let ghost ps = split(url@.skip(callback_query_prefix().len() as int), '&');
    assert(query@ =~= url@.skip(callback_query_prefix().len() as int));
    let mut i: usize = 0;
    assert(ps.skip(0) =~= ps);
    while i < pairs.len()
        invariant
            pairs.deep_view() == ps,
            key@ == name@,
            i <= pairs.len(),
            query_value_spec(url@, name@) == find_pair_value(ps.skip(i as int), name@),
        decreases pairs.len() - i,
    {
        proof {
            lemma_chars_deep_view(pairs@[i as int]);
            assert(ps.skip(i as int)[0] == pairs@[i as int]@);
            assert(ps.skip(i as int).drop_first() =~= ps.skip(i + 1));
        }
        if let Some(value) = pair_value_exec(&pairs[i], &key) {
            return Some(string_from_chars(&value));
        }
        i = i + 1;
    }
    None
}

/// What a callback URL reports.
pub fn auth_callback_state(url: &str) -> (state: AuthCallbackState)
    ensures
        state.deep_view() == auth_callback_spec(url@),
{
    if let Some(error) = query_value(url, "error") {
        if !error.as_str().is_empty() {
            return AuthCallbackState::ProviderError(error);
        }
    }
    if let Some(code) = query_value(url, "code") {
        if !code.as_str().is_empty() {
            return AuthCallbackState::CodeReceived;
        }
    }
    AuthCallbackState::MissingCode
}

/// The short status badge of a callback report.
pub fn auth_callback_badge(state: &AuthCallbackState) -> (badge: &'static str)
    ensures
        badge@ == match state {
            AuthCallbackState::CodeReceived => "Code received"@,
            AuthCallbackState::ProviderError(_) => "Provider error"@,
            AuthCallbackState::MissingCode => "Callback pending"@,
        },
{
    match state {
        AuthCallbackState::CodeReceived => "Code received",
        AuthCallbackState::ProviderError(_) => "Provider error",
        AuthCallbackState::MissingCode => "Callback pending",
    }
}

/// The result line of a callback report; a provider error shows the error itself.
pub fn auth_callback_result(state: &AuthCallbackState) -> (result: String)
    ensures
        result@ == match state {
            AuthCallbackState::CodeReceived => "Authorization code"@,
            AuthCallbackState::ProviderError(error) => error@,
            AuthCallbackState::MissingCode => "Awaiting code"@,
        },
{
    match state {
        AuthCallbackState::CodeReceived => String::from_str("Authorization code"),
        AuthCallbackState::ProviderError(error) => {
            let chars = chars_of(error.as_str());
            string_from_chars(&chars)
        },
        AuthCallbackState::MissingCode => String::from_str("Awaiting code"),
    }
}

/// The explanation under the result line of a callback report.
pub fn auth_callback_detail(state: &AuthCallbackState) -> (detail: &'static str)
    ensures
        detail@ == match state {
            AuthCallbackState::CodeReceived => "Ready for session exchange"@,
            AuthCallbackState::ProviderError(_) => "Provider returned an OAuth error"@,
            AuthCallbackState::MissingCode => "Callback code missing"@,
        },
{
    match state {
        AuthCallbackState::CodeReceived => "Ready for session exchange",
        AuthCallbackState::ProviderError(_) => "Provider returned an OAuth error",
        AuthCallbackState::MissingCode => "Callback code missing",
    }
}

} // verus!
