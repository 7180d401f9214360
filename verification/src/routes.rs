//! Internal `ely://` routes that carry an argument.
use vstd::prelude::*;

use crate::text::{chars_of, chars_start_with, starts_with, owned};

verus! {

/// The prefix of crash recovery routes.
pub open spec fn crash_route_prefix() -> Seq<char> {
    "ely://crash/"@
}

/// The tab identifier of a crash route `ely://crash/<tab id>`: present only
/// when it is not empty and holds no `/`.
pub open spec fn crash_route_tab_id_spec(url: Seq<char>) -> Option<Seq<char>> {
    if starts_with(url, crash_route_prefix()) {
        let tab_id = url.skip(crash_route_prefix().len() as int);
        if tab_id.len() > 0 && !tab_id.contains('/') {
            Some(tab_id)
        } else {
            None
        }
    } else {
        None
    }
}

/// The tab identifier of a crash recovery route.
pub fn crash_route_tab_id(url: &str) -> (tab_id: Option<&str>)
    ensures
        match tab_id {
            Some(id) => crash_route_tab_id_spec(url@) == Some(id@),
            None => crash_route_tab_id_spec(url@) is None,
        },
{
    let chars = chars_of(url);
    let prefix = chars_of("ely://crash/");
    if !chars_start_with(&chars, &prefix) {
        return None;
    }
    let n = prefix.len();
    if n == chars.len() {
        assert(url@.skip(n as int).len() == 0);
        return None;
    }
    let mut i: usize = n;
    while i < chars.len()
        invariant
            chars@ == url@,
            n == crash_route_prefix().len(),
            starts_with(url@, crash_route_prefix()),
            n <= i <= chars.len(),
            forall|k: int| n <= k < i ==> chars@[k] != '/',
        decreases chars.len() - i,
    {
        if chars[i] == '/' {
            assert(url@.skip(n as int)[i - n] == '/');
            assert(url@.skip(n as int).contains('/'));
            return None;
        }
        i = i + 1;
    }
    let tab_id = url.substring_char(n, chars.len());
    assert(tab_id@ =~= url@.skip(n as int));
    assert(!tab_id@.contains('/')) by {
        if tab_id@.contains('/') {
            let k = choose|k: int| 0 <= k < tab_id@.len() && tab_id@[k] == '/';
            assert(chars@[n + k] == '/');
        }
    }
    Some(tab_id)
}

/// The settings route of one site: `ely://site/` and the site's origin.
pub fn site_settings_route(origin: &str) -> (route: String)
    ensures
        route@ == "ely://site/"@ + origin@,
{
    let mut route = String::from_str("ely://site/");
    route.append(origin);
    route
}

} // verus!
