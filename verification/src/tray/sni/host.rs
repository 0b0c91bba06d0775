//! The tray's side of the StatusNotifierItem protocol: the services that
//! register items, read into a bus name and an object path.

use vstd::prelude::*;

verus! {

/// The default object path of an item.
pub open spec fn default_item_path() -> Seq<char> {
    "/StatusNotifierItem"@
}

/// Index of the first `:/` in `s` from `i` on.
pub open spec fn find_colon_slash(s: Seq<char>, i: int) -> Option<int>
    decreases s.len() - i,
{
    if i < 0 || i + 1 >= s.len() {
        None
    } else if s[i] == ':' && s[i + 1] == '/' {
        Some(i)
    } else {
        find_colon_slash(s, i + 1)
    }
}

/// Index of the first '/' in `s` from `i` on.
pub open spec fn find_slash(s: Seq<char>, i: int) -> Option<int>
    decreases s.len() - i,
{
    if i < 0 || i >= s.len() {
        None
    } else if s[i] == '/' {
        Some(i)
    } else {
        find_slash(s, i + 1)
    }
}

/// The bus name and object path of a registered service: `name:/path`
/// (a unique name and a path) splits at the first `:/`; otherwise
/// `name/path` splits at the first '/', since a bus name holds none and
/// the object path begins there; a bare bus name gets the default path.
pub open spec fn parse_service_spec(s: Seq<char>) -> (Seq<char>, Seq<char>) {
    match find_colon_slash(s, 0) {
        Some(i) => (s.subrange(0, i), s.subrange(i + 1, s.len() as int)),
        None => match find_slash(s, 0) {
            Some(i) => (s.subrange(0, i), s.subrange(i, s.len() as int)),
            None => (s, default_item_path()),
        },
    }
}

proof fn lemma_find_colon_slash(s: Seq<char>, i: int)
    requires
        0 <= i,
    ensures
        find_colon_slash(s, i) matches Some(j) ==> i <= j && j + 1 < s.len() && s[j] == ':' && s[j + 1] == '/',
    decreases s.len() - i,
{
    if i + 1 < s.len() && !(s[i] == ':' && s[i + 1] == '/') {
        lemma_find_colon_slash(s, i + 1);
    }
}

proof fn lemma_find_slash(s: Seq<char>, i: int)
    requires
        0 <= i,
    ensures
        find_slash(s, i) matches Some(j) ==> i <= j < s.len() && s[j] == '/' && forall|k: int|
            i <= k < j ==> s[k] != '/',
    decreases s.len() - i,
{
    if i < s.len() && s[i] != '/' {
        lemma_find_slash(s, i + 1);
    }
}


/// Splitting a service loses nothing: the bus name and the path, joined
/// again by what split them, give back the service (`:` before the path
/// of a unique name; the path keeps its own '/'); a bare bus name is kept
/// whole. The bus name of a `name/path` service holds no '/'.
pub proof fn law_parse_service_reassembles(s: Seq<char>)
    ensures
        ({
            let (bus, path) = parse_service_spec(s);
            match find_colon_slash(s, 0) {
                Some(_) => bus + seq![':'] + path == s,
                None => match find_slash(s, 0) {
                    Some(_) => bus + path == s,
                    None => bus == s && path == default_item_path(),
                },
            }
        }),
{
    lemma_find_colon_slash(s, 0);
    lemma_find_slash(s, 0);
    match find_colon_slash(s, 0) {
        Some(i) => {
            assert(s.subrange(0, i) + seq![':'] + s.subrange(i + 1, s.len() as int) =~= s);
        },
        None => match find_slash(s, 0) {
            Some(i) => {
                assert(s.subrange(0, i) + s.subrange(i, s.len() as int) =~= s);
            },
            None => {},
        },
    }
}

/// Splits a registered service into its bus name and object path (see
/// `parse_service_spec`).
pub fn parse_service(service: &str) -> (r: (String, String))
    ensures
        (r.0@, r.1@) == parse_service_spec(service@),
{
    proof {
        lemma_find_colon_slash(service@, 0);
        lemma_find_slash(service@, 0);
    }
    let n = service.unicode_len();
    let mut i: usize = 0;
    while i < n && i + 1 < n
        invariant
            n == service@.len(),
            i <= n,
            find_colon_slash(service@, i as int) == find_colon_slash(service@, 0),
        decreases n - i,
    {
        if service.get_char(i) == ':' && service.get_char(i + 1) == '/' {
            let bus = String::from_str(service.substring_char(0, i));
            let path = String::from_str(service.substring_char(i + 1, n));
            return (bus, path);
        }
        i = i + 1;
    }
    let mut j: usize = 0;
    while j < n && service.get_char(j) != '/'
        invariant
            n == service@.len(),
            j <= n,
            find_colon_slash(service@, 0) is None,
            find_slash(service@, j as int) == find_slash(service@, 0),
        decreases n - j,
    {
        j = j + 1;
    }
    if j < n {
        let bus = String::from_str(service.substring_char(0, j));
        let path = String::from_str(service.substring_char(j, n));
        (bus, path)
    } else {
        (String::from_str(service), String::from_str("/StatusNotifierItem"))
    }
}

} // verus!
