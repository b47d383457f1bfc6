use vstd::prelude::*;

use crate::platform::Platform;
use crate::text::{last_component, last_piece, owned, replace, replace_all, trim, trimmed};

verus! {

/// A path in the form the application passes around: the verbatim prefix
/// `\\?\` of Windows removed, then every backslash turned into a slash.
pub open spec fn normalized(path: Seq<char>) -> Seq<char> {
    replace_all(replace_all(path, "\\\\?\\"@, Seq::empty()), "\\"@, "/"@)
}

/// Normalizes a path given as text.
pub fn normalize_path(path: &str) -> (r: String)
    ensures
        r@ == normalized(path@),
{
    proof {
        reveal_strlit("\\\\?\\");
        reveal_strlit("\\");
        reveal_strlit("");
    }
    let a = replace(path, "\\\\?\\", "");
    assert(""@ =~= Seq::<char>::empty());
    replace(a.as_str(), "\\", "/")
}

/// The user name from already trimmed candidates: the first non-empty
/// one, else the home directory's name when it is not empty, else "unknown".
pub open spec fn username_choice(candidates: Seq<Option<Seq<char>>>, home_name: Option<Seq<char>>) -> Seq<char>
    decreases candidates.len(),
{
    if candidates.len() == 0 {
        match home_name {
            Some(n) => if n.len() > 0 {
                n
            } else {
                "unknown"@
            },
            None => "unknown"@,
        }
    } else {
        match candidates[0] {
            Some(c) => if c.len() > 0 {
                c
            } else {
                username_choice(candidates.skip(1), home_name)
            },
            None => username_choice(candidates.skip(1), home_name),
        }
    }
}

pub open spec fn option_views(v: Seq<Option<String>>) -> Seq<Option<Seq<char>>> {
    v.map_values(|o: Option<String>| match o {
        Some(s) => Some(s@),
        None => None,
    })
}

/// Picks the user name from trimmed candidates and the home directory's name.
pub fn username_from(candidates: &Vec<Option<String>>, home_name: &Option<String>) -> (r: String)
    ensures
        r@ == username_choice(
            option_views(candidates@),
            match home_name {
                Some(h) => Some(h@),
                None => None,
            },
        ),
{
    let ghost hv = match home_name {
        Some(h) => Some(h@),
        None => None,
    };
    let ghost all = option_views(candidates@);
    let mut i: usize = 0;
    assert(all.skip(0) =~= all);
    while i < candidates.len()
        invariant
            i <= candidates@.len(),
            all == option_views(candidates@),
            hv == (match home_name {
                Some(h) => Some(h@),
                None => None,
            }),
            username_choice(all.skip(i as int), hv) == username_choice(all, hv),
        decreases candidates@.len() - i,
    {
        let ghost rest = all.skip(i as int);
        assert(rest[0] == all[i as int]);
        assert(rest.skip(1) =~= all.skip(i + 1));
        match &candidates[i] {
            Some(c) => {
                if !c.as_str().is_empty() {
                    assert(rest.len() > 0);
                    assert(rest[0] == Some(c@));
                    assert(c@.len() > 0);
                    assert(username_choice(rest, hv) == c@);
                    return c.clone();
                }
                assert(rest[0] == Some(c@));
            },
            None => {
                assert(rest[0] is None);
            },
        }
        i = i + 1;
    }
    assert(all.skip(i as int).len() == 0);
    proof {
        reveal_strlit("unknown");
    }
    match home_name {
        Some(h) => {
            if !h.as_str().is_empty() {
                return h.clone();
            }
        },
        None => {},
    }
    owned("unknown")
}

/// The user name from the values of the user name environment variables, in
/// order, and the home directory's name: each value is trimmed first.
pub fn default_username(env_values: &Vec<Option<String>>, home_name: &Option<String>) -> (r: String)
    ensures
        r@ == username_choice(
            env_values@.map_values(|o: Option<String>| match o {
                Some(s) => Some(trimmed(s@)),
                None => None,
            }),
            match home_name {
                Some(h) => Some(h@),
                None => None,
            },
        ),
{
    let mut trimmed_values: Vec<Option<String>> = Vec::new();
    let mut i: usize = 0;
    while i < env_values.len()
        invariant
            i <= env_values@.len(),
            trimmed_values@.len() == i,
            forall|j: int| 0 <= j < i ==> option_views(trimmed_values@)[j] == (match #[trigger] env_values@[j] {
                Some(s) => Some(trimmed(s@)),
                None => None,
            }),
        decreases env_values@.len() - i,
    {
        match &env_values[i] {
            Some(v) => trimmed_values.push(Some(trim(v.as_str()))),
            None => trimmed_values.push(None),
        }
        i = i + 1;
    }
    assert(option_views(trimmed_values@) =~= env_values@.map_values(|o: Option<String>| match o {
        Some(s) => Some(trimmed(s@)),
        None => None,
    }));
    username_from(&trimmed_values, home_name)
}

/// The word a platform is named by in a device name.
pub open spec fn platform_word(platform: Platform) -> Seq<char> {
    match platform {
        Platform::Windows => "windows"@,
        Platform::Linux => "linux"@,
        _ => "macos"@,
    }
}

/// A device name made of the home directory's last component, backslashes
/// read as separators, and the platform's word: `user-platform`.
pub fn home_device_name(home: &str, platform: Platform) -> (r: String)
    ensures
        r@ == last_component(replace_all(home@, "\\"@, "/"@), '/') + "-"@ + platform_word(platform),
{
    proof {
        reveal_strlit("\\");
        reveal_strlit("-");
        reveal_strlit("windows");
        reveal_strlit("linux");
        reveal_strlit("macos");
    }
    let slashed = replace(home, "\\", "/");
    let mut r = last_piece(slashed.as_str(), '/');
    r.append("-");
    match platform {
        Platform::Windows => r.append("windows"),
        Platform::Linux => r.append("linux"),
        _ => r.append("macos"),
    }
    r
}

} // verus!
