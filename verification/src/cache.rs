//! Where the cached events lie.

use vstd::prelude::*;

verus! {

/// The directory of the settings, by its components: the one that is set, unless it is empty, or
/// else the usual one in the home directory.
pub open spec fn config_dir(
    xdg_config_home: Option<Seq<char>>,
    home: Option<Seq<char>>,
) -> Option<Seq<Seq<char>>> {
    match (xdg_config_home, home) {
        (Some(dir), _) if dir.len() > 0 => Some(seq![dir]),
        (_, Some(dir)) => Some(seq![dir, ".config"@]),
        _ => None,
    }
}

/// A file of the cache, by its components.
pub open spec fn cache_file(dir: Seq<Seq<char>>, name: Seq<char>) -> Seq<Seq<char>> {
    dir + seq!["cosmic"@, "com.system76.CosmicAppletTime.Calendar"@, "v1"@, name]
}

/// The files that hold cached events, each by the components of its path. Without a directory for
/// settings there are none.
pub open spec fn cache_paths(
    xdg_config_home: Option<Seq<char>>,
    home: Option<Seq<char>>,
) -> Seq<Seq<Seq<char>>> {
    match config_dir(xdg_config_home, home) {
        Some(dir) => seq![
            cache_file(dir, "event_cache.json"@),
            cache_file(dir, "ctag_cache.json"@),
        ],
        None => Seq::empty(),
    }
}

/// The directory of the settings, by its components.
fn find_config_dir(xdg_config_home: &Option<String>, home: &Option<String>) -> (r: Option<
    Vec<String>,
>)
    ensures
        r.deep_view() == config_dir(xdg_config_home.deep_view(), home.deep_view()),
{
    if let Some(dir) = xdg_config_home {
        if !dir.as_str().is_empty() {
            let r = vec![dir.clone()];
            assert(r.deep_view() =~= seq![dir@]);
            return Some(r);
        }
    }
    match home {
        Some(dir) => {
            let r = vec![dir.clone(), ".config".to_owned()];
            assert(r.deep_view() =~= seq![dir@, ".config"@]);
            Some(r)
        },
        None => None,
    }
}

/// A file of the cache, by its components.
fn file_in(dir: &Vec<String>, name: &str) -> (r: Vec<String>)
    ensures
        r.deep_view() == cache_file(dir.deep_view(), name@),
{
    let mut r = dir.clone();
    assert(r.deep_view() =~= dir.deep_view());
    r.push("cosmic".to_owned());
    r.push("com.system76.CosmicAppletTime.Calendar".to_owned());
    r.push("v1".to_owned());
    r.push(name.to_owned());
    assert(r.deep_view() =~= cache_file(dir.deep_view(), name@));
    r
}

/// The files to delete so that the cache is built anew, each by the components of its path, given
/// the environment variables `XDG_CONFIG_HOME` and `HOME`.
pub fn delete_calendar_cache(xdg_config_home: Option<String>, home: Option<String>) -> (r: Vec<
    Vec<String>,
>)
    ensures
        r.deep_view() == cache_paths(xdg_config_home.deep_view(), home.deep_view()),
{
    let mut r: Vec<Vec<String>> = Vec::new();
    if let Some(dir) = find_config_dir(&xdg_config_home, &home) {
        r.push(file_in(&dir, "event_cache.json"));
        r.push(file_in(&dir, "ctag_cache.json"));
    }
    assert(r.deep_view() =~= cache_paths(xdg_config_home.deep_view(), home.deep_view()));
    r
}

} // verus!
