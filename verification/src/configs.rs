//! The settings of the program, and the places where it keeps its files.

use crate::data::text_view;
use vstd::prelude::*;
use vstd::string::*;

verus! {

/// The name under which the program keeps its files.
pub const APP_NAME: &'static str = "travel_time";

/// The directory, below the user's home, that holds configuration.
pub const DEFAULT_CONFIG_PATH: &'static str = ".config";

/// The directory, below the user's home, that holds caches.
pub const DEFAULT_CACHE_PATH: &'static str = ".cache";

/// The path `/home/<user>/<dir>/<app name>/<file>`.
pub open spec fn home_path(user: Seq<char>, dir: Seq<char>, file: Seq<char>) -> Seq<char> {
    "/home/"@ + user + "/"@ + dir + "/"@ + APP_NAME@ + "/"@ + file
}

/// Builds the path of one of the program's files below the home of `user`.
pub fn home_file(user: &str, dir: &str, file: &str) -> (path: String)
    ensures
        path@ == home_path(user@, dir@, file@),
{
    let mut path = String::from_str("/home/");
    path.append(user);
    path.append("/");
    path.append(dir);
    path.append("/");
    path.append(APP_NAME);
    path.append("/");
    path.append(file);
    path
}

/// Where the configuration file of `user` is looked for.
pub fn get_default_config_path(user: &str) -> (path: String)
    ensures
        path@ == home_path(user@, DEFAULT_CONFIG_PATH@, "configs.toml"@),
{
    home_file(user, DEFAULT_CONFIG_PATH, "configs.toml")
}

/// What the configuration file may say.
#[derive(Debug)]
pub struct Configs {
    /// Where the cache is kept, if not in its usual place.
    pub caching: Option<Caching>,
    /// The file that holds the key of the mapping service.
    pub api_key_path: Option<String>,
}

/// The settings of the cache.
#[derive(Debug)]
pub struct Caching {
    path: String,
}

impl Caching {
    /// The settings of a cache kept at `path`.
    pub fn new(path: String) -> (caching: Caching)
        ensures
            caching.path_view() == path@,
    {
        Caching { path }
    }

    /// The characters of the path at which the cache is kept.
    pub closed spec fn path_view(&self) -> Seq<char> {
        self.path@
    }

    /// The path at which the cache is kept.
    pub fn path(&self) -> (path: &String)
        ensures
            path@ == self.path_view(),
    {
        &self.path
    }
}

impl Configs {
    /// The configuration that names these two paths, each of which may be
    /// left out.
    pub fn new(api_key_path: Option<String>, cache_path: Option<String>) -> (configs: Configs)
        ensures
            configs.api_key_path == api_key_path,
            configs.cache_override() == text_view(cache_path),
    {
        let caching = match cache_path {
            Some(path) => Some(Caching::new(path)),
            None => None,
        };
        Configs { caching, api_key_path }
    }

    /// The place that the configuration gives to the cache, if it gives one.
    pub open spec fn cache_override(&self) -> Option<Seq<char>> {
        match self.caching {
            Some(caching) => Some(caching.path_view()),
            None => None,
        }
    }
}

/// The place of the cache: the one that the configuration names, else the
/// usual place below the home of the user; none where neither is known.
pub open spec fn cache_path_of(configured: Option<Seq<char>>, user: Option<Seq<char>>) -> Option<
    Seq<char>,
> {
    match configured {
        Some(path) => Some(path),
        None => match user {
            Some(user) => Some(home_path(user, DEFAULT_CACHE_PATH@, "cache.ron"@)),
            None => None,
        },
    }
}

/// Resolves the path of the cache file from the configuration, where one
/// was loaded, and the name of the user, where the environment gave it.
/// `None` tells that the place of the cache cannot be known.
pub fn resolve_cache_path(configs: Option<&Configs>, user: Option<&str>) -> (path: Option<String>)
    ensures
        text_view(path) == cache_path_of(
            match configs {
                Some(c) => c.cache_override(),
                None => None,
            },
            match user {
                Some(u) => Some(u@),
                None => None,
            },
        ),
{
    if let Some(configs) = configs {
        if let Some(caching) = &configs.caching {
            return Some(caching.path().clone());
        }
    }
    match user {
        Some(user) => Some(home_file(user, DEFAULT_CACHE_PATH, "cache.ron")),
        None => None,
    }
}

} // verus!
