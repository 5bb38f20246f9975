//! The configuration of the service, assembled once at startup.

use crate::reply::{is_random_answer, newest_answer, newest_reply, random_reply, Reply, ReplyView};
use crate::search::{is_search_pattern, search_pattern, ScanError};
use crate::select::Candidate;
use vstd::prelude::*;
use vstd::string::*;

verus! {

/// The name of the setting that holds the images root.
pub const IMAGES_PATH: &'static str = "IMAGES_PATH";

/// The name of the setting that holds the pattern for the newest image.
pub const FAST_GLOB: &'static str = "FAST_GLOB";

/// The name of the setting that holds the pattern for a random image.
pub const FINAL_GLOB: &'static str = "FINAL_GLOB";

/// The name of the setting that holds the address to listen on.
pub const HTTP_ADDRESS: &'static str = "HTTP_ADDRESS";

/// The address to listen on where none is given.
pub const DEFAULT_HTTP_ADDRESS: &'static str = "0.0.0.0:3000";

/// The values found in one place, the command line or the environment. Each
/// may be absent there.
#[derive(Clone, Debug)]
pub struct Settings {
    pub images_path: Option<String>,
    pub fast_glob: Option<String>,
    pub final_glob: Option<String>,
    pub http_address: Option<String>,
}

/// The configuration the service runs with. It does not change after
/// startup.
#[derive(Clone, Debug)]
pub struct Config {
    /// The directory under which the images live and are served.
    pub images_path: String,
    /// The pattern, relative to the root, searched for the newest image.
    pub fast_glob: String,
    /// The pattern, relative to the root, searched for a random image.
    pub final_glob: String,
    /// The address and port to listen on.
    pub http_address: String,
}

/// A setting that the service cannot start without.
#[derive(Clone, Copy, Debug, PartialEq, Eq, Structural)]
pub enum Setting {
    ImagesPath,
    FastGlob,
    FinalGlob,
}

/// Why no configuration could be assembled.
#[derive(Clone, Copy, Debug, PartialEq, Eq, Structural)]
pub enum ConfigError {
    /// The setting was given in neither place.
    Missing(Setting),
    /// The setting was given, but its value is the empty text.
    Empty(Setting),
}

/// The value of a setting: the one from the command line where there is
/// one, else the one from the environment.
pub open spec fn effective(flag: Option<String>, env: Option<String>) -> Option<Seq<char>> {
    match flag {
        Some(text) => Some(text@),
        None => match env {
            Some(text) => Some(text@),
            None => None,
        },
    }
}

/// What is wrong with `value` as the value of the required `setting`, if
/// anything.
pub open spec fn problem_with(value: Option<Seq<char>>, setting: Setting) -> Option<ConfigError> {
    match value {
        None => Some(ConfigError::Missing(setting)),
        Some(text) => if text.len() == 0 {
            Some(ConfigError::Empty(setting))
        } else {
            None
        },
    }
}

/// The problem with the first required setting that has one, in the order
/// images root, pattern for the newest image, pattern for a random image.
pub open spec fn first_problem(flags: Settings, env: Settings) -> Option<ConfigError> {
    let root = problem_with(effective(flags.images_path, env.images_path), Setting::ImagesPath);
    let fast = problem_with(effective(flags.fast_glob, env.fast_glob), Setting::FastGlob);
    let last = problem_with(effective(flags.final_glob, env.final_glob), Setting::FinalGlob);
    if root is Some {
        root
    } else if fast is Some {
        fast
    } else {
        last
    }
}

/// Whether `config` holds the effective value of every setting, with
/// `DEFAULT_HTTP_ADDRESS` where no address is given.
pub open spec fn is_loaded_from(config: Config, flags: Settings, env: Settings) -> bool {
    &&& Some(config.images_path@) == effective(flags.images_path, env.images_path)
    &&& Some(config.fast_glob@) == effective(flags.fast_glob, env.fast_glob)
    &&& Some(config.final_glob@) == effective(flags.final_glob, env.final_glob)
    &&& config.http_address@ == match effective(flags.http_address, env.http_address) {
        Some(text) => text,
        None => DEFAULT_HTTP_ADDRESS@,
    }
}

/// The value of one setting: `flag` where it is given, else `env`.
fn pick_setting(flag: &Option<String>, env: &Option<String>) -> (value: Option<String>)
    ensures
        match value {
            Some(text) => effective(*flag, *env) == Some(text@),
            None => effective(*flag, *env) is None,
        },
{
    match flag {
        Some(text) => Some(text.clone()),
        None => match env {
            Some(text) => Some(text.clone()),
            None => None,
        },
    }
}

/// The value of the required `setting`, or what is wrong with it.
fn require_setting(flag: &Option<String>, env: &Option<String>, setting: Setting) -> (value:
    Result<String, ConfigError>)
    ensures
        match value {
            Ok(text) => effective(*flag, *env) == Some(text@) && problem_with(
                effective(*flag, *env),
                setting,
            ) is None,
            Err(problem) => problem_with(effective(*flag, *env), setting) == Some(problem),
        },
{
    match pick_setting(flag, env) {
        Some(text) => {
            if text.as_str().is_empty() {
                Err(ConfigError::Empty(setting))
            } else {
                Ok(text)
            }
        },
        None => Err(ConfigError::Missing(setting)),
    }
}

impl Setting {
    /// The name under which the setting is given.
    pub open spec fn name_text(self) -> Seq<char> {
        match self {
            Setting::ImagesPath => IMAGES_PATH@,
            Setting::FastGlob => FAST_GLOB@,
            Setting::FinalGlob => FINAL_GLOB@,
        }
    }

    /// The name under which the setting is given.
    pub fn name(&self) -> (name: &'static str)
        ensures
            name@ == self.name_text(),
    {
        match self {
            Setting::ImagesPath => IMAGES_PATH,
            Setting::FastGlob => FAST_GLOB,
            Setting::FinalGlob => FINAL_GLOB,
        }
    }
}

impl ConfigError {
    /// The setting that the error is about.
    pub open spec fn about(self) -> Setting {
        match self {
            ConfigError::Missing(setting) => setting,
            ConfigError::Empty(setting) => setting,
        }
    }

    /// The setting that the error is about.
    pub fn setting(&self) -> (setting: Setting)
        ensures
            setting == self.about(),
    {
        match self {
            ConfigError::Missing(setting) => *setting,
            ConfigError::Empty(setting) => *setting,
        }
    }
}

impl Config {
    /// Assembles the configuration from the command line and the
    /// environment. A value on the command line overrides the one in the
    /// environment. The images root and the two patterns are required and
    /// may not be empty; the address falls back to `DEFAULT_HTTP_ADDRESS`.
    pub fn load(flags: &Settings, env: &Settings) -> (loaded: Result<Config, ConfigError>)
        ensures
            match loaded {
                Ok(config) => first_problem(*flags, *env) is None && is_loaded_from(
                    config,
                    *flags,
                    *env,
                ),
                Err(problem) => first_problem(*flags, *env) == Some(problem),
            },
    {
        let images_path = match require_setting(
            &flags.images_path,
            &env.images_path,
            Setting::ImagesPath,
        ) {
            Ok(text) => text,
            Err(problem) => return Err(problem),
        };
        let fast_glob = match require_setting(&flags.fast_glob, &env.fast_glob, Setting::FastGlob) {
            Ok(text) => text,
            Err(problem) => return Err(problem),
        };
        let final_glob = match require_setting(
            &flags.final_glob,
            &env.final_glob,
            Setting::FinalGlob,
        ) {
            Ok(text) => text,
            Err(problem) => return Err(problem),
        };
        let http_address = match pick_setting(&flags.http_address, &env.http_address) {
            Some(text) => text,
            None => String::from_str(DEFAULT_HTTP_ADDRESS),
        };
        Ok(Config { images_path, fast_glob, final_glob, http_address })
    }

    /// The pattern to search for the newest image.
    pub fn fast_pattern(&self) -> (pattern: Result<String, ScanError>)
        ensures
            is_search_pattern(self.images_path@, self.fast_glob@, pattern),
    {
        search_pattern(self.images_path.as_str(), self.fast_glob.as_str())
    }

    /// The pattern to search for a random image.
    pub fn final_pattern(&self) -> (pattern: Result<String, ScanError>)
        ensures
            is_search_pattern(self.images_path@, self.final_glob@, pattern),
    {
        search_pattern(self.images_path.as_str(), self.final_glob.as_str())
    }

    /// Answers a request for a random image from the outcome of the search
    /// with `final_pattern`.
    pub fn random_reply(&self, scan: &Result<Vec<String>, ScanError>) -> (reply: Reply)
        ensures
            scan is Err ==> reply@ == ReplyView::Failure,
            scan matches Ok(files) ==> is_random_answer(self.images_path@, files@, reply@),
    {
        random_reply(self.images_path.as_str(), scan)
    }

    /// Answers a request for the newest image from the outcome of the search
    /// with `fast_pattern`.
    pub fn newest_reply(&self, scan: &Result<Vec<Candidate>, ScanError>) -> (reply: Reply)
        ensures
            scan is Err ==> reply@ == ReplyView::Failure,
            scan matches Ok(files) ==> reply@ == newest_answer(self.images_path@, files@),
    {
        newest_reply(self.images_path.as_str(), scan)
    }
}

} // verus!
