//! Session configuration: hard defaults, file-provided values, command-line
//! overrides, and their merge with command-line precedence.
//!
//! The gain multiplier is held in hundredths (`volume_centis`), so that a
//! positive real value such as 1.5 is the exact integer 150.

use vstd::prelude::*;
use vstd::string::{StringExecFns, StrSliceExecFns};

verus! {

/// The default capture device identifier.
pub open spec fn default_device() -> Seq<char> {
    "front:CARD=BRIO"@
}

/// The default maximum recording duration, in whole seconds.
pub const DEFAULT_DURATION: u64 = 3600;

/// The default gain multiplier, in hundredths (2.0).
pub const DEFAULT_VOLUME_CENTIS: u64 = 200;

/// The configuration a session runs with, fully resolved.
pub struct Config {
    /// Audio input device identifier.
    pub device: String,
    /// Maximum recording duration in whole seconds.
    pub duration: u64,
    /// Gain multiplier in hundredths; 200 stands for 2.0.
    pub volume_centis: u64,
}

impl Config {
    /// The gain multiplier must be a positive value.
    pub open spec fn well_formed(self) -> bool {
        self.volume_centis > 0
    }
}

/// One source of optional configuration values: either the command line or a
/// configuration file. An absent field defers to the next source.
pub struct ConfigOverrides {
    pub device: Option<String>,
    pub duration: Option<u64>,
    pub volume_centis: Option<u64>,
}

impl ConfigOverrides {
    /// A provided gain multiplier must be positive.
    pub open spec fn well_formed(self) -> bool {
        self.volume_centis matches Some(v) ==> v > 0
    }

    /// Overrides that leave every value to the next source.
    pub fn empty() -> (o: ConfigOverrides)
        ensures
            o.device is None,
            o.duration is None,
            o.volume_centis is None,
    {
        ConfigOverrides { device: None, duration: None, volume_centis: None }
    }
}

/// The home-prefix expansion of a configuration path: when the path starts
/// with '~' and a home directory is known, the '~' is replaced by it.
pub open spec fn expanded_path(path: Seq<char>, home: Option<String>) -> Seq<char> {
    match home {
        Some(h) => {
            if path.len() > 0 && path[0] == '~' {
                h@ + path.skip(1)
            } else {
                path
            }
        },
        None => path,
    }
}

/// Expands a leading '~' in a configuration path to the home directory, when
/// one is known; any other path is returned unchanged.
pub fn expand_home(path: &str, home: Option<String>) -> (s: String)
    ensures
        s@ == expanded_path(path@, home),
{
    let n: usize = path.unicode_len();
    if n > 0 && path.get_char(0) == '~' {
        match home {
            Some(h) => {
                let rest = path.substring_char(1, n);
                assert(rest@ =~= path@.skip(1));
                h.concat(rest)
            },
            None => String::from_str(path),
        }
    } else {
        String::from_str(path)
    }
}

/// The first of two optional values, or the default when both are absent.
pub open spec fn resolve<T>(cli: Option<T>, file: Option<T>, default: T) -> T {
    match cli {
        Some(v) => v,
        None => match file {
            Some(v) => v,
            None => default,
        },
    }
}

/// The device the merge of the two sources settles on, as a character sequence.
pub open spec fn merged_device(cli: Option<String>, file: Option<String>) -> Seq<char> {
    match cli {
        Some(v) => v@,
        None => match file {
            Some(v) => v@,
            None => default_device(),
        },
    }
}

/// Merges command-line overrides with file-provided values; the command line
/// takes precedence, the file comes next, and the hard defaults fill the rest.
pub fn merged_config(cli: ConfigOverrides, file: ConfigOverrides) -> (c: Config)
    requires
        cli.well_formed(),
        file.well_formed(),
    ensures
        c.well_formed(),
        c.device@ == merged_device(cli.device, file.device),
        c.duration == resolve(cli.duration, file.duration, DEFAULT_DURATION),
        c.volume_centis == resolve(cli.volume_centis, file.volume_centis, DEFAULT_VOLUME_CENTIS),
{
    let device = match cli.device {
        Some(v) => v,
        None => match file.device {
            Some(v) => v,
            None => String::from_str("front:CARD=BRIO"),
        },
    };
    let duration = match cli.duration {
        Some(v) => v,
        None => match file.duration {
            Some(v) => v,
            None => DEFAULT_DURATION,
        },
    };
    let volume_centis = match cli.volume_centis {
        Some(v) => v,
        None => match file.volume_centis {
            Some(v) => v,
            None => DEFAULT_VOLUME_CENTIS,
        },
    };
    Config { device, duration, volume_centis }
}

} // verus!
