//! Configuration model and startup normalization.
//!
//! The loader that reads the configuration from disk lives outside the
//! library; it hands over plain values.  Fractional settings arrive in
//! fixed-point form: the landscape coefficient in thousandths, and the
//! megapixel bounds as pixel counts (megapixels times one million), so
//! that every comparison the library makes is exact.

use crate::text::str_eq;
use vstd::prelude::*;

verus! {

/// Remote-source settings: candidate URLs and TLS verification.
#[derive(Debug)]
pub struct OnlineCnf {
    pub urls: Vec<String>,
    pub tls: bool,
}

/// Local-source settings: directory roots, the acceptance filter's
/// thresholds, and the blacklists.
#[derive(Debug)]
pub struct LocalCnf {
    pub directories: Vec<String>,
    /// When set, portrait images are acceptable and the landscape test is
    /// skipped.
    pub use_portrait: bool,
    /// Landscape threshold multiplier, in thousandths: an image is
    /// landscape iff `height * coefficient <= width * 1000`.
    pub landscape_coef_milli: u32,
    pub set_quality_control: bool,
    /// Lower bound of the accepted pixel count (megapixels times 1_000_000).
    pub min_pixels: u64,
    /// Upper bound of the accepted pixel count (megapixels times 1_000_000).
    pub max_pixels: u64,
    pub enable_file_blacklist: bool,
    pub enable_folder_blacklist: bool,
    pub blacklist_files: Vec<String>,
    pub blacklist_folders: Vec<String>,
}

/// Settings that govern the whole cycle: the inter-cycle wait, which
/// sources are enabled, and the wallpaper display mode.
#[derive(Debug)]
pub struct GlobCnf {
    pub interval: u32,
    pub use_directory: bool,
    pub use_urls: bool,
    pub wallmode: String,
}

/// The full configuration.
#[derive(Debug)]
pub struct Cnf {
    pub online: OnlineCnf,
    pub local: LocalCnf,
    pub global: GlobCnf,
}

/// The configuration file's root: a single `conf` section.
#[derive(Debug)]
pub struct Config {
    pub conf: Cnf,
}

/// Startup failure: every source mode ended up disabled, so no cycle
/// could ever select anything.
#[derive(Debug, PartialEq, Eq, Structural, Clone, Copy)]
pub struct ConfigInvalid;

/// The landscape coefficient is kept only inside the open interval
/// (1.0, 3.0) — here (1000, 3000) in thousandths; any other value is
/// replaced by the default 1.2 (1200).
pub open spec fn spec_clamp_coef(coef_milli: u32) -> u32 {
    if 1000 < coef_milli && coef_milli < 3000 {
        coef_milli
    } else {
        1200
    }
}

/// The inter-cycle wait has a floor of ten seconds.
pub open spec fn spec_floor_interval(interval: u32) -> u32 {
    if interval < 10 {
        10
    } else {
        interval
    }
}

/// Validates and repairs a freshly loaded configuration.
///
/// A source mode flagged on with an empty backing list is switched off; a
/// blacklist flagged on with no entries likewise.  The landscape
/// coefficient is clamped and the interval floored.  When both source
/// modes end up off, the configuration is rejected: the process must not
/// enter the run loop.
pub fn normalize(cnf: Cnf) -> (r: Result<Cnf, ConfigInvalid>)
    ensures
        ({
            let dir_on = cnf.global.use_directory && cnf.local.directories@.len() > 0;
            let url_on = cnf.global.use_urls && cnf.online.urls@.len() > 0;
            match r {
                Ok(c) => {
                    &&& dir_on || url_on
                    &&& c.global.use_directory == dir_on
                    &&& c.global.use_urls == url_on
                    &&& c.global.interval == spec_floor_interval(cnf.global.interval)
                    &&& c.global.wallmode == cnf.global.wallmode
                    &&& c.online == cnf.online
                    &&& c.local.directories == cnf.local.directories
                    &&& c.local.use_portrait == cnf.local.use_portrait
                    &&& c.local.landscape_coef_milli == spec_clamp_coef(
                        cnf.local.landscape_coef_milli,
                    )
                    &&& c.local.set_quality_control == cnf.local.set_quality_control
                    &&& c.local.min_pixels == cnf.local.min_pixels
                    &&& c.local.max_pixels == cnf.local.max_pixels
                    &&& c.local.enable_file_blacklist == (cnf.local.enable_file_blacklist
                        && cnf.local.blacklist_files@.len() > 0)
                    &&& c.local.enable_folder_blacklist == (cnf.local.enable_folder_blacklist
                        && cnf.local.blacklist_folders@.len() > 0)
                    &&& c.local.blacklist_files == cnf.local.blacklist_files
                    &&& c.local.blacklist_folders == cnf.local.blacklist_folders
                },
                Err(_) => !dir_on && !url_on,
            }
        }),
{
    let Cnf { online, mut local, mut global } = cnf;

    if global.use_directory && local.directories.len() < 1 {
        global.use_directory = false;
    }
    if global.use_urls && online.urls.len() < 1 {
        global.use_urls = false;
    }
    if !global.use_directory && !global.use_urls {
        return Err(ConfigInvalid);
    }

    if local.enable_file_blacklist && local.blacklist_files.len() < 1 {
        local.enable_file_blacklist = false;
    }
    if local.enable_folder_blacklist && local.blacklist_folders.len() < 1 {
        local.enable_folder_blacklist = false;
    }

    if !(1000 < local.landscape_coef_milli && local.landscape_coef_milli < 3000) {
        local.landscape_coef_milli = 1200;
    }
    if global.interval < 10 {
        global.interval = 10;
    }

    Ok(Cnf { online, local, global })
}

/// The wallpaper display modes the applying facility understands.
#[derive(Debug, PartialEq, Eq, Structural, Clone, Copy)]
pub enum WallMode {
    Fit,
    Center,
    Crop,
    Span,
    Stretch,
    Tile,
}

/// The display mode a configured name stands for; an unrecognized name
/// falls back to `Center`.
pub open spec fn spec_parse_wallmode(s: Seq<char>) -> WallMode {
    if s == "Fit"@ {
        WallMode::Fit
    } else if s == "Center"@ {
        WallMode::Center
    } else if s == "Crop"@ {
        WallMode::Crop
    } else if s == "Span"@ {
        WallMode::Span
    } else if s == "Stretch"@ {
        WallMode::Stretch
    } else if s == "Tile"@ {
        WallMode::Tile
    } else {
        WallMode::Center
    }
}

/// Parses the configured display-mode name, falling back to `Center` for
/// anything unrecognized.
pub fn parse_wallmode(s: &str) -> (m: WallMode)
    ensures
        m == spec_parse_wallmode(s@),
{
    if str_eq(s, "Fit") {
        WallMode::Fit
    } else if str_eq(s, "Center") {
        WallMode::Center
    } else if str_eq(s, "Crop") {
        WallMode::Crop
    } else if str_eq(s, "Span") {
        WallMode::Span
    } else if str_eq(s, "Stretch") {
        WallMode::Stretch
    } else if str_eq(s, "Tile") {
        WallMode::Tile
    } else {
        WallMode::Center
    }
}

} // verus!
