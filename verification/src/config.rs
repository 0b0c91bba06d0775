//! Configuration: the settings and their defaults, and where the
//! configuration file is looked for.

use vstd::prelude::*;
use crate::text::{join_path, join_path_spec};
use crate::host;

verus! {

/// Main configuration.
#[derive(Debug, Clone)]
pub struct Config {
    pub panel: PanelConfig,
    pub theme: ThemeConfig,
}

/// Quick settings panel configuration.
#[derive(Debug, Clone)]
pub struct PanelConfig {
    /// Whether panel is enabled
    pub enabled: bool,
    /// Panel width
    pub width: u32,
    /// Enabled modules
    pub modules: Vec<String>,
    /// Volume module settings
    pub volume: VolumeConfig,
    /// Network module settings
    pub network: NetworkConfig,
    /// Bluetooth module settings
    pub bluetooth: BluetoothConfig,
}

/// Volume module settings.
#[derive(Debug, Clone, Copy, PartialEq, Eq, Structural)]
pub struct VolumeConfig {
    pub show_per_app: bool,
    pub show_input: bool,
}

/// Network module settings.
#[derive(Debug, Clone, Copy, PartialEq, Eq, Structural)]
pub struct NetworkConfig {
    pub show_vpn: bool,
    pub show_ethernet: bool,
}

/// Bluetooth module settings.
#[derive(Debug, Clone, Copy, PartialEq, Eq, Structural)]
pub struct BluetoothConfig {
    pub show_battery: bool,
}

/// Theme configuration.
#[derive(Debug, Clone)]
pub struct ThemeConfig {
    /// Theme preset: dark, light, or custom
    pub preset: String,
}

/// System tray settings: where the tray sits and how its icons are laid
/// out.
#[derive(Debug, Clone)]
pub struct TrayConfig {
    /// Background color, `#rrggbb` or `#aarrggbb`
    pub background: String,
    /// Icon size in pixels
    pub icon_size: u32,
    /// Space between icons in pixels
    pub spacing: u32,
    /// Monitor: `primary`, `all` or an output name
    pub monitor: String,
    /// Corner: `top-left`, `top-right`, `bottom-left` or `bottom-right`
    pub position: String,
    /// Horizontal distance from the corner
    pub offset_x: i32,
    /// Vertical distance from the corner
    pub offset_y: i32,
}

impl Default for VolumeConfig {
    fn default() -> (c: Self)
        ensures
            c == (VolumeConfig { show_per_app: false, show_input: false }),
    {
        VolumeConfig { show_per_app: false, show_input: false }
    }
}

impl Default for NetworkConfig {
    fn default() -> (c: Self)
        ensures
            c == (NetworkConfig { show_vpn: false, show_ethernet: false }),
    {
        NetworkConfig { show_vpn: false, show_ethernet: false }
    }
}

impl Default for BluetoothConfig {
    fn default() -> (c: Self)
        ensures
            c == (BluetoothConfig { show_battery: false }),
    {
        BluetoothConfig { show_battery: false }
    }
}

impl Default for ThemeConfig {
    fn default() -> (c: Self)
        ensures
            c.preset@ == "dark"@,
    {
        ThemeConfig { preset: String::from_str("dark") }
    }
}

/// The modules enabled by default, in panel order.
pub open spec fn default_modules() -> Seq<Seq<char>> {
    seq!["volume"@, "brightness"@, "network"@, "bluetooth"@, "battery"@, "power"@]
}

/// The panel settings are the defaults.
pub open spec fn is_default_panel(c: PanelConfig) -> bool {
    &&& c.enabled
    &&& c.width == 360
    &&& c.modules@.map_values(|m: String| m@) == default_modules()
    &&& c.volume == VolumeConfig { show_per_app: false, show_input: false }
    &&& c.network == NetworkConfig { show_vpn: false, show_ethernet: false }
    &&& c.bluetooth == BluetoothConfig { show_battery: false }
}

impl Default for PanelConfig {
    fn default() -> (c: Self)
        ensures
            is_default_panel(c),
    {
        let mut modules: Vec<String> = Vec::new();
        modules.push(String::from_str("volume"));
        modules.push(String::from_str("brightness"));
        modules.push(String::from_str("network"));
        modules.push(String::from_str("bluetooth"));
        modules.push(String::from_str("battery"));
        modules.push(String::from_str("power"));
        let c = PanelConfig {
            enabled: true,
            width: 360,
            modules,
            volume: VolumeConfig::default(),
            network: NetworkConfig::default(),
            bluetooth: BluetoothConfig::default(),
        };
        assert(c.modules@.map_values(|m: String| m@) =~= default_modules());
        c
    }
}

impl Default for Config {
    fn default() -> (c: Self)
        ensures
            is_default_panel(c.panel),
            c.theme.preset@ == "dark"@,
    {
        Config { panel: PanelConfig::default(), theme: ThemeConfig::default() }
    }
}

/// The configuration directory used when none is known.
pub open spec fn config_dir_or_default(config_dir: Option<Seq<char>>) -> Seq<char> {
    match config_dir {
        Some(d) => d,
        None => "~/.config"@,
    }
}

/// The default configuration file: `gartray/config.toml` under the
/// user's configuration directory (or `~/.config` when unknown).
pub open spec fn config_path_spec(config_dir: Option<Seq<char>>) -> Seq<char> {
    join_path_spec(join_path_spec(config_dir_or_default(config_dir), "gartray"@), "config.toml"@)
}

/// The default configuration file for the given configuration directory.
pub fn config_path_in(config_dir: Option<&str>) -> (p: String)
    ensures
        p@ == config_path_spec(
            match config_dir {
                Some(d) => Some(d@),
                None => None,
            },
        ),
{
    let dir = match config_dir {
        Some(d) => String::from_str(d),
        None => String::from_str("~/.config"),
    };
    let app_dir = join_path(dir.as_str(), "gartray");
    join_path(app_dir.as_str(), "config.toml")
}

/// The configuration file to read: the one given, or the default one.
pub fn resolve_config_path(explicit: Option<&str>, config_dir: Option<&str>) -> (p: String)
    ensures
        p@ == match explicit {
            Some(e) => e@,
            None => config_path_spec(
                match config_dir {
                    Some(d) => Some(d@),
                    None => None,
                },
            ),
        },
{
    match explicit {
        Some(e) => String::from_str(e),
        None => config_path_in(config_dir),
    }
}

/// The default configuration file, under the user's configuration
/// directory.
pub fn config_path() -> (p: String)
    ensures
        exists|d: Option<Seq<char>>| p@ == #[trigger] config_path_spec(d),
{
    let dir = host::config_dir();
    let p = match &dir {
        Some(d) => config_path_in(Some(d.as_str())),
        None => config_path_in(None),
    };
    proof {
        let d: Option<Seq<char>> = match dir {
            Some(d) => Some(d@),
            None => None,
        };
        assert(p@ == config_path_spec(d));
    }
    p
}

} // verus!
