//! Render configuration: which facts to show, colors, icons and spacing.
//!
//! A `Config` is produced outside this crate (defaults merged with a
//! configuration file and command-line overrides) and is immutable for
//! the duration of one render.  Everything in here is plain data; the
//! mapping from [`ColorConfig`] to an actual terminal color lives with
//! the terminal backend, outside the verified library.

use vstd::prelude::*;

verus! {

/// One kind of fact the banner can show.
#[derive(Clone, Copy, PartialEq, Eq, Structural, Debug)]
#[non_exhaustive]
pub enum FetchType {
    Os,
    Version,
    Uptime,
    Packages,
    Wm,
    Shell,
    Terminal,
}

/// A configured color.  The `Dark` variants are the terminal's base
/// palette; the plain named colors are their bright ("intense")
/// counterparts, and `Normal` leaves the terminal's default foreground.
#[derive(Clone, Copy, PartialEq, Eq, Structural, Debug)]
pub enum ColorConfig {
    Normal,
    Black,
    DarkGrey,
    Red,
    DarkRed,
    Green,
    DarkGreen,
    Yellow,
    DarkYellow,
    Blue,
    DarkBlue,
    Magenta,
    DarkMagenta,
    Cyan,
    DarkCyan,
    White,
    Grey,
}

/// Which configured colors ask for the bright ("intense") palette.
pub open spec fn spec_is_intense(c: ColorConfig) -> bool {
    match c {
        ColorConfig::DarkGrey => true,
        ColorConfig::Red => true,
        ColorConfig::Green => true,
        ColorConfig::Yellow => true,
        ColorConfig::Blue => true,
        ColorConfig::Magenta => true,
        ColorConfig::Cyan => true,
        ColorConfig::White => true,
        _ => false,
    }
}

impl ColorConfig {
    /// Whether the terminal should render this color from the bright
    /// palette.
    pub fn is_intense(&self) -> (r: bool)
        ensures
            r == spec_is_intense(*self),
    {
        match self {
            ColorConfig::DarkGrey => true,
            ColorConfig::Red => true,
            ColorConfig::Green => true,
            ColorConfig::Yellow => true,
            ColorConfig::Blue => true,
            ColorConfig::Magenta => true,
            ColorConfig::Cyan => true,
            ColorConfig::White => true,
            _ => false,
        }
    }
}

/// Settings for the optional ASCII art block.
pub struct AsciiConfig {
    /// Whether an art block is loaded and rendered at all.
    pub print: bool,
    /// Where the art file lives; `None` means the default location.
    pub ascii_path: Option<String>,
    /// The style applied to the art text.
    pub color: ColorConfig,
    /// Spacing between the art column and the data column.
    pub align_spaces: usize,
}

/// Settings for the package-count fact.
pub struct PackagesConfig {
    /// Whether the names of the detected package managers are listed
    /// after the count.
    pub print_package_manager_names: bool,
}

/// Settings for the window-manager fact.
pub struct WmConfig {
    /// Whether the `wmctrl` utility may be consulted when present.
    pub use_wmctrl: bool,
}

/// The full render configuration.
pub struct Config {
    /// The facts to fetch, in the order they are shown.
    pub data: Vec<FetchType>,
    /// Show a one-glyph icon instead of the textual label.
    pub use_icons: bool,
    /// The style applied to the label/icon column.
    pub label_color: ColorConfig,
    /// Spacing after the longest label (or after the icon).
    pub align_spaces: usize,
    /// Global offset: spaces before each row, blank lines above.
    pub offset: (usize, usize),
    /// Blank lines appended after the banner.
    pub padding_lines: usize,
    /// ASCII art settings.
    pub ascii: AsciiConfig,
    /// Package-count settings.
    pub packages: PackagesConfig,
    /// Window-manager settings.
    pub wm: WmConfig,
}

/// Command-line overrides, already parsed into plain values.
pub struct Args {
    /// Override the default configuration file location.
    pub config_path: Option<String>,
    /// Override the configured x-offset.
    pub x_offset: Option<usize>,
    /// Override the configured y-offset.
    pub y_offset: Option<usize>,
    /// Override the configured number of padding lines.
    pub padding_lines: Option<usize>,
}

impl Default for AsciiConfig {
    /// No art, default foreground, two spaces between the columns.
    fn default() -> (r: AsciiConfig)
        ensures
            r.print == false,
            r.ascii_path is None,
            r.color == ColorConfig::Normal,
            r.align_spaces == 2,
    {
        AsciiConfig { print: false, ascii_path: None, color: ColorConfig::Normal, align_spaces: 2 }
    }
}

impl Default for PackagesConfig {
    fn default() -> (r: PackagesConfig)
        ensures
            r.print_package_manager_names == false,
    {
        PackagesConfig { print_package_manager_names: false }
    }
}

impl Default for WmConfig {
    fn default() -> (r: WmConfig)
        ensures
            r.use_wmctrl == false,
    {
        WmConfig { use_wmctrl: false }
    }
}

impl Default for Config {
    /// The stock configuration: five facts, cyan labels, two alignment
    /// spaces, no offsets, one padding line, and no ASCII art.
    fn default() -> (r: Config)
        ensures
            r.data@ == seq![
                FetchType::Os,
                FetchType::Version,
                FetchType::Uptime,
                FetchType::Packages,
                FetchType::Wm,
            ],
            r.use_icons == false,
            r.label_color == ColorConfig::Cyan,
            r.align_spaces == 2,
            r.offset == (0usize, 0usize),
            r.padding_lines == 1,
            r.ascii.print == false,
            r.ascii.ascii_path is None,
            r.ascii.color == ColorConfig::Normal,
            r.ascii.align_spaces == 2,
            r.packages.print_package_manager_names == false,
            r.wm.use_wmctrl == false,
    {
        let data = vec![
            FetchType::Os,
            FetchType::Version,
            FetchType::Uptime,
            FetchType::Packages,
            FetchType::Wm,
        ];
        proof {
            assert(data@ =~= seq![
                FetchType::Os,
                FetchType::Version,
                FetchType::Uptime,
                FetchType::Packages,
                FetchType::Wm,
            ]);
        }
        Config {
            data,
            use_icons: false,
            label_color: ColorConfig::Cyan,
            align_spaces: 2,
            offset: (0, 0),
            padding_lines: 1,
            ascii: AsciiConfig::default(),
            packages: PackagesConfig::default(),
            wm: WmConfig::default(),
        }
    }
}

impl Config {
    /// Apply command-line overrides: the offsets and the padding line
    /// count may each be replaced; every other setting is kept.
    pub fn with_overrides(self, args: &Args) -> (r: Config)
        ensures
            r.offset.0 == (match args.x_offset {
                Some(x) => x,
                None => self.offset.0,
            }),
            r.offset.1 == (match args.y_offset {
                Some(y) => y,
                None => self.offset.1,
            }),
            r.padding_lines == (match args.padding_lines {
                Some(p) => p,
                None => self.padding_lines,
            }),
            r.data == self.data,
            r.use_icons == self.use_icons,
            r.label_color == self.label_color,
            r.align_spaces == self.align_spaces,
            r.ascii == self.ascii,
            r.packages == self.packages,
            r.wm == self.wm,
    {
        Config {
            offset: (
                match args.x_offset {
                    Some(x) => x,
                    None => self.offset.0,
                },
                match args.y_offset {
                    Some(y) => y,
                    None => self.offset.1,
                },
            ),
            padding_lines: match args.padding_lines {
                Some(p) => p,
                None => self.padding_lines,
            },
            ..self
        }
    }
}

} // verus!
