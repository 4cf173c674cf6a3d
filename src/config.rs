//! User configuration of the colour theme, and the text of a default
//! configuration file.

use vstd::prelude::*;

verus! {

/// An RGB colour: red, green and blue components.
pub type Rgb = (u8, u8, u8);

/// The configuration file: an optional theme section.
#[derive(Debug, Clone, Copy, PartialEq, Eq)]
pub struct Config {
    pub theme: Option<ThemeConfig>,
}

/// Colour overrides, grouped by screen region.
#[derive(Debug, Clone, Copy, PartialEq, Eq)]
pub struct ThemeConfig {
    pub general: Option<GeneralColorsConfig>,
    pub http_methods: Option<HttpMethodColorsConfig>,
    pub footer: Option<FooterColorsConfig>,
    pub sidebar: Option<SidebarColorsConfig>,
}

#[derive(Debug, Clone, Copy, PartialEq, Eq)]
pub struct GeneralColorsConfig {
    pub bg: Option<Rgb>,
    pub selected_bg: Option<Rgb>,
    pub text: Option<Rgb>,
    pub text_unfocused: Option<Rgb>,
    pub title_focused: Option<Rgb>,
    pub title_unfocused: Option<Rgb>,
}

#[derive(Debug, Clone, Copy, PartialEq, Eq)]
pub struct HttpMethodColorsConfig {
    pub get: Option<Rgb>,
    pub post: Option<Rgb>,
    pub put: Option<Rgb>,
    pub delete: Option<Rgb>,
    pub patch: Option<Rgb>,
    pub head: Option<Rgb>,
    pub default: Option<Rgb>,
}

#[derive(Debug, Clone, Copy, PartialEq, Eq)]
pub struct FooterColorsConfig {
    pub bg: Option<Rgb>,
    pub border: Option<Rgb>,
    pub mode_normal: Option<Rgb>,
    pub mode_command: Option<Rgb>,
    pub mode_tab: Option<Rgb>,
    pub mode_create: Option<Rgb>,
    pub key_bg: Option<Rgb>,
    pub key_fg: Option<Rgb>,
    pub description: Option<Rgb>,
}

#[derive(Debug, Clone, Copy, PartialEq, Eq)]
pub struct SidebarColorsConfig {
    pub bg: Option<Rgb>,
    pub selected_bg: Option<Rgb>,
    pub text: Option<Rgb>,
    pub text_unfocused: Option<Rgb>,
    pub title_focused: Option<Rgb>,
    pub title_unfocused: Option<Rgb>,
}

impl Default for Config {
    /// A configuration that overrides nothing.
    fn default() -> (r: Self)
        ensures
            r.theme is None,
    {
        Config { theme: None }
    }
}

/// The text of a configuration file that sets every colour to its default.
pub fn generate_default_config() -> (r: String)
    ensures
        r@ == DEFAULT_CONFIG@,
{
    DEFAULT_CONFIG.to_owned()
}

pub const DEFAULT_CONFIG: &'static str = "# RURL Configuration File\n\n[theme]\n# All color values are specified as RGB tuples: (red, green, blue)\n# Each component ranges from 0-255\n# All fields are optional - if not specified, defaults will be used\n\n[theme.general]\nbg = [10, 10, 10]                # Background color\nselected_bg = [30, 30, 30]       # Selected item background\ntext = [255, 255, 255]           # Normal text color\ntext_unfocused = [128, 128, 128] # Unfocused text color\ntitle_focused = [0, 255, 255]    # Focused title color\ntitle_unfocused = [128, 128, 128] # Unfocused title color\n\n[theme.http_methods]\nget = [97, 175, 254]    # GET method color\npost = [73, 204, 144]   # POST method color\nput = [252, 161, 48]    # PUT method color\ndelete = [249, 62, 62]  # DELETE method color\npatch = [80, 227, 194]  # PATCH method color\nhead = [144, 97, 249]   # HEAD method color\ndefault = [128, 128, 128] # Default method color\n\n[theme.footer]\nbg = [16, 18, 24]           # Footer background\nborder = [64, 64, 64]       # Footer border\nmode_normal = [0, 255, 0]   # Normal mode indicator\nmode_command = [0, 255, 255] # Command mode indicator\nmode_tab = [255, 255, 0]    # Tab mode indicator\nmode_create = [255, 0, 255] # Create mode indicator\nkey_bg = [0, 0, 0]         # Key background\nkey_fg = [255, 255, 255]   # Key foreground\ndescription = [255, 255, 255] # Command description text\n\n[theme.sidebar]\nbg = [10, 10, 10]                # Sidebar background\nselected_bg = [30, 30, 30]       # Selected item background\ntext = [255, 255, 255]           # Normal text\ntext_unfocused = [128, 128, 128] # Unfocused text\ntitle_focused = [0, 255, 255]    # Focused title\ntitle_unfocused = [128, 128, 128] # Unfocused title";

} // verus!
