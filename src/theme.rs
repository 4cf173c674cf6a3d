//! The colour theme: defaults for every region, and user overrides from the
//! configuration.

use vstd::prelude::*;
use crate::config::{Config, FooterColorsConfig, GeneralColorsConfig, HttpMethodColorsConfig, Rgb, SidebarColorsConfig};

verus! {

/// A terminal colour: a named one, or red, green and blue components.
#[derive(Debug, Clone, Copy, PartialEq, Eq, Structural)]
pub enum Color {
    Black,
    Red,
    Green,
    Yellow,
    Magenta,
    Gray,
    DarkGray,
    LightBlue,
    LightYellow,
    White,
    Rgb(u8, u8, u8),
}

/// The configured colour if there is one, else `d`.
pub open spec fn pick(o: Option<Rgb>, d: Color) -> Color {
    match o {
        Some(c) => Color::Rgb(c.0, c.1, c.2),
        None => d,
    }
}

/// The configured colour if there is one, else `d`.
fn pick_color(o: Option<Rgb>, d: Color) -> (r: Color)
    ensures
        r == pick(o, d),
{
    match o {
        Some(c) => Color::Rgb(c.0, c.1, c.2),
        None => d,
    }
}

/// Colours shared by every region.
#[derive(Debug, Clone, Copy, PartialEq, Eq, Structural)]
pub struct GeneralColors {
    pub bg: Color,
    pub content_bg: Color,
    pub selected_bg: Color,
    pub text: Color,
    pub text_unfocused: Color,
    pub title_focused: Color,
    pub title_unfocused: Color,
}

pub open spec fn default_general_colors() -> GeneralColors {
    GeneralColors {
        bg: Color::Rgb(10, 10, 10),
        content_bg: Color::Rgb(16, 18, 23),
        selected_bg: Color::Rgb(30, 30, 30),
        text: Color::White,
        text_unfocused: Color::Gray,
        title_focused: Color::LightBlue,
        title_unfocused: Color::Gray,
    }
}

impl Default for GeneralColors {
    fn default() -> (r: Self)
        ensures
            r == default_general_colors(),
    {
        GeneralColors {
            bg: Color::Rgb(10, 10, 10),
            content_bg: Color::Rgb(16, 18, 23),
            selected_bg: Color::Rgb(30, 30, 30),
            text: Color::White,
            text_unfocused: Color::Gray,
            title_focused: Color::LightBlue,
            title_unfocused: Color::Gray,
        }
    }
}

/// `colors` with every colour that `config` sets replaced.
pub open spec fn general_colors_applied(config: GeneralColorsConfig, colors: GeneralColors) -> GeneralColors {
    GeneralColors {
        bg: pick(config.bg, colors.bg),
        content_bg: colors.content_bg,
        selected_bg: pick(config.selected_bg, colors.selected_bg),
        text: pick(config.text, colors.text),
        text_unfocused: pick(config.text_unfocused, colors.text_unfocused),
        title_focused: pick(config.title_focused, colors.title_focused),
        title_unfocused: pick(config.title_unfocused, colors.title_unfocused),
    }
}

impl Config {
    pub fn apply_general_colors(config: &GeneralColorsConfig, colors: &mut GeneralColors)
        ensures
            *final(colors) == general_colors_applied(*config, *old(colors)),
    {
        colors.bg = pick_color(config.bg, colors.bg);
        colors.selected_bg = pick_color(config.selected_bg, colors.selected_bg);
        colors.text = pick_color(config.text, colors.text);
        colors.text_unfocused = pick_color(config.text_unfocused, colors.text_unfocused);
        colors.title_focused = pick_color(config.title_focused, colors.title_focused);
        colors.title_unfocused = pick_color(config.title_unfocused, colors.title_unfocused);
    }
}

/// The colour of each HTTP method.
#[derive(Debug, Clone, Copy, PartialEq, Eq, Structural)]
pub struct HttpMethodColors {
    pub get: Color,
    pub post: Color,
    pub put: Color,
    pub delete: Color,
    pub patch: Color,
    pub head: Color,
    pub default: Color,
}

pub open spec fn default_http_method_colors() -> HttpMethodColors {
    HttpMethodColors {
        get: Color::Rgb(97, 175, 254),
        post: Color::Rgb(73, 204, 144),
        put: Color::Rgb(252, 161, 48),
        delete: Color::Rgb(249, 62, 62),
        patch: Color::Rgb(80, 227, 194),
        head: Color::Rgb(144, 97, 249),
        default: Color::Gray,
    }
}

impl Default for HttpMethodColors {
    fn default() -> (r: Self)
        ensures
            r == default_http_method_colors(),
    {
        HttpMethodColors {
            get: Color::Rgb(97, 175, 254),
            post: Color::Rgb(73, 204, 144),
            put: Color::Rgb(252, 161, 48),
            delete: Color::Rgb(249, 62, 62),
            patch: Color::Rgb(80, 227, 194),
            head: Color::Rgb(144, 97, 249),
            default: Color::Gray,
        }
    }
}

/// `colors` with every colour that `config` sets replaced.
pub open spec fn http_method_colors_applied(config: HttpMethodColorsConfig, colors: HttpMethodColors) -> HttpMethodColors {
    HttpMethodColors {
        get: pick(config.get, colors.get),
        post: pick(config.post, colors.post),
        put: pick(config.put, colors.put),
        delete: pick(config.delete, colors.delete),
        patch: pick(config.patch, colors.patch),
        head: pick(config.head, colors.head),
        default: pick(config.default, colors.default),
    }
}

impl Config {
    pub fn apply_http_method_colors(config: &HttpMethodColorsConfig, colors: &mut HttpMethodColors)
        ensures
            *final(colors) == http_method_colors_applied(*config, *old(colors)),
    {
        colors.get = pick_color(config.get, colors.get);
        colors.post = pick_color(config.post, colors.post);
        colors.put = pick_color(config.put, colors.put);
        colors.delete = pick_color(config.delete, colors.delete);
        colors.patch = pick_color(config.patch, colors.patch);
        colors.head = pick_color(config.head, colors.head);
        colors.default = pick_color(config.default, colors.default);
    }
}

/// Colours of the status line.
#[derive(Debug, Clone, Copy, PartialEq, Eq, Structural)]
pub struct FooterColors {
    pub bg: Color,
    pub border: Color,
    pub mode_normal: Color,
    pub mode_command: Color,
    pub mode_tab: Color,
    pub mode_create: Color,
    pub key_bg: Color,
    pub key_fg: Color,
    pub description: Color,
}

pub open spec fn default_footer_colors() -> FooterColors {
    FooterColors {
        bg: Color::Rgb(16, 18, 24),
        border: Color::DarkGray,
        mode_normal: Color::Green,
        mode_command: Color::LightBlue,
        mode_tab: Color::Yellow,
        mode_create: Color::Magenta,
        key_bg: Color::Black,
        key_fg: Color::White,
        description: Color::White,
    }
}

impl Default for FooterColors {
    fn default() -> (r: Self)
        ensures
            r == default_footer_colors(),
    {
        FooterColors {
            bg: Color::Rgb(16, 18, 24),
            border: Color::DarkGray,
            mode_normal: Color::Green,
            mode_command: Color::LightBlue,
            mode_tab: Color::Yellow,
            mode_create: Color::Magenta,
            key_bg: Color::Black,
            key_fg: Color::White,
            description: Color::White,
        }
    }
}

/// `colors` with every colour that `config` sets replaced.
pub open spec fn footer_colors_applied(config: FooterColorsConfig, colors: FooterColors) -> FooterColors {
    FooterColors {
        bg: pick(config.bg, colors.bg),
        border: pick(config.border, colors.border),
        mode_normal: pick(config.mode_normal, colors.mode_normal),
        mode_command: pick(config.mode_command, colors.mode_command),
        mode_tab: pick(config.mode_tab, colors.mode_tab),
        mode_create: pick(config.mode_create, colors.mode_create),
        key_bg: pick(config.key_bg, colors.key_bg),
        key_fg: pick(config.key_fg, colors.key_fg),
        description: pick(config.description, colors.description),
    }
}

impl Config {
    pub fn apply_footer_colors(config: &FooterColorsConfig, colors: &mut FooterColors)
        ensures
            *final(colors) == footer_colors_applied(*config, *old(colors)),
    {
        colors.bg = pick_color(config.bg, colors.bg);
        colors.border = pick_color(config.border, colors.border);
        colors.mode_normal = pick_color(config.mode_normal, colors.mode_normal);
        colors.mode_command = pick_color(config.mode_command, colors.mode_command);
        colors.mode_tab = pick_color(config.mode_tab, colors.mode_tab);
        colors.mode_create = pick_color(config.mode_create, colors.mode_create);
        colors.key_bg = pick_color(config.key_bg, colors.key_bg);
        colors.key_fg = pick_color(config.key_fg, colors.key_fg);
        colors.description = pick_color(config.description, colors.description);
    }
}

/// Colours of the request list.
#[derive(Debug, Clone, Copy, PartialEq, Eq, Structural)]
pub struct SidebarColors {
    pub bg: Color,
    pub selected_bg: Color,
    pub text: Color,
    pub text_unfocused: Color,
    pub title_focused: Color,
    pub title_unfocused: Color,
}

pub open spec fn default_sidebar_colors() -> SidebarColors {
    SidebarColors {
        bg: Color::Rgb(10, 10, 10),
        selected_bg: Color::Rgb(30, 30, 30),
        text: Color::White,
        text_unfocused: Color::Gray,
        title_focused: Color::LightBlue,
        title_unfocused: Color::Gray,
    }
}

impl Default for SidebarColors {
    fn default() -> (r: Self)
        ensures
            r == default_sidebar_colors(),
    {
        SidebarColors {
            bg: Color::Rgb(10, 10, 10),
            selected_bg: Color::Rgb(30, 30, 30),
            text: Color::White,
            text_unfocused: Color::Gray,
            title_focused: Color::LightBlue,
            title_unfocused: Color::Gray,
        }
    }
}

/// `colors` with every colour that `config` sets replaced.
pub open spec fn sidebar_colors_applied(config: SidebarColorsConfig, colors: SidebarColors) -> SidebarColors {
    SidebarColors {
        bg: pick(config.bg, colors.bg),
        selected_bg: pick(config.selected_bg, colors.selected_bg),
        text: pick(config.text, colors.text),
        text_unfocused: pick(config.text_unfocused, colors.text_unfocused),
        title_focused: pick(config.title_focused, colors.title_focused),
        title_unfocused: pick(config.title_unfocused, colors.title_unfocused),
    }
}

impl Config {
    pub fn apply_sidebar_colors(config: &SidebarColorsConfig, colors: &mut SidebarColors)
        ensures
            *final(colors) == sidebar_colors_applied(*config, *old(colors)),
    {
        colors.bg = pick_color(config.bg, colors.bg);
        colors.selected_bg = pick_color(config.selected_bg, colors.selected_bg);
        colors.text = pick_color(config.text, colors.text);
        colors.text_unfocused = pick_color(config.text_unfocused, colors.text_unfocused);
        colors.title_focused = pick_color(config.title_focused, colors.title_focused);
        colors.title_unfocused = pick_color(config.title_unfocused, colors.title_unfocused);
    }
}

/// Colours of every region.
#[derive(Debug, Clone, Copy, PartialEq, Eq, Structural)]
pub struct Theme {
    pub general: GeneralColors,
    pub http_methods: HttpMethodColors,
    pub footer: FooterColors,
    pub sidebar: SidebarColors,
}

pub open spec fn default_theme() -> Theme {
    Theme {
        general: default_general_colors(),
        http_methods: default_http_method_colors(),
        footer: default_footer_colors(),
        sidebar: default_sidebar_colors(),
    }
}

impl Default for Theme {
    fn default() -> (r: Self)
        ensures
            r == default_theme(),
    {
        Theme {
            general: GeneralColors::default(),
            http_methods: HttpMethodColors::default(),
            footer: FooterColors::default(),
            sidebar: SidebarColors::default(),
        }
    }
}

/// The default theme with the overrides of `c` applied, region by region.
pub open spec fn themed(c: Config) -> Theme {
    let d = default_theme();
    match c.theme {
        None => d,
        Some(t) => Theme {
            general: match t.general {
                Some(g) => general_colors_applied(g, d.general),
                None => d.general,
            },
            http_methods: match t.http_methods {
                Some(h) => http_method_colors_applied(h, d.http_methods),
                None => d.http_methods,
            },
            footer: match t.footer {
                Some(f) => footer_colors_applied(f, d.footer),
                None => d.footer,
            },
            sidebar: match t.sidebar {
                Some(s) => sidebar_colors_applied(s, d.sidebar),
                None => d.sidebar,
            },
        },
    }
}

impl Config {
    /// The theme that this configuration describes.
    pub fn create_theme(&self) -> (r: Theme)
        ensures
            r == themed(*self),
    {
        let mut theme = Theme::default();
        match &self.theme {
            Some(t) => {
                match &t.general {
                    Some(g) => Config::apply_general_colors(g, &mut theme.general),
                    None => {},
                }
                match &t.http_methods {
                    Some(h) => Config::apply_http_method_colors(h, &mut theme.http_methods),
                    None => {},
                }
                match &t.footer {
                    Some(f) => Config::apply_footer_colors(f, &mut theme.footer),
                    None => {},
                }
                match &t.sidebar {
                    Some(s) => Config::apply_sidebar_colors(s, &mut theme.sidebar),
                    None => {},
                }
            },
            None => {},
        }
        theme
    }
}

} // verus!
