//! Configuration: themes and their colours, display and editor settings,
//! and the theme manager.

use vstd::prelude::*;

use crate::error::{TuiError, TuiResult};
use crate::state::color::{
    spec_color_from_serial, Color, SerialColor, SerialColorView,
};
use crate::text::{
    concat, lex_order, owned, sort_strings, spec_string_views, spec_to_lowercase, str_eq,
    to_lowercase,
};

verus! {

/// The eight colours of the interface chrome.
#[derive(Debug, Clone, PartialEq, Eq)]
pub struct ThemeColors {
    pub background: SerialColor,
    pub text: SerialColor,
    pub primary: SerialColor,
    pub secondary: SerialColor,
    pub accent: SerialColor,
    pub error: SerialColor,
    pub success: SerialColor,
    pub warning: SerialColor,
}

/// The view of [`ThemeColors`]: each colour by its view.
pub ghost struct ThemeColorsView {
    pub background: SerialColorView,
    pub text: SerialColorView,
    pub primary: SerialColorView,
    pub secondary: SerialColorView,
    pub accent: SerialColorView,
    pub error: SerialColorView,
    pub success: SerialColorView,
    pub warning: SerialColorView,
}

impl View for ThemeColors {
    type V = ThemeColorsView;

    open spec fn view(&self) -> ThemeColorsView {
        ThemeColorsView {
            background: self.background@,
            text: self.text@,
            primary: self.primary@,
            secondary: self.secondary@,
            accent: self.accent@,
            error: self.error@,
            success: self.success@,
            warning: self.warning@,
        }
    }
}

/// The colours of the chat transcript.
#[derive(Debug, Clone, PartialEq, Eq)]
pub struct ChatColors {
    pub user_bg: SerialColor,
    pub user_text: SerialColor,
    pub assistant_bg: SerialColor,
    pub assistant_text: SerialColor,
    pub system_bg: SerialColor,
    pub system_text: SerialColor,
    pub tool_bg: SerialColor,
    pub tool_text: SerialColor,
    pub code_bg: SerialColor,
    pub code_text: SerialColor,
    pub border: SerialColor,
    pub timestamp: SerialColor,
}

/// The view of [`ChatColors`]: each colour by its view.
pub ghost struct ChatColorsView {
    pub user_bg: SerialColorView,
    pub user_text: SerialColorView,
    pub assistant_bg: SerialColorView,
    pub assistant_text: SerialColorView,
    pub system_bg: SerialColorView,
    pub system_text: SerialColorView,
    pub tool_bg: SerialColorView,
    pub tool_text: SerialColorView,
    pub code_bg: SerialColorView,
    pub code_text: SerialColorView,
    pub border: SerialColorView,
    pub timestamp: SerialColorView,
}

impl View for ChatColors {
    type V = ChatColorsView;

    open spec fn view(&self) -> ChatColorsView {
        ChatColorsView {
            user_bg: self.user_bg@,
            user_text: self.user_text@,
            assistant_bg: self.assistant_bg@,
            assistant_text: self.assistant_text@,
            system_bg: self.system_bg@,
            system_text: self.system_text@,
            tool_bg: self.tool_bg@,
            tool_text: self.tool_text@,
            code_bg: self.code_bg@,
            code_text: self.code_text@,
            border: self.border@,
            timestamp: self.timestamp@,
        }
    }
}

/// Runtime form of [`ThemeColors`], every colour resolved.
#[derive(Debug, Clone, Copy, PartialEq, Eq)]
pub struct ThemeColorsRgb {
    pub background: Color,
    pub text: Color,
    pub primary: Color,
    pub secondary: Color,
    pub accent: Color,
    pub error: Color,
    pub success: Color,
    pub warning: Color,
}

/// Runtime form of [`ChatColors`], every colour resolved.
#[derive(Debug, Clone, Copy, PartialEq, Eq)]
pub struct ChatColorsRgb {
    pub user_bg: Color,
    pub user_text: Color,
    pub assistant_bg: Color,
    pub assistant_text: Color,
    pub system_bg: Color,
    pub system_text: Color,
    pub tool_bg: Color,
    pub tool_text: Color,
    pub code_bg: Color,
    pub code_text: Color,
    pub border: Color,
    pub timestamp: Color,
}

/// Every chrome colour resolved to the colour it stands for.
pub open spec fn spec_theme_colors_rgb(v: ThemeColorsView) -> ThemeColorsRgb {
    ThemeColorsRgb {
        background: spec_color_from_serial(v.background),
        text: spec_color_from_serial(v.text),
        primary: spec_color_from_serial(v.primary),
        secondary: spec_color_from_serial(v.secondary),
        accent: spec_color_from_serial(v.accent),
        error: spec_color_from_serial(v.error),
        success: spec_color_from_serial(v.success),
        warning: spec_color_from_serial(v.warning),
    }
}

/// Every chat colour resolved to the colour it stands for.
pub open spec fn spec_chat_colors_rgb(v: ChatColorsView) -> ChatColorsRgb {
    ChatColorsRgb {
        user_bg: spec_color_from_serial(v.user_bg),
        user_text: spec_color_from_serial(v.user_text),
        assistant_bg: spec_color_from_serial(v.assistant_bg),
        assistant_text: spec_color_from_serial(v.assistant_text),
        system_bg: spec_color_from_serial(v.system_bg),
        system_text: spec_color_from_serial(v.system_text),
        tool_bg: spec_color_from_serial(v.tool_bg),
        tool_text: spec_color_from_serial(v.tool_text),
        code_bg: spec_color_from_serial(v.code_bg),
        code_text: spec_color_from_serial(v.code_text),
        border: spec_color_from_serial(v.border),
        timestamp: spec_color_from_serial(v.timestamp),
    }
}

/// The default chrome colours.
pub open spec fn spec_default_theme_colors() -> ThemeColorsView {
    ThemeColorsView {
        background: SerialColorView::Default,
        text: SerialColorView::Default,
        primary: SerialColorView::Index(13),
        secondary: SerialColorView::Index(14),
        accent: SerialColorView::Index(11),
        error: SerialColorView::Named("red"@),
        success: SerialColorView::Named("green"@),
        warning: SerialColorView::Named("yellow"@),
    }
}

/// The default chat colours.
pub open spec fn spec_default_chat_colors() -> ChatColorsView {
    ChatColorsView {
        user_bg: SerialColorView::Index(238),
        user_text: SerialColorView::Index(252),
        assistant_bg: SerialColorView::Index(236),
        assistant_text: SerialColorView::Index(248),
        system_bg: SerialColorView::Index(235),
        system_text: SerialColorView::Index(245),
        tool_bg: SerialColorView::Index(237),
        tool_text: SerialColorView::Index(243),
        code_bg: SerialColorView::Index(233),
        code_text: SerialColorView::Index(252),
        border: SerialColorView::Index(240),
        timestamp: SerialColorView::Index(246),
    }
}

fn named(name: &str) -> (r: SerialColor)
    ensures
        r@ == SerialColorView::Named(name@),
{
    SerialColor::Named(owned(name))
}

impl Default for ThemeColors {
    fn default() -> (r: Self)
        ensures
            r@ == spec_default_theme_colors(),
    {
        ThemeColors {
            background: SerialColor::Default,
            text: SerialColor::Default,
            primary: SerialColor::Index(13),
            secondary: SerialColor::Index(14),
            accent: SerialColor::Index(11),
            error: named("red"),
            success: named("green"),
            warning: named("yellow"),
        }
    }
}

impl Default for ChatColors {
    fn default() -> (r: Self)
        ensures
            r@ == spec_default_chat_colors(),
    {
        ChatColors {
            user_bg: SerialColor::Index(238),
            user_text: SerialColor::Index(252),
            assistant_bg: SerialColor::Index(236),
            assistant_text: SerialColor::Index(248),
            system_bg: SerialColor::Index(235),
            system_text: SerialColor::Index(245),
            tool_bg: SerialColor::Index(237),
            tool_text: SerialColor::Index(243),
            code_bg: SerialColor::Index(233),
            code_text: SerialColor::Index(252),
            border: SerialColor::Index(240),
            timestamp: SerialColor::Index(246),
        }
    }
}

impl ThemeColors {
    /// Every colour resolved for use at run time.
    pub fn to_rgb_colors(&self) -> (r: ThemeColorsRgb)
        ensures
            r == spec_theme_colors_rgb(self@),
    {
        ThemeColorsRgb {
            background: Color::from_serial(&self.background),
            text: Color::from_serial(&self.text),
            primary: Color::from_serial(&self.primary),
            secondary: Color::from_serial(&self.secondary),
            accent: Color::from_serial(&self.accent),
            error: Color::from_serial(&self.error),
            success: Color::from_serial(&self.success),
            warning: Color::from_serial(&self.warning),
        }
    }

    /// A copy of these colours.
    pub fn duplicate(&self) -> (r: ThemeColors)
        ensures
            r@ == self@,
    {
        ThemeColors {
            background: self.background.duplicate(),
            text: self.text.duplicate(),
            primary: self.primary.duplicate(),
            secondary: self.secondary.duplicate(),
            accent: self.accent.duplicate(),
            error: self.error.duplicate(),
            success: self.success.duplicate(),
            warning: self.warning.duplicate(),
        }
    }
}

impl ChatColors {
    /// Every colour resolved for use at run time.
    pub fn to_rgb_colors(&self) -> (r: ChatColorsRgb)
        ensures
            r == spec_chat_colors_rgb(self@),
    {
        ChatColorsRgb {
            user_bg: Color::from_serial(&self.user_bg),
            user_text: Color::from_serial(&self.user_text),
            assistant_bg: Color::from_serial(&self.assistant_bg),
            assistant_text: Color::from_serial(&self.assistant_text),
            system_bg: Color::from_serial(&self.system_bg),
            system_text: Color::from_serial(&self.system_text),
            tool_bg: Color::from_serial(&self.tool_bg),
            tool_text: Color::from_serial(&self.tool_text),
            code_bg: Color::from_serial(&self.code_bg),
            code_text: Color::from_serial(&self.code_text),
            border: Color::from_serial(&self.border),
            timestamp: Color::from_serial(&self.timestamp),
        }
    }

    /// A copy of these colours.
    pub fn duplicate(&self) -> (r: ChatColors)
        ensures
            r@ == self@,
    {
        ChatColors {
            user_bg: self.user_bg.duplicate(),
            user_text: self.user_text.duplicate(),
            assistant_bg: self.assistant_bg.duplicate(),
            assistant_text: self.assistant_text.duplicate(),
            system_bg: self.system_bg.duplicate(),
            system_text: self.system_text.duplicate(),
            tool_bg: self.tool_bg.duplicate(),
            tool_text: self.tool_text.duplicate(),
            code_bg: self.code_bg.duplicate(),
            code_text: self.code_text.duplicate(),
            border: self.border.duplicate(),
            timestamp: self.timestamp.duplicate(),
        }
    }
}

/// A named theme: chrome colours and chat colours.
#[derive(Debug, Clone, PartialEq, Eq)]
pub struct ThemeConfig {
    pub name: String,
    pub colors: ThemeColors,
    pub chat: ChatColors,
}

/// The view of a theme.
pub ghost struct ThemeConfigView {
    pub name: Seq<char>,
    pub colors: ThemeColorsView,
    pub chat: ChatColorsView,
}

impl View for ThemeConfig {
    type V = ThemeConfigView;

    open spec fn view(&self) -> ThemeConfigView {
        ThemeConfigView { name: self.name@, colors: self.colors@, chat: self.chat@ }
    }
}

/// Runtime form of a theme, every colour resolved.
#[derive(Debug, Clone, PartialEq, Eq)]
pub struct ThemeConfigRgb {
    pub name: String,
    pub colors: ThemeColorsRgb,
    pub chat: ChatColorsRgb,
}

/// The theme called "default".
pub open spec fn spec_default_theme() -> ThemeConfigView {
    ThemeConfigView {
        name: "default"@,
        colors: spec_default_theme_colors(),
        chat: spec_default_chat_colors(),
    }
}

/// The theme called "dark".
pub open spec fn spec_dark_theme() -> ThemeConfigView {
    ThemeConfigView {
        name: "dark"@,
        colors: ThemeColorsView {
            background: SerialColorView::Named("black"@),
            text: SerialColorView::Named("white"@),
            primary: SerialColorView::Named("cyan"@),
            secondary: SerialColorView::Named("blue"@),
            accent: SerialColorView::Named("yellow"@),
            error: SerialColorView::Named("red"@),
            success: SerialColorView::Named("green"@),
            warning: SerialColorView::Named("yellow"@),
        },
        chat: ChatColorsView {
            user_bg: SerialColorView::Index(59),
            user_text: SerialColorView::Named("white"@),
            assistant_bg: SerialColorView::Index(24),
            assistant_text: SerialColorView::Named("white"@),
            system_bg: SerialColorView::Index(23),
            system_text: SerialColorView::Named("white"@),
            tool_bg: SerialColorView::Index(23),
            tool_text: SerialColorView::Named("white"@),
            code_bg: SerialColorView::Index(16),
            code_text: SerialColorView::Named("white"@),
            border: SerialColorView::Index(59),
            timestamp: SerialColorView::Index(245),
        },
    }
}

/// The theme called "light".
pub open spec fn spec_light_theme() -> ThemeConfigView {
    ThemeConfigView {
        name: "light"@,
        colors: spec_default_theme_colors(),
        chat: ChatColorsView {
            user_bg: SerialColorView::Index(253),
            user_text: SerialColorView::Named("black"@),
            assistant_bg: SerialColorView::Index(252),
            assistant_text: SerialColorView::Named("black"@),
            system_bg: SerialColorView::Index(251),
            system_text: SerialColorView::Named("black"@),
            tool_bg: SerialColorView::Index(251),
            tool_text: SerialColorView::Named("black"@),
            code_bg: SerialColorView::Index(250),
            code_text: SerialColorView::Named("black"@),
            border: SerialColorView::Index(248),
            timestamp: SerialColorView::Index(246),
        },
    }
}

/// The theme called "gruvbox".
pub open spec fn spec_gruvbox_theme() -> ThemeConfigView {
    ThemeConfigView {
        name: "gruvbox"@,
        colors: ThemeColorsView {
            background: SerialColorView::Rgb(40, 40, 40),
            text: SerialColorView::Rgb(235, 219, 178),
            primary: SerialColorView::Rgb(211, 134, 155),
            secondary: SerialColorView::Rgb(131, 165, 152),
            accent: SerialColorView::Rgb(250, 189, 47),
            error: SerialColorView::Rgb(204, 36, 29),
            success: SerialColorView::Rgb(184, 187, 38),
            warning: SerialColorView::Rgb(215, 153, 33),
        },
        chat: ChatColorsView {
            user_bg: SerialColorView::Rgb(60, 56, 54),
            user_text: SerialColorView::Rgb(235, 219, 178),
            assistant_bg: SerialColorView::Rgb(40, 40, 40),
            assistant_text: SerialColorView::Rgb(235, 219, 178),
            system_bg: SerialColorView::Rgb(29, 32, 33),
            system_text: SerialColorView::Rgb(146, 131, 116),
            tool_bg: SerialColorView::Rgb(40, 40, 40),
            tool_text: SerialColorView::Rgb(142, 192, 124),
            code_bg: SerialColorView::Rgb(29, 32, 33),
            code_text: SerialColorView::Rgb(235, 219, 178),
            border: SerialColorView::Rgb(168, 153, 132),
            timestamp: SerialColorView::Rgb(146, 131, 116),
        },
    }
}

impl Default for ThemeConfig {
    fn default() -> (r: Self)
        ensures
            r@ == spec_default_theme(),
    {
        default_theme()
    }
}

impl ThemeConfig {
    /// Every colour resolved for use at run time.
    pub fn to_rgb_colors(&self) -> (r: ThemeConfigRgb)
        ensures
            r.name@ == self.name@,
            r.colors == spec_theme_colors_rgb(self.colors@),
            r.chat == spec_chat_colors_rgb(self.chat@),
    {
        ThemeConfigRgb {
            name: self.name.clone(),
            colors: self.colors.to_rgb_colors(),
            chat: self.chat.to_rgb_colors(),
        }
    }

    /// A copy of this theme.
    pub fn duplicate(&self) -> (r: ThemeConfig)
        ensures
            r@ == self@,
    {
        ThemeConfig {
            name: self.name.clone(),
            colors: self.colors.duplicate(),
            chat: self.chat.duplicate(),
        }
    }
}

fn default_theme() -> (r: ThemeConfig)
    ensures
        r@ == spec_default_theme(),
{
    ThemeConfig { name: owned("default"), colors: ThemeColors::default(), chat: ChatColors::default() }
}

fn dark_theme() -> (r: ThemeConfig)
    ensures
        r@ == spec_dark_theme(),
{
    ThemeConfig {
        name: owned("dark"),
        colors: ThemeColors {
            background: named("black"),
            text: named("white"),
            primary: named("cyan"),
            secondary: named("blue"),
            accent: named("yellow"),
            error: named("red"),
            success: named("green"),
            warning: named("yellow"),
        },
        chat: ChatColors {
            user_bg: SerialColor::Index(59),
            user_text: named("white"),
            assistant_bg: SerialColor::Index(24),
            assistant_text: named("white"),
            system_bg: SerialColor::Index(23),
            system_text: named("white"),
            tool_bg: SerialColor::Index(23),
            tool_text: named("white"),
            code_bg: SerialColor::Index(16),
            code_text: named("white"),
            border: SerialColor::Index(59),
            timestamp: SerialColor::Index(245),
        },
    }
}

fn light_theme() -> (r: ThemeConfig)
    ensures
        r@ == spec_light_theme(),
{
    ThemeConfig {
        name: owned("light"),
        colors: ThemeColors::default(),
        chat: ChatColors {
            user_bg: SerialColor::Index(253),
            user_text: named("black"),
            assistant_bg: SerialColor::Index(252),
            assistant_text: named("black"),
            system_bg: SerialColor::Index(251),
            system_text: named("black"),
            tool_bg: SerialColor::Index(251),
            tool_text: named("black"),
            code_bg: SerialColor::Index(250),
            code_text: named("black"),
            border: SerialColor::Index(248),
            timestamp: SerialColor::Index(246),
        },
    }
}

fn gruvbox_theme() -> (r: ThemeConfig)
    ensures
        r@ == spec_gruvbox_theme(),
{
    ThemeConfig {
        name: owned("gruvbox"),
        colors: ThemeColors {
            background: SerialColor::Rgb { r: 40, g: 40, b: 40 },
            text: SerialColor::Rgb { r: 235, g: 219, b: 178 },
            primary: SerialColor::Rgb { r: 211, g: 134, b: 155 },
            secondary: SerialColor::Rgb { r: 131, g: 165, b: 152 },
            accent: SerialColor::Rgb { r: 250, g: 189, b: 47 },
            error: SerialColor::Rgb { r: 204, g: 36, b: 29 },
            success: SerialColor::Rgb { r: 184, g: 187, b: 38 },
            warning: SerialColor::Rgb { r: 215, g: 153, b: 33 },
        },
        chat: ChatColors {
            user_bg: SerialColor::Rgb { r: 60, g: 56, b: 54 },
            user_text: SerialColor::Rgb { r: 235, g: 219, b: 178 },
            assistant_bg: SerialColor::Rgb { r: 40, g: 40, b: 40 },
            assistant_text: SerialColor::Rgb { r: 235, g: 219, b: 178 },
            system_bg: SerialColor::Rgb { r: 29, g: 32, b: 33 },
            system_text: SerialColor::Rgb { r: 146, g: 131, b: 116 },
            tool_bg: SerialColor::Rgb { r: 40, g: 40, b: 40 },
            tool_text: SerialColor::Rgb { r: 142, g: 192, b: 124 },
            code_bg: SerialColor::Rgb { r: 29, g: 32, b: 33 },
            code_text: SerialColor::Rgb { r: 235, g: 219, b: 178 },
            border: SerialColor::Rgb { r: 168, g: 153, b: 132 },
            timestamp: SerialColor::Rgb { r: 146, g: 131, b: 116 },
        },
    }
}

/// The predefined themes.
#[derive(Debug, Clone, Copy, PartialEq, Eq, Structural)]
pub enum BuiltinTheme {
    Default,
    Dark,
    Light,
    Gruvbox,
}

/// The theme each predefined theme stands for.
pub open spec fn spec_builtin_config(t: BuiltinTheme) -> ThemeConfigView {
    match t {
        BuiltinTheme::Default => spec_default_theme(),
        BuiltinTheme::Dark => spec_dark_theme(),
        BuiltinTheme::Light => spec_light_theme(),
        BuiltinTheme::Gruvbox => spec_gruvbox_theme(),
    }
}

/// The predefined theme a lowercase name denotes, if any.
pub open spec fn spec_builtin_by_name(n: Seq<char>) -> Option<BuiltinTheme> {
    if n == "default"@ {
        Some(BuiltinTheme::Default)
    } else if n == "dark"@ {
        Some(BuiltinTheme::Dark)
    } else if n == "light"@ {
        Some(BuiltinTheme::Light)
    } else if n == "gruvbox"@ {
        Some(BuiltinTheme::Gruvbox)
    } else {
        None
    }
}

/// Every predefined theme, in declaration order.
pub open spec fn spec_all_builtins() -> Seq<BuiltinTheme> {
    seq![BuiltinTheme::Default, BuiltinTheme::Dark, BuiltinTheme::Light, BuiltinTheme::Gruvbox]
}

impl BuiltinTheme {
    /// Every predefined theme, in declaration order.
    pub fn all() -> (r: Vec<BuiltinTheme>)
        ensures
            r@ == spec_all_builtins(),
    {
        let r = vec![BuiltinTheme::Default, BuiltinTheme::Dark, BuiltinTheme::Light, BuiltinTheme::Gruvbox];
        assert(r@ =~= spec_all_builtins());
        r
    }

    /// The predefined theme a name denotes, in any letter case.
    pub fn from_name(name: &str) -> (r: Option<BuiltinTheme>)
        ensures
            r == spec_builtin_by_name(spec_to_lowercase(name@)),
    {
        let lower = to_lowercase(name);
        let n = lower.as_str();
        if str_eq(n, "default") {
            Some(BuiltinTheme::Default)
        } else if str_eq(n, "dark") {
            Some(BuiltinTheme::Dark)
        } else if str_eq(n, "light") {
            Some(BuiltinTheme::Light)
        } else if str_eq(n, "gruvbox") {
            Some(BuiltinTheme::Gruvbox)
        } else {
            None
        }
    }

    /// The theme this predefined theme stands for.
    pub fn to_config(&self) -> (r: ThemeConfig)
        ensures
            r@ == spec_builtin_config(*self),
    {
        match self {
            BuiltinTheme::Default => default_theme(),
            BuiltinTheme::Dark => dark_theme(),
            BuiltinTheme::Light => light_theme(),
            BuiltinTheme::Gruvbox => gruvbox_theme(),
        }
    }
}

/// Whether some theme of `s` has the name `n`.
pub open spec fn spec_has_name(s: Seq<ThemeConfigView>, n: Seq<char>) -> bool {
    exists|i: int| 0 <= i < s.len() && (#[trigger] s[i]).name == n
}

/// No two themes of `s` share a name.
pub open spec fn spec_names_unique(s: Seq<ThemeConfigView>) -> bool {
    forall|i: int, j: int| 0 <= i < s.len() && 0 <= j < s.len() && i != j ==> (#[trigger] s[i]).name != (#[trigger] s[j]).name
}

/// The position of the theme called `n` in `s`, where there is one.
pub open spec fn spec_name_index(s: Seq<ThemeConfigView>, n: Seq<char>) -> int {
    choose|i: int| 0 <= i < s.len() && (#[trigger] s[i]).name == n
}

/// The theme of `s` called `n`, if any.
pub open spec fn spec_lookup_theme(s: Seq<ThemeConfigView>, n: Seq<char>) -> Option<ThemeConfigView> {
    if spec_has_name(s, n) {
        Some(s[spec_name_index(s, n)])
    } else {
        None
    }
}

/// `s` with `t` added: it replaces the theme of the same name, or comes last.
pub open spec fn spec_add_theme(s: Seq<ThemeConfigView>, t: ThemeConfigView) -> Seq<ThemeConfigView> {
    if spec_has_name(s, t.name) {
        s.update(spec_name_index(s, t.name), t)
    } else {
        s.push(t)
    }
}

/// The names of the predefined themes, in declaration order.
pub open spec fn spec_builtin_names() -> Seq<Seq<char>> {
    spec_all_builtins().map_values(|t: BuiltinTheme| spec_builtin_config(t).name)
}

/// The names of the themes of `s`, in order.
pub open spec fn spec_theme_names(s: Seq<ThemeConfigView>) -> Seq<Seq<char>> {
    s.map_values(|t: ThemeConfigView| t.name)
}

/// The error text for a theme that cannot be found.
pub open spec fn spec_theme_not_found(name: Seq<char>) -> Seq<char> {
    "Theme '"@ + name + "' not found"@
}

/// Keeps the current theme and the themes added at run time.
#[derive(Debug, Clone)]
pub struct ThemeManager {
    current_theme: ThemeConfig,
    custom_themes: Vec<ThemeConfig>,
}

impl ThemeManager {
    /// The theme in use.
    pub closed spec fn current(&self) -> ThemeConfigView {
        self.current_theme@
    }

    /// The themes added at run time, in the order they were first added.
    pub closed spec fn customs(&self) -> Seq<ThemeConfigView> {
        self.custom_themes@.map_values(|t: ThemeConfig| t@)
    }

    /// Well-formed: no two added themes share a name.
    pub open spec fn wf(&self) -> bool {
        spec_names_unique(self.customs())
    }

    /// A manager using the default theme, with no added themes.
    pub fn new() -> (r: Self)
        ensures
            r.wf(),
            r.current() == spec_default_theme(),
            r.customs() == Seq::<ThemeConfigView>::empty(),
    {
        let r = ThemeManager { current_theme: ThemeConfig::default(), custom_themes: Vec::new() };
        assert(r.customs() =~= Seq::<ThemeConfigView>::empty());
        r
    }

    /// Switch to a predefined theme.
    pub fn load_builtin(&mut self, theme: BuiltinTheme)
        ensures
            final(self).current() == spec_builtin_config(theme),
            final(self).customs() == old(self).customs(),
    {
        self.current_theme = theme.to_config();
    }

    /// The position of the added theme called `name`, if any.
    fn find_custom(&self, name: &str) -> (r: Option<usize>)
        requires
            self.wf(),
        ensures
            r is Some <==> spec_has_name(self.customs(), name@),
            r matches Some(i) ==> i == spec_name_index(self.customs(), name@) && i < self.customs().len(),
    {
        let mut i: usize = 0;
        while i < self.custom_themes.len()
            invariant
                i <= self.custom_themes@.len(),
                self.wf(),
                forall|k: int| 0 <= k < i ==> (#[trigger] self.customs()[k]).name != name@,
            decreases self.custom_themes@.len() - i,
        {
            if str_eq(self.custom_themes[i].name.as_str(), name) {
                proof {
                    assert(self.customs()[i as int].name == name@);
                    let j = spec_name_index(self.customs(), name@);
                    assert(self.customs()[j].name == name@);
                }
                return Some(i);
            }
            i = i + 1;
        }
        None
    }

    /// Switch to the theme called `name`: a predefined theme (in any letter
    /// case) first, then an added theme of exactly that name.
    pub fn load_theme(&mut self, name: &str) -> (r: TuiResult<()>)
        requires
            old(self).wf(),
        ensures
            final(self).customs() == old(self).customs(),
            match spec_builtin_by_name(spec_to_lowercase(name@)) {
                Some(t) => r is Ok && final(self).current() == spec_builtin_config(t),
                None => match spec_lookup_theme(old(self).customs(), name@) {
                    Some(c) => r is Ok && final(self).current() == c,
                    None => r matches Err(TuiError::Config(m)) && m@ == spec_theme_not_found(name@)
                        && final(self).current() == old(self).current(),
                },
            },
    {
        if let Some(builtin) = BuiltinTheme::from_name(name) {
            self.current_theme = builtin.to_config();
            Ok(())
        } else if let Some(i) = self.find_custom(name) {
            self.current_theme = self.custom_themes[i].duplicate();
            Ok(())
        } else {
            let head = concat("Theme '", name);
            Err(TuiError::config(concat(head.as_str(), "' not found")))
        }
    }

    /// The theme in use.
    pub fn current_theme(&self) -> (r: &ThemeConfig)
        ensures
            r@ == self.current(),
    {
        &self.current_theme
    }

    /// The theme in use, for changing in place.
    pub fn current_theme_mut(&mut self) -> (r: &mut ThemeConfig)
        ensures
            (*r)@ == old(self).current(),
            final(self).current() == (*final(r))@,
            final(self).customs() == old(self).customs(),
    {
        &mut self.current_theme
    }

    /// Add a theme, replacing an added theme of the same name.
    pub fn add_custom_theme(&mut self, theme: ThemeConfig)
        requires
            old(self).wf(),
        ensures
            final(self).wf(),
            final(self).current() == old(self).current(),
            final(self).customs() == spec_add_theme(old(self).customs(), theme@),
    {
        let ghost old_customs = self.customs();
        let ghost t = theme@;
        match self.find_custom(theme.name.as_str()) {
            Some(i) => {
                self.custom_themes.set(i, theme);
                proof {
                    assert(self.customs() =~= old_customs.update(i as int, t));
                }
            },
            None => {
                self.custom_themes.push(theme);
                proof {
                    assert(self.customs() =~= old_customs.push(t));
                }
            },
        }
    }

    /// The names of every predefined and added theme, in lexicographic order.
    pub fn all_theme_names(&self) -> (r: Vec<String>)
        ensures
            spec_string_views(r@) == (spec_builtin_names() + spec_theme_names(self.customs())).sort_by(lex_order()),
    {
        let builtins = BuiltinTheme::all();
        let mut names: Vec<String> = Vec::new();
        let mut i: usize = 0;
        while i < builtins.len()
            invariant
                i <= builtins@.len(),
                builtins@ == spec_all_builtins(),
                spec_string_views(names@) == spec_builtin_names().take(i as int),
            decreases builtins@.len() - i,
        {
            let config = builtins[i].to_config();
            let ghost prev = names@;
            let ghost x = config.name@;
            proof {
                assert(spec_builtin_names()[i as int] == x);
            }
            names.push(config.name);
            proof {
                assert(spec_string_views(names@) =~= spec_string_views(prev).push(x));
                assert(spec_builtin_names().take(i + 1) =~= spec_builtin_names().take(i as int).push(x));
            }
            i = i + 1;
        }
        let mut k: usize = 0;
        while k < self.custom_themes.len()
            invariant
                k <= self.custom_themes@.len(),
                spec_string_views(names@) == spec_builtin_names() + spec_theme_names(self.customs()).take(k as int),
            decreases self.custom_themes@.len() - k,
        {
            let name = self.custom_themes[k].name.clone();
            proof {
                assert(self.customs()[k as int] == self.custom_themes@[k as int]@);
                assert(spec_theme_names(self.customs())[k as int] == name@);
            }
            let ghost prev = names@;
            let ghost x = name@;
            names.push(name);
            proof {
                assert(spec_string_views(names@) =~= spec_string_views(prev).push(x));
                assert(spec_theme_names(self.customs()).take(k + 1) =~= spec_theme_names(self.customs()).take(k as int).push(x));
                assert(spec_string_views(names@) =~= spec_builtin_names() + spec_theme_names(self.customs()).take(k + 1));
            }
            k = k + 1;
        }
        proof {
            assert(spec_theme_names(self.customs()).take(self.customs().len() as int) =~= spec_theme_names(self.customs()));
        }
        sort_strings(&names)
    }
}

impl Default for ThemeManager {
    fn default() -> (r: Self)
        ensures
            r.wf(),
            r.current() == spec_default_theme(),
            r.customs() == Seq::<ThemeConfigView>::empty(),
    {
        ThemeManager::new()
    }
}

/// Law: adding a theme keeps names unique; afterwards the theme is found
/// under its name, and every other name finds what it found before.
pub proof fn lemma_add_then_lookup(s: Seq<ThemeConfigView>, t: ThemeConfigView, n: Seq<char>)
    requires
        spec_names_unique(s),
    ensures
        spec_names_unique(spec_add_theme(s, t)),
        spec_lookup_theme(spec_add_theme(s, t), t.name) == Some(t),
        n != t.name ==> spec_lookup_theme(spec_add_theme(s, t), n) == spec_lookup_theme(s, n),
{
    let s2 = spec_add_theme(s, t);
    if spec_has_name(s, t.name) {
        let i = spec_name_index(s, t.name);
        assert(s2[i].name == t.name);
        let j = spec_name_index(s2, t.name);
        assert(s2[j].name == t.name);
        if j != i {
            assert(s[j].name == t.name);
        }
    } else {
        let last = s.len() as int;
        assert(s2[last].name == t.name);
        let j = spec_name_index(s2, t.name);
        assert(s2[j].name == t.name);
    }
    if n != t.name {
        if spec_has_name(s, n) {
            let k = spec_name_index(s, n);
            assert(s2[k].name == n);
            let k2 = spec_name_index(s2, n);
            assert(s2[k2].name == n);
        }
        if spec_has_name(s2, n) {
            let k2 = spec_name_index(s2, n);
            assert(s[k2].name == n);
        }
    }
}

/// Law: each predefined theme is found again from its own name, given that
/// lowering that (ASCII) name lowers the ASCII capitals, as the trusted
/// lowercase wrapper states of every ASCII text.
pub proof fn lemma_builtin_name_round_trip(t: BuiltinTheme)
    requires
        spec_to_lowercase(spec_builtin_config(t).name) == crate::text::spec_ascii_lowercase(spec_builtin_config(t).name),
    ensures
        spec_builtin_by_name(spec_to_lowercase(spec_builtin_config(t).name)) == Some(t),
{
    reveal_strlit("default");
    reveal_strlit("dark");
    reveal_strlit("light");
    reveal_strlit("gruvbox");
    let n = spec_builtin_config(t).name;
    assert(vstd::utf8::is_ascii_chars(n));
    assert(crate::text::spec_ascii_lowercase(n) =~= n);
    assert("dark"@ != "default"@) by { assert("dark"@.len() != "default"@.len()); }
    assert("light"@ != "default"@) by { assert("light"@[0] != "default"@[0]); }
    assert("light"@ != "dark"@) by { assert("light"@[0] != "dark"@[0]); }
    assert("gruvbox"@ != "default"@) by { assert("gruvbox"@[0] != "default"@[0]); }
    assert("gruvbox"@ != "dark"@) by { assert("gruvbox"@[0] != "dark"@[0]); }
    assert("gruvbox"@ != "light"@) by { assert("gruvbox"@[0] != "light"@[0]); }
}

/// How messages are shown.
#[derive(Debug, Clone, Copy, PartialEq, Eq)]
pub struct DisplayConfig {
    pub show_timestamps: bool,
    pub show_session_name: bool,
    pub syntax_highlighting: bool,
    pub max_message_width: u16,
}

impl Default for DisplayConfig {
    fn default() -> (r: Self)
        ensures
            r.show_timestamps,
            r.show_session_name,
            r.syntax_highlighting,
            r.max_message_width == 0,
    {
        DisplayConfig {
            show_timestamps: true,
            show_session_name: true,
            syntax_highlighting: true,
            max_message_width: 0,
        }
    }
}

/// How the input editor behaves.
#[derive(Debug, Clone, Copy, PartialEq, Eq)]
pub struct EditorConfig {
    pub auto_indent: bool,
    pub tab_width: u8,
    pub history_size: usize,
}

impl Default for EditorConfig {
    fn default() -> (r: Self)
        ensures
            r.auto_indent,
            r.tab_width == 4,
            r.history_size == 100,
    {
        EditorConfig { auto_indent: true, tab_width: 4, history_size: 100 }
    }
}

/// Input mode.
#[derive(Debug, Clone, Copy, PartialEq, Eq, Hash, Structural)]
pub enum InputMode {
    Normal,
    Insert,
    Command,
}

impl Default for InputMode {
    fn default() -> (r: Self)
        ensures
            r == InputMode::Normal,
    {
        InputMode::Normal
    }
}

/// A pane that can receive keyboard focus.
#[derive(Debug, Clone, Copy, PartialEq, Eq, Hash, Structural)]
pub enum FocusPane {
    Chat,
    Composer,
    Toolbar,
    Sidebar,
}

/// The pane after `p` in the cycle Chat, Composer, Toolbar, Sidebar.
pub open spec fn spec_next_pane(p: FocusPane) -> FocusPane {
    match p {
        FocusPane::Chat => FocusPane::Composer,
        FocusPane::Composer => FocusPane::Toolbar,
        FocusPane::Toolbar => FocusPane::Sidebar,
        FocusPane::Sidebar => FocusPane::Chat,
    }
}

/// The pane before `p` in the same cycle.
pub open spec fn spec_prev_pane(p: FocusPane) -> FocusPane {
    match p {
        FocusPane::Chat => FocusPane::Sidebar,
        FocusPane::Composer => FocusPane::Chat,
        FocusPane::Toolbar => FocusPane::Composer,
        FocusPane::Sidebar => FocusPane::Toolbar,
    }
}

/// The input mode that focusing a pane selects: typing in the composer,
/// normal mode everywhere else.
pub open spec fn spec_pane_input_mode(p: FocusPane) -> InputMode {
    match p {
        FocusPane::Composer => InputMode::Insert,
        _ => InputMode::Normal,
    }
}

impl Default for FocusPane {
    fn default() -> (r: Self)
        ensures
            r == FocusPane::Chat,
    {
        FocusPane::Chat
    }
}

impl FocusPane {
    /// The pane after this one in the cycle Chat, Composer, Toolbar, Sidebar.
    pub fn next(self) -> (r: FocusPane)
        ensures
            r == spec_next_pane(self),
    {
        match self {
            FocusPane::Chat => FocusPane::Composer,
            FocusPane::Composer => FocusPane::Toolbar,
            FocusPane::Toolbar => FocusPane::Sidebar,
            FocusPane::Sidebar => FocusPane::Chat,
        }
    }

    /// The pane before this one in the same cycle.
    pub fn prev(self) -> (r: FocusPane)
        ensures
            r == spec_prev_pane(self),
    {
        match self {
            FocusPane::Chat => FocusPane::Sidebar,
            FocusPane::Composer => FocusPane::Chat,
            FocusPane::Toolbar => FocusPane::Composer,
            FocusPane::Sidebar => FocusPane::Toolbar,
        }
    }

    /// The input mode that focusing this pane selects.
    pub fn input_mode(self) -> (r: InputMode)
        ensures
            r == spec_pane_input_mode(self),
    {
        match self {
            FocusPane::Composer => InputMode::Insert,
            _ => InputMode::Normal,
        }
    }
}

/// Law: stepping back undoes stepping forward and the other way round, and
/// four steps forward come back to the start.
pub proof fn lemma_pane_cycle(p: FocusPane)
    ensures
        spec_prev_pane(spec_next_pane(p)) == p,
        spec_next_pane(spec_prev_pane(p)) == p,
        spec_next_pane(spec_next_pane(spec_next_pane(spec_next_pane(p)))) == p,
{
}

/// The whole client configuration.
#[derive(Debug, Clone, PartialEq, Eq)]
pub struct TuiConfig {
    pub theme: ThemeConfig,
    pub display: DisplayConfig,
    pub editor: EditorConfig,
    pub default_mode: InputMode,
}

impl Default for TuiConfig {
    fn default() -> (r: Self)
        ensures
            r.theme@ == spec_default_theme(),
            r.display.show_timestamps && r.display.show_session_name && r.display.syntax_highlighting,
            r.display.max_message_width == 0,
            r.editor.auto_indent && r.editor.tab_width == 4 && r.editor.history_size == 100,
            r.default_mode == InputMode::Normal,
    {
        TuiConfig {
            theme: ThemeConfig::default(),
            display: DisplayConfig::default(),
            editor: EditorConfig::default(),
            default_mode: InputMode::Normal,
        }
    }
}

} // verus!
