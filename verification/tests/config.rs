use hermes_tui_rust::error::TuiError;
use hermes_tui_rust::state::color::{Color, SerialColor};
use hermes_tui_rust::state::config::{
    BuiltinTheme, ChatColors, FocusPane, InputMode, ThemeColors, ThemeConfig, ThemeManager,
    TuiConfig,
};

#[test]
fn test_theme_colors_default() {
    let colors = ThemeColors::default();
    assert!(colors.background != SerialColor::Named("red".to_string()));
}

#[test]
fn test_theme_colors_to_rgb() {
    let colors = ThemeColors::default();
    let rgb = colors.to_rgb_colors();
    assert_eq!(rgb.background, Color::from_serial(&colors.background));
}

#[test]
fn test_chat_colors_to_rgb() {
    let colors = ChatColors::default();
    let rgb = colors.to_rgb_colors();
    assert_eq!(rgb.user_bg, Color::from_serial(&colors.user_bg));
}

#[test]
fn test_serial_color_conversion() {
    let serial = SerialColor::Named("red".to_string());
    let color = Color::from_serial(&serial);
    let serial2 = SerialColor::from_color(color);
    assert_eq!(serial, serial2);

    let serial = SerialColor::Index(238);
    let color = Color::from_serial(&serial);
    let serial2 = SerialColor::from_color(color);
    assert_eq!(serial, serial2);
}

#[test]
fn test_builtin_theme_all() {
    let themes = BuiltinTheme::all();
    assert!(themes.len() >= 1);
}

#[test]
fn test_theme_manager() {
    let mut manager = ThemeManager::new();
    assert_eq!(manager.current_theme().name, "default");

    manager.load_builtin(BuiltinTheme::Dark);
    assert_eq!(manager.current_theme().name, "dark");
}

#[test]
fn test_tui_config_default() {
    let config = TuiConfig::default();
    assert_eq!(config.theme.name, "default");
    assert!(config.display.show_timestamps);
}

#[test]
fn theme_names_are_found_in_any_case() {
    assert_eq!(BuiltinTheme::from_name("GRUVBOX"), Some(BuiltinTheme::Gruvbox));
    assert_eq!(BuiltinTheme::from_name("Light"), Some(BuiltinTheme::Light));
    assert_eq!(BuiltinTheme::from_name("solarized"), None);
    for t in BuiltinTheme::all() {
        assert_eq!(BuiltinTheme::from_name(&t.to_config().name), Some(t));
    }
}

#[test]
fn gruvbox_theme_colours() {
    let g = BuiltinTheme::Gruvbox.to_config();
    assert_eq!(g.name, "gruvbox");
    assert_eq!(g.colors.background, SerialColor::Rgb { r: 40, g: 40, b: 40 });
    assert_eq!(g.chat.tool_text, SerialColor::Rgb { r: 142, g: 192, b: 124 });
    assert_eq!(g.chat.system_bg, SerialColor::Rgb { r: 29, g: 32, b: 33 });
    assert_eq!(g.chat.code_bg, SerialColor::Rgb { r: 29, g: 32, b: 33 });
    let rgb = g.to_rgb_colors();
    assert_eq!(rgb.colors.accent, Color::Rgb(250, 189, 47));
}

#[test]
fn dark_theme_resolves_named_colours() {
    let d = BuiltinTheme::Dark.to_config();
    let rgb = d.to_rgb_colors();
    assert_eq!(rgb.colors.background, Color::Black);
    assert_eq!(rgb.colors.primary, Color::Cyan);
    assert_eq!(rgb.chat.user_bg, Color::Indexed(59));
}

#[test]
fn unknown_theme_is_a_config_error() {
    let mut manager = ThemeManager::new();
    let err = manager.load_theme("nope").unwrap_err();
    assert_eq!(err, TuiError::Config("Theme 'nope' not found".to_string()));
    assert_eq!(manager.current_theme().name, "default");
}

#[test]
fn custom_theme_is_loaded_and_listed() {
    let mut manager = ThemeManager::new();
    let mut custom = ThemeConfig::default();
    custom.name = "ocean".to_string();
    custom.colors.primary = SerialColor::Index(33);
    manager.add_custom_theme(custom.clone());
    manager.load_theme("ocean").unwrap();
    assert_eq!(manager.current_theme(), &custom);

    let mut again = custom.clone();
    again.colors.primary = SerialColor::Index(34);
    manager.add_custom_theme(again.clone());
    manager.load_theme("ocean").unwrap();
    assert_eq!(manager.current_theme().colors.primary, SerialColor::Index(34));

    assert_eq!(
        manager.all_theme_names(),
        vec!["dark", "default", "gruvbox", "light", "ocean"]
    );
}

#[test]
fn builtin_names_win_over_custom_ones() {
    let mut manager = ThemeManager::new();
    let mut custom = ThemeConfig::default();
    custom.name = "Dark".to_string();
    manager.add_custom_theme(custom);
    manager.load_theme("Dark").unwrap();
    assert_eq!(manager.current_theme().name, "dark");
    assert_eq!(
        manager.all_theme_names(),
        vec!["Dark", "dark", "default", "gruvbox", "light"]
    );
}

#[test]
fn focus_cycle_round_trips() {
    let panes = [FocusPane::Chat, FocusPane::Composer, FocusPane::Toolbar, FocusPane::Sidebar];
    for p in panes {
        assert_eq!(p.next().prev(), p);
        assert_eq!(p.next().next().next().next(), p);
    }
    assert_eq!(FocusPane::Chat.next(), FocusPane::Composer);
    assert_eq!(FocusPane::Chat.prev(), FocusPane::Sidebar);
    assert_eq!(FocusPane::Composer.input_mode(), InputMode::Insert);
    assert_eq!(FocusPane::Sidebar.input_mode(), InputMode::Normal);
}

#[test]
fn color_round_trip_for_every_named_colour() {
    let all = [
        Color::Reset, Color::Black, Color::Red, Color::Green, Color::Yellow, Color::Blue,
        Color::Magenta, Color::Cyan, Color::Gray, Color::DarkGray, Color::LightRed,
        Color::LightGreen, Color::LightYellow, Color::LightBlue, Color::LightMagenta,
        Color::LightCyan, Color::White, Color::Rgb(1, 2, 3), Color::Indexed(7),
    ];
    for c in all {
        assert_eq!(Color::from_serial(&SerialColor::from_color(c)), c);
    }
    assert_eq!(Color::from_serial(&SerialColor::Named("Light_Blue".to_string())), Color::LightBlue);
    assert_eq!(Color::from_serial(&SerialColor::Named("mauve".to_string())), Color::Reset);
}
