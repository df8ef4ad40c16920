use fexc::app::Page;
use fexc::app::page_after_toolbar_click;
use fexc::app::window_name;
use fexc::config::Config;
use fexc::config::DEFAULT_EDITOR_FONT_SIZE;
use fexc::config::Theme;
use fexc::i18n::Language;
use fexc::menubar::MenuBar;

#[test]
fn default_config_values() {
    let config = Config::default();
    assert_eq!(config.theme, Theme::Dark);
    assert_eq!(config.language, Language::English);
    assert!(config.open_files.is_empty());
    assert_eq!(config.current_project, None);
    assert_eq!(config.editor_font_size, DEFAULT_EDITOR_FONT_SIZE);
}

#[test]
fn default_page_is_project() {
    assert_eq!(Page::default(), Page::Project);
}

#[test]
fn toolbar_click_switches_page() {
    assert_eq!(page_after_toolbar_click(Page::Project, true, Page::Search), Page::Search);
    assert_eq!(page_after_toolbar_click(Page::Search, false, Page::Plugins), Page::Search);
    assert_eq!(page_after_toolbar_click(Page::Settings, true, Page::Settings), Page::Settings);
}

#[test]
fn window_name_prefers_the_project_path() {
    let project = Some("/home/user/projects/demo".to_owned());
    assert_eq!(window_name(&project, "No project"), "/home/user/projects/demo");
    assert_eq!(window_name(&None, "No project"), "No project");
}

#[test]
fn menu_bar_constructs() {
    let _bar: MenuBar = MenuBar::new();
}
