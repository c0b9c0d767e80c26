use smpd_tui::menus::MenuTabs;

#[test]
fn tab_positions() {
    assert_eq!(usize::from(MenuTabs::Queue), 0);
    assert_eq!(usize::from(MenuTabs::Directories), 1);
    assert_eq!(usize::from(MenuTabs::Artists), 2);
    assert_eq!(usize::from(MenuTabs::Albums), 3);
    assert_eq!(usize::from(MenuTabs::Playlists), 4);
    assert_eq!(usize::from(MenuTabs::Search), 5);
}
