use tcc_launcher::actions::{set_account_switcher_open, AccountSwitcher, Actions, NotificationBuilder};
use tcc_launcher::dropdown::Dropdown;
use tcc_launcher::error::LauncherError;
use tcc_launcher::launcher::CoreCell;
use tcc_launcher::state::{use_offline_login_status, use_view_state};
use tcc_launcher::theme::{avatar_initials, brand, danger, ghost_overlay_hover, Button, ButtonSize, ButtonVariant, Rgba};

#[test]
fn closing_the_account_switcher() {
    let mut s = AccountSwitcher::new(false);
    set_account_switcher_open(&mut s, true);
    assert!(s.is_open());
    Actions::new().close_account_switcher(&mut s);
    assert!(!s.is_open());
}

#[test]
fn notification_keeps_title_and_body() {
    let n = NotificationBuilder::new("Update", "A new version is out");
    assert_eq!(n.title(), "Update");
    assert_eq!(n.body(), "A new version is out");
}

#[test]
fn core_cell_first_install_wins() {
    let mut c: CoreCell<u32> = CoreCell::new();
    assert!(matches!(c.state(), Err(LauncherError::NotInitialized)));
    assert!(c.install(1));
    assert!(!c.install(2));
    assert_eq!(*c.state().unwrap(), 1);
}

#[test]
fn view_state_defaults() {
    assert_eq!(use_view_state().name, "default");
    assert!(use_offline_login_status().is_none());
}

#[test]
fn theme_colors() {
    assert_eq!(brand(), Rgba { a: 255, r: 88, g: 101, b: 242 });
    assert_eq!(ghost_overlay_hover(), Rgba { a: 20, r: 255, g: 255, b: 255 });
    assert_eq!(danger().with_a(128), Rgba { a: 128, r: 237, g: 66, b: 69 });
}

#[test]
fn button_builder_and_palette() {
    let b = Button::new();
    assert_eq!(b.variant, ButtonVariant::Primary);
    assert_eq!(b.size, ButtonSize::Medium);
    assert!(b.enabled);
    let p = b.palette();
    assert_eq!(p.background, brand());
    let d = Button::new().danger().large().enabled(false).text("Delete");
    assert_eq!(d.size, ButtonSize::Large);
    assert_eq!(d.text.as_deref(), Some("Delete"));
    let p = d.palette();
    assert_eq!(p.background, Rgba { a: 128, r: 237, g: 66, b: 69 });
    assert_eq!(p.foreground, Rgba { a: 128, r: 255, g: 255, b: 255 });
    assert_eq!(p.border, danger());
    assert!(!d.shows_pointer());
    let g = Button::new().ghost().small().palette();
    assert_eq!(g.background, Rgba { a: 0, r: 0, g: 0, b: 0 });
    assert_eq!(Button::new().secondary().palette().border, Rgba { a: 255, r: 80, g: 80, b: 80 });
}

#[test]
fn dropdown_selection_text() {
    let items = vec![("One".to_string(), 1u32), ("Two".to_string(), 2u32), ("Again".to_string(), 2u32)];
    let d = Dropdown::new(items.clone());
    assert_eq!(d.selected_text(), "Select...");
    let d = d.selected(Some(2)).placeholder("Pick one");
    assert_eq!(d.selected_text(), "Two");
    assert!(d.is_selected(1));
    assert!(!d.is_selected(0));
    let e = Dropdown::new(items.clone()).selected(Some(7)).placeholder("Pick one");
    assert_eq!(e.selected_text(), "Pick one");
    assert!(!d.same_as(&e));
    let f = Dropdown::new(items).selected(Some(2)).placeholder("Pick one");
    assert!(d.same_as(&f));
    assert_eq!(d.len(), 3);
}

#[test]
fn avatar_initials_upper_case_the_first_two_bytes() {
    assert_eq!(avatar_initials("ab12cd"), "AB");
    assert_eq!(avatar_initials("9f-0"), "9F");
    assert_eq!(avatar_initials("\u{df}x"), "SS");
}
