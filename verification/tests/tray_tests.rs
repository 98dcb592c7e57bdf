use minibin::conf::{Config, DoubleClickAction, TrashSettings};
use minibin::tray::fill_limit_ok;
use minibin::tray::{
    get_index_by_percent, menu_command, size_display, tray_tooltip, Action, App, MenuCommand,
    MouseButton, SizeUnit, TrayIconEvent, UserEvent, CLICK_EMPTY_ID, CLICK_OPEN_ID, EMPTY_ITEM_ID,
    EXIT_ITEM_ID, OPEN_ITEM_ID, RESET_ITEM_ID, SYSTEM_PROGRES_ID, SYSTEM_RECYCLE_ID,
    SYSTEM_SOUND_ID,
};

const ICONS: [&[u8]; 5] = [b"empty", b"quarter", b"half", b"three", b"full"];

fn app() -> App {
    App::new(ICONS, Config::default())
}

fn menu(app: &mut App, id: &str) -> Action {
    app.user_event(UserEvent::MenuEvent(id.to_string()))
}

#[test]
fn index_of_empty_or_unbounded_bin_is_zero() {
    assert_eq!(get_index_by_percent(0, 100, 5), 0);
    assert_eq!(get_index_by_percent(10, 0, 5), 0);
    assert_eq!(get_index_by_percent(0, 0, 0), 0);
}

#[test]
fn index_rounds_the_share_down() {
    assert_eq!(get_index_by_percent(19, 100, 5), 0);
    assert_eq!(get_index_by_percent(20, 100, 5), 1);
    assert_eq!(get_index_by_percent(50, 100, 5), 2);
    assert_eq!(get_index_by_percent(79, 100, 5), 3);
    assert_eq!(get_index_by_percent(99, 100, 5), 4);
}

#[test]
fn index_of_full_bin_is_last_level() {
    assert_eq!(get_index_by_percent(100, 100, 5), 4);
    assert_eq!(get_index_by_percent(250, 100, 5), 4);
    assert_eq!(get_index_by_percent(u64::MAX, 1, 5), 4);
    assert_eq!(get_index_by_percent(u64::MAX, u64::MAX, usize::MAX), usize::MAX - 1);
}

#[test]
fn index_is_monotone_in_size() {
    let mut last = 0;
    for size in 0..=300u64 {
        let index = get_index_by_percent(size, 120, 5);
        assert!(index >= last);
        assert!(index < 5);
        last = index;
    }
}

#[test]
fn size_display_picks_units() {
    assert_eq!(size_display(0), (SizeUnit::Byte, 0));
    assert_eq!(size_display(1000), (SizeUnit::Byte, 1000));
    assert_eq!(size_display(1001), (SizeUnit::KB, 0));
    assert_eq!(size_display(1_000_000), (SizeUnit::KB, 976));
    assert_eq!(size_display(1_000_001), (SizeUnit::MB, 0));
    assert_eq!(size_display(1_000_000_000), (SizeUnit::MB, 953));
    assert_eq!(size_display(1_000_000_001), (SizeUnit::GB, 0));
    assert_eq!(size_display(u64::MAX), (SizeUnit::GB, 17179869183));
}

#[test]
fn unit_labels() {
    assert_eq!(SizeUnit::Byte.label(), "Byte");
    assert_eq!(SizeUnit::KB.label(), "KB");
    assert_eq!(SizeUnit::MB.label(), "MB");
    assert_eq!(SizeUnit::GB.label(), "GB");
}

#[test]
fn tooltip_text() {
    assert_eq!(tray_tooltip(2048, 3), "Minibin 0.1.0\n\n2 KB 3 files");
    assert_eq!(tray_tooltip(0, 0), "Minibin 0.1.0\n\n0 Byte 0 files");
    assert_eq!(
        tray_tooltip(u64::MAX, u64::MAX),
        "Minibin 0.1.0\n\n17179869183 GB 18446744073709551615 files"
    );
    assert_eq!(tray_tooltip(5_000_000_000, 1234), "Minibin 0.1.0\n\n4 GB 1234 files");
}

#[test]
fn menu_ids_read_back() {
    assert_eq!(menu_command(EXIT_ITEM_ID), Some(MenuCommand::Exit));
    assert_eq!(menu_command(EMPTY_ITEM_ID), Some(MenuCommand::Empty));
    assert_eq!(menu_command(OPEN_ITEM_ID), Some(MenuCommand::Open));
    assert_eq!(menu_command(RESET_ITEM_ID), Some(MenuCommand::ResetIcons));
    assert_eq!(menu_command(SYSTEM_RECYCLE_ID), Some(MenuCommand::SystemRecycle));
    assert_eq!(menu_command(SYSTEM_PROGRES_ID), Some(MenuCommand::SystemProgress));
    assert_eq!(menu_command(SYSTEM_SOUND_ID), Some(MenuCommand::SystemSound));
    assert_eq!(menu_command(CLICK_EMPTY_ID), Some(MenuCommand::ClickEmpty));
    assert_eq!(menu_command(CLICK_OPEN_ID), Some(MenuCommand::ClickOpen));
    assert_eq!(menu_command("3"), Some(MenuCommand::Open));
    assert_eq!(menu_command("10"), None);
    assert_eq!(menu_command(""), None);
    assert_eq!(menu_command("exit"), None);
}

#[test]
fn new_app_shows_empty_icon() {
    let a = app();
    assert_eq!(a.current_index, 0);
    assert_eq!(a.default_icons, ICONS);
    assert_eq!(a.conf.update_config_speed, 1);
}

#[test]
fn flags_each_setting_on_its_own_bit() {
    let mut a = app();
    assert_eq!(a.parse_flags_trash(), 0);
    a.conf.trash.recycle_no_confirm = true;
    assert_eq!(a.parse_flags_trash(), 4);
    a.conf.trash.recycle_no_confirm = false;
    a.conf.trash.recycle_no_progress = true;
    assert_eq!(a.parse_flags_trash(), 2);
    a.conf.trash.recycle_no_progress = false;
    a.conf.trash.recycle_no_sound = true;
    assert_eq!(a.parse_flags_trash(), 1);
    a.conf.trash.recycle_no_confirm = true;
    a.conf.trash.recycle_no_progress = true;
    assert_eq!(a.parse_flags_trash(), 7);
}

#[test]
fn menu_checks_follow_settings() {
    let mut a = app();
    let c = a.menu_checks();
    assert!(c.click_open && !c.click_empty);
    assert!(!c.system_recycle && !c.system_progress && !c.system_sound);
    a.conf.trash.double_click_actions = DoubleClickAction::Empty;
    a.conf.trash.recycle_no_progress = true;
    let c = a.menu_checks();
    assert!(!c.click_open && c.click_empty);
    assert!(!c.system_recycle && c.system_progress && !c.system_sound);
}

#[test]
fn menu_open_empty_exit() {
    let mut a = app();
    assert!(matches!(menu(&mut a, OPEN_ITEM_ID), Action::OpenTrash));
    assert!(matches!(menu(&mut a, EMPTY_ITEM_ID), Action::ClearTrash(0)));
    a.conf.trash.recycle_no_sound = true;
    assert!(matches!(menu(&mut a, EMPTY_ITEM_ID), Action::ClearTrash(1)));
    assert!(matches!(menu(&mut a, EXIT_ITEM_ID), Action::SaveConfigAndExit));
    assert!(matches!(menu(&mut a, RESET_ITEM_ID), Action::Nothing));
    assert!(matches!(menu(&mut a, "42"), Action::Nothing));
    assert!(a.conf.trash.recycle_no_sound);
    assert!(!a.conf.trash.recycle_no_confirm);
}

#[test]
fn system_items_toggle_and_toggle_back() {
    let mut a = app();
    assert!(matches!(menu(&mut a, SYSTEM_RECYCLE_ID), Action::Nothing));
    assert!(a.conf.trash.recycle_no_confirm);
    assert!(!a.conf.trash.recycle_no_progress && !a.conf.trash.recycle_no_sound);
    menu(&mut a, SYSTEM_RECYCLE_ID);
    assert!(!a.conf.trash.recycle_no_confirm);

    menu(&mut a, SYSTEM_PROGRES_ID);
    assert!(a.conf.trash.recycle_no_progress);
    menu(&mut a, SYSTEM_PROGRES_ID);
    assert!(!a.conf.trash.recycle_no_progress);

    menu(&mut a, SYSTEM_SOUND_ID);
    assert!(a.conf.trash.recycle_no_sound);
    menu(&mut a, SYSTEM_SOUND_ID);
    assert!(!a.conf.trash.recycle_no_sound);
    assert_eq!(a.conf.trash.max_fill_size_mb, 10240);
}

#[test]
fn double_click_follows_menu_choice() {
    let mut a = app();
    let left = UserEvent::TrayIconEvent(TrayIconEvent::DoubleClick(MouseButton::Left));
    assert!(matches!(a.user_event(left), Action::OpenTrash));

    menu(&mut a, CLICK_EMPTY_ID);
    menu(&mut a, CLICK_EMPTY_ID);
    assert_eq!(a.conf.trash.double_click_actions, DoubleClickAction::Empty);
    menu(&mut a, SYSTEM_RECYCLE_ID);
    let left = UserEvent::TrayIconEvent(TrayIconEvent::DoubleClick(MouseButton::Left));
    assert!(matches!(a.user_event(left), Action::ClearTrash(4)));

    menu(&mut a, CLICK_OPEN_ID);
    assert_eq!(a.conf.trash.double_click_actions, DoubleClickAction::Open);
    let left = UserEvent::TrayIconEvent(TrayIconEvent::DoubleClick(MouseButton::Left));
    assert!(matches!(a.user_event(left), Action::OpenTrash));
}

#[test]
fn other_tray_events_do_nothing() {
    let mut a = app();
    let right = UserEvent::TrayIconEvent(TrayIconEvent::DoubleClick(MouseButton::Right));
    assert!(matches!(a.user_event(right), Action::Nothing));
    let middle = UserEvent::TrayIconEvent(TrayIconEvent::DoubleClick(MouseButton::Middle));
    assert!(matches!(a.user_event(middle), Action::Nothing));
    assert!(matches!(a.user_event(UserEvent::TrayIconEvent(TrayIconEvent::Other)), Action::Nothing));
    assert!(matches!(a.user_event(UserEvent::UpdateConfig), Action::ReadConfig));
}

#[test]
fn update_tray_sets_tooltip_and_icon() {
    let mut a = app();
    a.conf.trash.max_fill_size_mb = 1;
    match a.user_event(UserEvent::UpdateTray(0, 0)) {
        Action::UpdateTray(u) => {
            assert_eq!(u.tooltip, "Minibin 0.1.0\n\n0 Byte 0 files");
            assert_eq!(u.icon, None);
        }
        _ => panic!("expected a tray update"),
    }
    assert_eq!(a.current_index, 0);
    match a.user_event(UserEvent::UpdateTray(524_288, 7)) {
        Action::UpdateTray(u) => {
            assert_eq!(u.tooltip, "Minibin 0.1.0\n\n512 KB 7 files");
            assert_eq!(u.icon, Some(ICONS[2]));
        }
        _ => panic!("expected a tray update"),
    }
    assert_eq!(a.current_index, 2);
    match a.user_event(UserEvent::UpdateTray(600_000, 8)) {
        Action::UpdateTray(u) => assert_eq!(u.icon, None),
        _ => panic!("expected a tray update"),
    }
    assert_eq!(a.current_index, 2);
    match a.user_event(UserEvent::UpdateTray(2_000_000, 9)) {
        Action::UpdateTray(u) => {
            assert_eq!(u.tooltip, "Minibin 0.1.0\n\n1 MB 9 files");
            assert_eq!(u.icon, Some(ICONS[4]));
        }
        _ => panic!("expected a tray update"),
    }
    assert_eq!(a.current_index, 4);
    match a.user_event(UserEvent::UpdateTray(0, 0)) {
        Action::UpdateTray(u) => assert_eq!(u.icon, Some(ICONS[0])),
        _ => panic!("expected a tray update"),
    }
    assert_eq!(a.current_index, 0);
    assert_eq!(a.conf.trash.max_fill_size_mb, 1);
}

#[test]
fn other_events_keep_the_shown_level() {
    let mut a = app();
    a.update_tray_icon(10240 * 1024 * 1024, 1);
    assert_eq!(a.current_index, 4);
    menu(&mut a, SYSTEM_SOUND_ID);
    a.user_event(UserEvent::UpdateConfig);
    a.user_event(UserEvent::TrayIconEvent(TrayIconEvent::Other));
    assert_eq!(a.current_index, 4);
}

#[test]
fn update_tray_with_default_threshold() {
    let mut a = app();
    let u = a.update_tray_icon(10240 * 1024 * 1024 / 2, 1);
    assert_eq!(u.icon, Some(ICONS[2]));
    assert_eq!(a.current_index, 2);
    let u = a.update_tray_icon(100, 1);
    assert_eq!(u.icon, Some(ICONS[0]));
    assert_eq!(u.tooltip, "Minibin 0.1.0\n\n100 Byte 1 files");
    let u = a.update_tray_icon(100, 1);
    assert_eq!(u.icon, None);
}

#[test]
fn higher_threshold_never_raises_level() {
    for size in 0..=400u64 {
        for max in 1..=60u64 {
            assert!(get_index_by_percent(size, max + 1, 5) <= get_index_by_percent(size, max, 5));
        }
    }
}

#[test]
fn fill_limit_bounds() {
    let mut t = TrashSettings::default();
    assert!(fill_limit_ok(&t));
    t.max_fill_size_mb = u64::MAX / 1048576;
    assert!(fill_limit_ok(&t));
    t.max_fill_size_mb += 1;
    assert!(!fill_limit_ok(&t));
}
