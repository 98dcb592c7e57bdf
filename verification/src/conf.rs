use vstd::prelude::*;

verus! {

/// What a double click on the tray icon does.
#[derive(Debug, Clone, Copy, PartialEq, Eq, Structural)]
pub enum DoubleClickAction {
    Open,
    Empty,
}

/// The whole configuration of the tray application.
#[derive(Debug)]
pub struct Config {
    pub update_config_speed: u64,
    pub trash: TrashSettings,
    pub translate: Translate,
}

/// Settings of the recycle bin: when it counts as full, what a double click
/// does, and which of the shell's dialogs and sounds are switched off.
#[derive(Debug)]
pub struct TrashSettings {
    pub max_fill_size_mb: u64,
    pub non_adaptive_fill_size: u8,
    pub double_click_actions: DoubleClickAction,
    pub icons_two_states: bool,
    pub recycle_no_progress: bool,
    pub recycle_no_confirm: bool,
    pub recycle_no_sound: bool,
}

/// The labels of the tray menu.
#[derive(Debug)]
pub struct Translate {
    pub open: String,
    pub exit: String,
    pub empty: String,
    pub about: String,
    pub configure: String,
    pub configure_icons: String,
    pub configure_system: String,
    pub configure_icons_25: String,
    pub configure_icons_50: String,
    pub configure_icons_75: String,
    pub configure_icons_full: String,
    pub configure_icons_empty: String,
    pub configure_icons_reset: String,
    pub configure_system_sound: String,
    pub configure_double_click: String,
    pub configure_system_confirm: String,
    pub configure_system_progress: String,
    pub configure_icons_two_state: String,
}

/// The trash settings a fresh installation starts with.
pub open spec fn default_trash_settings() -> TrashSettings {
    TrashSettings {
        recycle_no_sound: false,
        recycle_no_confirm: false,
        recycle_no_progress: false,
        icons_two_states: false,
        max_fill_size_mb: 10240,
        double_click_actions: DoubleClickAction::Open,
        non_adaptive_fill_size: 1,
    }
}

/// The English menu labels a fresh installation starts with.
pub open spec fn is_default_translate(t: Translate) -> bool {
    &&& t.open@ == "Open"@
    &&& t.empty@ == "Empty"@
    &&& t.configure@ == "Configure"@
    &&& t.configure_double_click@ == "Icon Double-Click Action"@
    &&& t.configure_system@ == "System Integration"@
    &&& t.configure_system_confirm@ == "Confirm Recycling"@
    &&& t.configure_system_sound@ == "Allow Sound"@
    &&& t.configure_system_progress@ == "Allow Progress Window"@
    &&& t.configure_icons@ == "Change Icons"@
    &&& t.configure_icons_two_state@ == "Only use empty/full icons"@
    &&& t.configure_icons_empty@ == "Empty"@
    &&& t.configure_icons_25@ == "25%"@
    &&& t.configure_icons_50@ == "50%"@
    &&& t.configure_icons_75@ == "75%"@
    &&& t.configure_icons_full@ == "Full"@
    &&& t.configure_icons_reset@ == "Reset Icons"@
    &&& t.about@ == "About"@
    &&& t.exit@ == "Exit"@
}

/// The configuration a fresh installation starts with.
pub open spec fn is_default_config(c: Config) -> bool {
    &&& c.update_config_speed == 1
    &&& c.trash == default_trash_settings()
    &&& is_default_translate(c.translate)
}

impl Default for Config {
    fn default() -> (conf: Self)
        ensures
            is_default_config(conf),
    {
        Self {
            update_config_speed: 1,
            translate: Translate::default(),
            trash: TrashSettings::default(),
        }
    }
}

impl Default for TrashSettings {
    fn default() -> (settings: Self)
        ensures
            settings == default_trash_settings(),
    {
        Self {
            recycle_no_sound: false,
            recycle_no_confirm: false,
            recycle_no_progress: false,
            icons_two_states: false,
            max_fill_size_mb: 10240,
            double_click_actions: DoubleClickAction::Open,
            non_adaptive_fill_size: 1,
        }
    }
}

impl Default for Translate {
    fn default() -> (t: Self)
        ensures
            is_default_translate(t),
    {
        Self {
            open: "Open".to_string(),
            empty: "Empty".to_string(),
            configure: "Configure".to_string(),
            configure_double_click: "Icon Double-Click Action".to_string(),
            configure_system: "System Integration".to_string(),
            configure_system_confirm: "Confirm Recycling".to_string(),
            configure_system_sound: "Allow Sound".to_string(),
            configure_system_progress: "Allow Progress Window".to_string(),
            configure_icons: "Change Icons".to_string(),
            configure_icons_two_state: "Only use empty/full icons".to_string(),
            configure_icons_empty: "Empty".to_string(),
            configure_icons_25: "25%".to_string(),
            configure_icons_50: "50%".to_string(),
            configure_icons_75: "75%".to_string(),
            configure_icons_full: "Full".to_string(),
            configure_icons_reset: "Reset Icons".to_string(),
            about: "About".to_string(),
            exit: "Exit".to_string(),
        }
    }
}

} // verus!
