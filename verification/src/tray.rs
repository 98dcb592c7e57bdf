use vstd::prelude::*;
use vstd::string::*;
use vstd::arithmetic::div_mod::{
    lemma_div_by_multiple, lemma_div_is_ordered, lemma_div_is_ordered_by_denominator,
};
use vstd::arithmetic::mul::lemma_mul_inequality;

use crate::conf::{Config, DoubleClickAction, TrashSettings};
use crate::text::{decimal, push_decimal};

verus! {

/// The first line of the tray icon's tooltip.
pub const TOOLTIP: &'static str = "Minibin 0.1.0";

/// Menu item identifiers, as the tray menu reports them back.
pub const EXIT_ITEM_ID: &'static str = "1";
pub const EMPTY_ITEM_ID: &'static str = "2";
pub const OPEN_ITEM_ID: &'static str = "3";
pub const RESET_ITEM_ID: &'static str = "4";
pub const SYSTEM_RECYCLE_ID: &'static str = "5";
pub const SYSTEM_PROGRES_ID: &'static str = "6";
pub const SYSTEM_SOUND_ID: &'static str = "7";
pub const CLICK_EMPTY_ID: &'static str = "8";
pub const CLICK_OPEN_ID: &'static str = "9";

/// The number of icon levels, from an empty bin to a full one.
pub const ICON_LEVELS: usize = 5;

/// One mebibyte, the unit of `TrashSettings::max_fill_size_mb`.
pub const BYTES_PER_MB: u64 = 1048576;

/// The icon level that a bin of `size` bytes shows on a scale of `levels`
/// steps, when `max_size` bytes count as full: the share `size / max_size`
/// times `levels`, rounded down and capped at the last level.
pub open spec fn spec_index_by_percent(size: nat, max_size: nat, levels: nat) -> nat {
    if size == 0 || max_size == 0 {
        0
    } else if size * levels / max_size >= levels {
        (levels - 1) as nat
    } else {
        size * levels / max_size
    }
}

/// Picks the icon level for a bin of `size` bytes out of `levels` levels,
/// `max_size` bytes being a full bin.
pub fn get_index_by_percent(size: u64, max_size: u64, levels: usize) -> (index: usize)
    requires
        size == 0 || max_size == 0 || levels > 0,
    ensures
        index == spec_index_by_percent(size as nat, max_size as nat, levels as nat),
        levels > 0 ==> index < levels,
{
    if size == 0 || max_size == 0 {
        return 0;
    }
    let wide_size: u128 = size as u128;
    let wide_levels: u128 = levels as u128;
    assert(wide_size * wide_levels <= u64::MAX as int * u64::MAX as int) by (nonlinear_arith)
        requires
            wide_size <= u64::MAX,
            wide_levels <= u64::MAX,
    ;
    let scaled: u128 = wide_size * wide_levels / (max_size as u128);
    if scaled >= wide_levels {
        levels - 1
    } else {
        scaled as usize
    }
}

/// A command of the tray menu.
#[derive(Debug, Clone, Copy, PartialEq, Eq, Structural)]
pub enum MenuCommand {
    Exit,
    Empty,
    Open,
    ResetIcons,
    SystemRecycle,
    SystemProgress,
    SystemSound,
    ClickEmpty,
    ClickOpen,
}

/// The command that a menu item identifier stands for.
pub open spec fn spec_menu_command(id: Seq<char>) -> Option<MenuCommand> {
    if id == EXIT_ITEM_ID@ {
        Some(MenuCommand::Exit)
    } else if id == EMPTY_ITEM_ID@ {
        Some(MenuCommand::Empty)
    } else if id == OPEN_ITEM_ID@ {
        Some(MenuCommand::Open)
    } else if id == RESET_ITEM_ID@ {
        Some(MenuCommand::ResetIcons)
    } else if id == SYSTEM_RECYCLE_ID@ {
        Some(MenuCommand::SystemRecycle)
    } else if id == SYSTEM_PROGRES_ID@ {
        Some(MenuCommand::SystemProgress)
    } else if id == SYSTEM_SOUND_ID@ {
        Some(MenuCommand::SystemSound)
    } else if id == CLICK_EMPTY_ID@ {
        Some(MenuCommand::ClickEmpty)
    } else if id == CLICK_OPEN_ID@ {
        Some(MenuCommand::ClickOpen)
    } else {
        None
    }
}

/// Reads a menu item identifier.
pub fn menu_command(id: &str) -> (command: Option<MenuCommand>)
    ensures
        command == spec_menu_command(id@),
{
    let id = id.to_owned();
    if id == EXIT_ITEM_ID.to_owned() {
        Some(MenuCommand::Exit)
    } else if id == EMPTY_ITEM_ID.to_owned() {
        Some(MenuCommand::Empty)
    } else if id == OPEN_ITEM_ID.to_owned() {
        Some(MenuCommand::Open)
    } else if id == RESET_ITEM_ID.to_owned() {
        Some(MenuCommand::ResetIcons)
    } else if id == SYSTEM_RECYCLE_ID.to_owned() {
        Some(MenuCommand::SystemRecycle)
    } else if id == SYSTEM_PROGRES_ID.to_owned() {
        Some(MenuCommand::SystemProgress)
    } else if id == SYSTEM_SOUND_ID.to_owned() {
        Some(MenuCommand::SystemSound)
    } else if id == CLICK_EMPTY_ID.to_owned() {
        Some(MenuCommand::ClickEmpty)
    } else if id == CLICK_OPEN_ID.to_owned() {
        Some(MenuCommand::ClickOpen)
    } else {
        None
    }
}


/// The unit in which the tooltip gives the size of the bin.
#[derive(Debug, Clone, Copy, PartialEq, Eq, Structural)]
pub enum SizeUnit {
    Byte,
    KB,
    MB,
    GB,
}

/// The word the tooltip writes for a unit.
pub open spec fn spec_unit_label(unit: SizeUnit) -> Seq<char> {
    match unit {
        SizeUnit::Byte => "Byte"@,
        SizeUnit::KB => "KB"@,
        SizeUnit::MB => "MB"@,
        SizeUnit::GB => "GB"@,
    }
}

impl SizeUnit {
    /// The word the tooltip writes for this unit.
    pub fn label(&self) -> (label: &'static str)
        ensures
            label@ == spec_unit_label(*self),
    {
        match self {
            SizeUnit::Byte => "Byte",
            SizeUnit::KB => "KB",
            SizeUnit::MB => "MB",
            SizeUnit::GB => "GB",
        }
    }
}

/// How the tooltip shows a bin of `size` bytes: up to a thousand bytes in
/// bytes, up to a million in KB, up to a billion in MB, above that in GB,
/// where a KB is 1024 bytes and each larger unit 1024 of the one below,
/// each count rounded down.
pub open spec fn spec_size_display(size: nat) -> (SizeUnit, nat) {
    if size <= 1000 {
        (SizeUnit::Byte, size)
    } else if size <= 1_000_000 {
        (SizeUnit::KB, size / 1024)
    } else if size <= 1_000_000_000 {
        (SizeUnit::MB, size / 1024 / 1024)
    } else {
        (SizeUnit::GB, size / 1024 / 1024 / 1024)
    }
}

/// Picks the unit and the count in it that the tooltip shows for a bin of
/// `size` bytes.
pub fn size_display(size: u64) -> (shown: (SizeUnit, u64))
    ensures
        (shown.0, shown.1 as nat) == spec_size_display(size as nat),
{
    if size <= 1000 {
        (SizeUnit::Byte, size)
    } else if size <= 1_000_000 {
        (SizeUnit::KB, size / 1024)
    } else if size <= 1_000_000_000 {
        (SizeUnit::MB, size / 1024 / 1024)
    } else {
        (SizeUnit::GB, size / 1024 / 1024 / 1024)
    }
}

/// The tooltip of the tray icon for a bin of `size` bytes in `items` files.
pub open spec fn spec_tray_tooltip(size: nat, items: nat) -> Seq<char> {
    let (unit, count) = spec_size_display(size);
    TOOLTIP@ + "\n\n"@ + decimal(count) + " "@ + spec_unit_label(unit) + " "@ + decimal(items)
        + " files"@
}

/// Writes the tooltip of the tray icon for a bin of `size` bytes in `items`
/// files.
pub fn tray_tooltip(size: u64, items: u64) -> (tooltip: String)
    ensures
        tooltip@ == spec_tray_tooltip(size as nat, items as nat),
{
    let (unit, count) = size_display(size);
    let mut tooltip = TOOLTIP.to_owned();
    tooltip.append("\n\n");
    push_decimal(&mut tooltip, count);
    tooltip.append(" ");
    tooltip.append(unit.label());
    tooltip.append(" ");
    push_decimal(&mut tooltip, items);
    tooltip.append(" files");
    tooltip
}

/// The flags that emptying the bin passes to the shell: the "no
/// confirmation" setting on the bit of value 4, "no progress" on 2 and
/// "no sound" on 1.
pub open spec fn spec_trash_flags(trash: TrashSettings) -> u32 {
    ((if trash.recycle_no_confirm { 4u32 } else { 0u32 }) + (if trash.recycle_no_progress {
        2u32
    } else {
        0u32
    }) + (if trash.recycle_no_sound { 1u32 } else { 0u32 })) as u32
}


/// A mouse button, as the tray icon reports it.
#[derive(Debug, Clone, Copy, PartialEq, Eq, Structural)]
pub enum MouseButton {
    Left,
    Right,
    Middle,
}

/// What the tray icon reports of a mouse event on it.
#[derive(Debug, Clone, Copy, PartialEq, Eq, Structural)]
pub enum TrayIconEvent {
    /// A double click with the given button.
    DoubleClick(MouseButton),
    /// Any other event (a click, the pointer entering, moving or leaving).
    Other,
}

/// An event that reaches the tray application.
#[derive(Debug)]
pub enum UserEvent {
    /// The tray icon reported a mouse event.
    TrayIconEvent(TrayIconEvent),
    /// The menu item with this identifier was chosen.
    MenuEvent(String),
    /// The bin now holds this many bytes in this many files.
    UpdateTray(u64, u64),
    /// The configuration file should be read again.
    UpdateConfig,
}

/// What the tray shows after a new measure of the bin.
#[derive(Debug)]
pub struct TrayUpdate {
    /// The new tooltip.
    pub tooltip: String,
    /// The icon image to show, where it changes.
    pub icon: Option<&'static [u8]>,
}

/// What the application does in answer to an event.
#[derive(Debug)]
pub enum Action {
    Nothing,
    /// Open the bin in the file manager.
    OpenTrash,
    /// Empty the bin, with these flags.
    ClearTrash(u32),
    /// Write the configuration file and leave the event loop.
    SaveConfigAndExit,
    /// Change the tooltip and the icon.
    UpdateTray(TrayUpdate),
    /// Read the configuration file again.
    ReadConfig,
}

/// Which of the menu's check items are ticked.
#[derive(Debug, Clone, Copy, PartialEq, Eq, Structural)]
pub struct MenuChecks {
    pub click_empty: bool,
    pub click_open: bool,
    pub system_recycle: bool,
    pub system_progress: bool,
    pub system_sound: bool,
}

/// The trash settings after the menu command `command`: the three system
/// items each flip their setting, the two double-click items set the
/// double-click action, and the other commands leave the settings alone.
pub open spec fn menu_trash(trash: TrashSettings, command: MenuCommand) -> TrashSettings {
    match command {
        MenuCommand::SystemRecycle => TrashSettings {
            recycle_no_confirm: !trash.recycle_no_confirm,
            ..trash
        },
        MenuCommand::SystemProgress => TrashSettings {
            recycle_no_progress: !trash.recycle_no_progress,
            ..trash
        },
        MenuCommand::SystemSound => TrashSettings {
            recycle_no_sound: !trash.recycle_no_sound,
            ..trash
        },
        MenuCommand::ClickEmpty => TrashSettings {
            double_click_actions: DoubleClickAction::Empty,
            ..trash
        },
        MenuCommand::ClickOpen => TrashSettings {
            double_click_actions: DoubleClickAction::Open,
            ..trash
        },
        _ => trash,
    }
}

/// What the menu command `command` does, under the trash settings `trash`.
pub open spec fn menu_action(trash: TrashSettings, command: MenuCommand) -> Action {
    match command {
        MenuCommand::Open => Action::OpenTrash,
        MenuCommand::Empty => Action::ClearTrash(spec_trash_flags(trash)),
        MenuCommand::Exit => Action::SaveConfigAndExit,
        _ => Action::Nothing,
    }
}

/// What a mouse event on the tray icon does: a double click with the left
/// button runs the configured double-click action, anything else nothing.
pub open spec fn tray_icon_action(trash: TrashSettings, event: TrayIconEvent) -> Action {
    match event {
        TrayIconEvent::DoubleClick(MouseButton::Left) => {
            if trash.double_click_actions == DoubleClickAction::Open {
                Action::OpenTrash
            } else {
                Action::ClearTrash(spec_trash_flags(trash))
            }
        },
        _ => Action::Nothing,
    }
}

/// Whether the full-bin threshold of `trash`, counted in bytes, fits in a
/// `u64`.
pub open spec fn fill_limit_fits(trash: TrashSettings) -> bool {
    trash.max_fill_size_mb * BYTES_PER_MB <= u64::MAX
}

/// Tells whether the full-bin threshold of `trash`, counted in bytes, fits
/// in a `u64`, which a tray update needs.
pub fn fill_limit_ok(trash: &TrashSettings) -> (fits: bool)
    ensures
        fits == fill_limit_fits(*trash),
{
    trash.max_fill_size_mb <= u64::MAX / BYTES_PER_MB
}

/// The icon level for a bin of `size` bytes under the trash settings `trash`.
pub open spec fn spec_fill_level(trash: TrashSettings, size: nat) -> nat {
    spec_index_by_percent(size, (trash.max_fill_size_mb * BYTES_PER_MB) as nat, ICON_LEVELS as nat)
}

/// The state of the tray application that its decisions read: the
/// configuration, the icon level shown, and the icon images of each level.
pub struct App {
    pub conf: Config,
    /// The icon level the tray shows.
    pub current_index: usize,
    /// The icon images, from an empty bin to a full one.
    pub default_icons: [&'static [u8]; 5],
}

impl App {
    /// The application with the configuration `conf`, showing the empty
    /// icon.
    pub fn new(default_icons: [&'static [u8]; 5], conf: Config) -> (app: App)
        ensures
            app.conf == conf,
            app.current_index == 0,
            app.default_icons == default_icons,
    {
        App { conf, default_icons, current_index: 0 }
    }

    /// The flags that emptying the bin passes to the shell.
    pub fn parse_flags_trash(&self) -> (flags: u32)
        ensures
            flags == spec_trash_flags(self.conf.trash),
    {
        let confirm: u32 = if self.conf.trash.recycle_no_confirm { 1 } else { 0 };
        let progress: u32 = if self.conf.trash.recycle_no_progress { 1 } else { 0 };
        let sound: u32 = if self.conf.trash.recycle_no_sound { 1 } else { 0 };
        assert((confirm << 2u32) | (progress << 1u32) | sound == 4 * confirm + 2 * progress + sound)
            by (bit_vector)
            requires
                confirm <= 1,
                progress <= 1,
                sound <= 1,
        ;
        (confirm << 2u32) | (progress << 1u32) | sound
    }

    /// Which of the menu's check items are ticked: each double-click item
    /// when its action is the configured one, each system item when its
    /// setting is on.
    pub fn menu_checks(&self) -> (checks: MenuChecks)
        ensures
            checks.click_empty == (self.conf.trash.double_click_actions
                == DoubleClickAction::Empty),
            checks.click_open == (self.conf.trash.double_click_actions == DoubleClickAction::Open),
            checks.system_recycle == self.conf.trash.recycle_no_confirm,
            checks.system_progress == self.conf.trash.recycle_no_progress,
            checks.system_sound == self.conf.trash.recycle_no_sound,
    {
        MenuChecks {
            click_empty: self.conf.trash.double_click_actions == DoubleClickAction::Empty,
            click_open: self.conf.trash.double_click_actions == DoubleClickAction::Open,
            system_recycle: self.conf.trash.recycle_no_confirm,
            system_progress: self.conf.trash.recycle_no_progress,
            system_sound: self.conf.trash.recycle_no_sound,
        }
    }

    /// What the tray shows for a bin of `size` bytes in `items` files: the
    /// tooltip, and the icon of the bin's fill level where that level is not
    /// the one shown. The fill level becomes the one shown.
    pub fn update_tray_icon(&mut self, size: u64, items: u64) -> (update: TrayUpdate)
        requires
            fill_limit_fits(old(self).conf.trash),
        ensures
            update.tooltip@ == spec_tray_tooltip(size as nat, items as nat),
            update.icon == (if spec_fill_level(old(self).conf.trash, size as nat)
                == old(self).current_index {
                None
            } else {
                Some(old(self).default_icons@[spec_fill_level(old(self).conf.trash, size as nat) as int])
            }),
            final(self).current_index == spec_fill_level(old(self).conf.trash, size as nat),
            final(self).conf == old(self).conf,
            final(self).default_icons == old(self).default_icons,
    {
        let tooltip = tray_tooltip(size, items);
        let index = get_index_by_percent(
            size,
            self.conf.trash.max_fill_size_mb * 1024 * 1024,
            ICON_LEVELS,
        );
        let icon = if self.current_index != index {
            Some(self.default_icons[index])
        } else {
            None
        };
        self.current_index = index;
        TrayUpdate { tooltip, icon }
    }

    /// Answers an event: returns what to do, changes the configuration where
    /// a menu command asks for it, and records the icon level a tray update
    /// shows.
    pub fn user_event(&mut self, event: UserEvent) -> (action: Action)
        requires
            event is UpdateTray ==> fill_limit_fits(old(self).conf.trash),
        ensures
            final(self).default_icons == old(self).default_icons,
            !(event is UpdateTray) ==> final(self).current_index == old(self).current_index,
            match event {
                UserEvent::TrayIconEvent(e) => {
                    &&& *final(self) == *old(self)
                    &&& action == tray_icon_action(old(self).conf.trash, e)
                },
                UserEvent::MenuEvent(id) => match spec_menu_command(id@) {
                    Some(command) => {
                        &&& final(self).conf == (Config {
                            trash: menu_trash(old(self).conf.trash, command),
                            ..old(self).conf
                        })
                        &&& action == menu_action(old(self).conf.trash, command)
                    },
                    None => {
                        &&& *final(self) == *old(self)
                        &&& action is Nothing
                    },
                },
                UserEvent::UpdateTray(size, items) => {
                    &&& final(self).conf == old(self).conf
                    &&& final(self).current_index == spec_fill_level(
                        old(self).conf.trash,
                        size as nat,
                    )
                    &&& action matches Action::UpdateTray(update)
                    &&& update.tooltip@ == spec_tray_tooltip(size as nat, items as nat)
                    &&& update.icon == (if spec_fill_level(old(self).conf.trash, size as nat)
                        == old(self).current_index {
                        None
                    } else {
                        Some(
                            old(self).default_icons@[spec_fill_level(
                                old(self).conf.trash,
                                size as nat,
                            ) as int],
                        )
                    })
                },
                UserEvent::UpdateConfig => {
                    &&& *final(self) == *old(self)
                    &&& action is ReadConfig
                },
            },
    {
        match event {
            UserEvent::TrayIconEvent(TrayIconEvent::DoubleClick(MouseButton::Left)) => {
                if self.conf.trash.double_click_actions == DoubleClickAction::Open {
                    Action::OpenTrash
                } else {
                    Action::ClearTrash(self.parse_flags_trash())
                }
            },
            UserEvent::MenuEvent(id) => match menu_command(id.as_str()) {
                Some(MenuCommand::Open) => Action::OpenTrash,
                Some(MenuCommand::Empty) => Action::ClearTrash(self.parse_flags_trash()),
                Some(MenuCommand::Exit) => Action::SaveConfigAndExit,
                Some(MenuCommand::SystemRecycle) => {
                    self.conf.trash.recycle_no_confirm = !self.conf.trash.recycle_no_confirm;
                    Action::Nothing
                },
                Some(MenuCommand::SystemProgress) => {
                    self.conf.trash.recycle_no_progress = !self.conf.trash.recycle_no_progress;
                    Action::Nothing
                },
                Some(MenuCommand::SystemSound) => {
                    self.conf.trash.recycle_no_sound = !self.conf.trash.recycle_no_sound;
                    Action::Nothing
                },
                Some(MenuCommand::ClickEmpty) => {
                    self.conf.trash.double_click_actions = DoubleClickAction::Empty;
                    Action::Nothing
                },
                Some(MenuCommand::ClickOpen) => {
                    self.conf.trash.double_click_actions = DoubleClickAction::Open;
                    Action::Nothing
                },
                _ => Action::Nothing,
            },
            UserEvent::UpdateTray(size, items) => Action::UpdateTray(
                self.update_tray_icon(size, items),
            ),
            UserEvent::UpdateConfig => Action::ReadConfig,
            _ => Action::Nothing,
        }
    }
}


/// A fuller bin never shows a lower icon level than an emptier one.
pub proof fn lemma_index_monotone(smaller: nat, larger: nat, max_size: nat, levels: nat)
    requires
        smaller <= larger,
        levels > 0,
    ensures
        spec_index_by_percent(smaller, max_size, levels) <= spec_index_by_percent(
            larger,
            max_size,
            levels,
        ),
{
    if smaller > 0 && max_size > 0 {
        lemma_mul_inequality(smaller as int, larger as int, levels as int);
        lemma_div_is_ordered((smaller * levels) as int, (larger * levels) as int, max_size as int);
    }
}

/// Raising the full-bin threshold never raises the icon level of a bin.
pub proof fn lemma_index_antitone_in_threshold(
    size: nat,
    lower_max: nat,
    higher_max: nat,
    levels: nat,
)
    requires
        0 < lower_max <= higher_max,
        levels > 0,
    ensures
        spec_index_by_percent(size, higher_max, levels) <= spec_index_by_percent(
            size,
            lower_max,
            levels,
        ),
{
    if size > 0 {
        lemma_div_is_ordered_by_denominator(
            (size * levels) as int,
            lower_max as int,
            higher_max as int,
        );
    }
}

/// A bin that holds at least the full-bin threshold shows the last icon
/// level.
pub proof fn lemma_full_bin_shows_last_level(size: nat, max_size: nat, levels: nat)
    requires
        max_size > 0,
        size >= max_size,
        levels > 0,
    ensures
        spec_index_by_percent(size, max_size, levels) == levels - 1,
{
    lemma_mul_inequality(max_size as int, size as int, levels as int);
    lemma_div_by_multiple(levels as int, max_size as int);
    assert(levels * max_size == max_size * levels) by (nonlinear_arith);
    lemma_div_is_ordered((max_size * levels) as int, (size * levels) as int, max_size as int);
}

/// The flags for emptying the bin hold each setting on a bit of its own,
/// and nothing else.
pub proof fn lemma_trash_flags_bits(trash: TrashSettings)
    ensures
        spec_trash_flags(trash) < 8,
        (spec_trash_flags(trash) & 4 != 0) == trash.recycle_no_confirm,
        (spec_trash_flags(trash) & 2 != 0) == trash.recycle_no_progress,
        (spec_trash_flags(trash) & 1 != 0) == trash.recycle_no_sound,
{
    let f = spec_trash_flags(trash);
    assert(f < 8 ==> ((f & 4 != 0) == (f >= 4) && (f & 2 != 0) == (f % 4 >= 2) && (f & 1 != 0)
        == (f % 2 == 1))) by (bit_vector);
}

/// Choosing a system item of the menu twice gives back the settings of
/// before.
pub proof fn lemma_toggle_twice(trash: TrashSettings, command: MenuCommand)
    requires
        command is SystemRecycle || command is SystemProgress || command is SystemSound,
    ensures
        menu_trash(menu_trash(trash, command), command) == trash,
{
}

/// Choosing a double-click item of the menu once or twice gives the same
/// settings.
pub proof fn lemma_click_choice_idempotent(trash: TrashSettings, command: MenuCommand)
    requires
        command is ClickEmpty || command is ClickOpen,
    ensures
        menu_trash(menu_trash(trash, command), command) == menu_trash(trash, command),
{
}

/// After a double-click item is chosen in the menu, a left double click on
/// the icon does what the menu's own item of the same name does.
pub proof fn lemma_double_click_follows_choice(trash: TrashSettings)
    ensures
        tray_icon_action(
            menu_trash(trash, MenuCommand::ClickOpen),
            TrayIconEvent::DoubleClick(MouseButton::Left),
        ) == menu_action(menu_trash(trash, MenuCommand::ClickOpen), MenuCommand::Open),
        tray_icon_action(
            menu_trash(trash, MenuCommand::ClickEmpty),
            TrayIconEvent::DoubleClick(MouseButton::Left),
        ) == menu_action(menu_trash(trash, MenuCommand::ClickEmpty), MenuCommand::Empty),
{
}


/// Emptying the bin, from the menu or by a left double click under the
/// Empty action, passes a flags word below 8 whose bit of value 4 is set
/// exactly when "no confirmation" is on, whose bit of value 2 exactly when
/// "no progress" is on, and whose bit of value 1 exactly when "no sound" is
/// on; a left double click under the Open action opens the bin.
pub proof fn lemma_emptying_passes_settings_flags(trash: TrashSettings)
    ensures
        menu_action(trash, MenuCommand::Empty) matches Action::ClearTrash(flags) && {
            &&& flags < 8
            &&& (flags & 4 != 0) == trash.recycle_no_confirm
            &&& (flags & 2 != 0) == trash.recycle_no_progress
            &&& (flags & 1 != 0) == trash.recycle_no_sound
        },
        trash.double_click_actions == DoubleClickAction::Empty ==> (tray_icon_action(
            trash,
            TrayIconEvent::DoubleClick(MouseButton::Left),
        ) matches Action::ClearTrash(flags) && {
            &&& flags < 8
            &&& (flags & 4 != 0) == trash.recycle_no_confirm
            &&& (flags & 2 != 0) == trash.recycle_no_progress
            &&& (flags & 1 != 0) == trash.recycle_no_sound
        }),
        trash.double_click_actions == DoubleClickAction::Open ==> tray_icon_action(
            trash,
            TrayIconEvent::DoubleClick(MouseButton::Left),
        ) is OpenTrash,
{
    let c: u32 = if trash.recycle_no_confirm { 1 } else { 0 };
    let p: u32 = if trash.recycle_no_progress { 1 } else { 0 };
    let n: u32 = if trash.recycle_no_sound { 1 } else { 0 };
    let f: u32 = (4 * c + 2 * p + n) as u32;
    assert(c <= 1 && p <= 1 && n <= 1 && f == 4 * c + 2 * p + n ==> {
        &&& f < 8
        &&& (f & 4 != 0) == (c == 1)
        &&& (f & 2 != 0) == (p == 1)
        &&& (f & 1 != 0) == (n == 1)
    }) by (bit_vector);
    assert(spec_trash_flags(trash) == f);
}

/// Only the Open, Empty and Exit items of the menu ask for an action; every
/// settings item (the three system items, the two double-click items and
/// the icon reset) asks for nothing.
pub proof fn lemma_only_open_empty_exit_act(trash: TrashSettings, command: MenuCommand)
    ensures
        command is Open ==> menu_action(trash, command) is OpenTrash,
        command is Empty ==> menu_action(trash, command) is ClearTrash,
        command is Exit ==> menu_action(trash, command) is SaveConfigAndExit,
        !(command is Open || command is Empty || command is Exit) ==> menu_action(
            trash,
            command,
        ) is Nothing,
{
}

/// Each settings item of the menu changes exactly its own setting: a system
/// item flips its flag, a double-click item sets the action to its own, and
/// every other field stays; the Open, Empty, Exit and reset items change no
/// setting.
pub proof fn lemma_menu_changes_only_its_setting(trash: TrashSettings, command: MenuCommand)
    ensures
        ({
            let after = menu_trash(trash, command);
            &&& after.max_fill_size_mb == trash.max_fill_size_mb
            &&& after.non_adaptive_fill_size == trash.non_adaptive_fill_size
            &&& after.icons_two_states == trash.icons_two_states
            &&& after.recycle_no_confirm == (if command is SystemRecycle {
                !trash.recycle_no_confirm
            } else {
                trash.recycle_no_confirm
            })
            &&& after.recycle_no_progress == (if command is SystemProgress {
                !trash.recycle_no_progress
            } else {
                trash.recycle_no_progress
            })
            &&& after.recycle_no_sound == (if command is SystemSound {
                !trash.recycle_no_sound
            } else {
                trash.recycle_no_sound
            })
            &&& after.double_click_actions == (if command is ClickEmpty {
                DoubleClickAction::Empty
            } else if command is ClickOpen {
                DoubleClickAction::Open
            } else {
                trash.double_click_actions
            })
        }),
{
}

} // verus!
