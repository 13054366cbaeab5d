//! The tray icon and its menu.

use vstd::prelude::*;

use crate::text::same_text;

verus! {

/// What the user asked for in the menu.
#[derive(Debug, Clone, Copy, PartialEq, Eq, Structural)]
pub enum TrayAction {
    Toggle,
    OpenSettings,
    OpenLogs,
    Quit,
}

/// The color of the icon.
#[derive(Debug, Clone, Copy, PartialEq, Eq, Structural)]
pub enum TrayState {
    /// Traffic goes directly: grey.
    Direct,
    /// Traffic goes through the bypass router: green.
    Bypass,
    /// The bypass was given up: red.
    Fallback,
}

/// The width and the height of the icon.
pub const TRAY_ICON_PX: u32 = 32;

/// The identifiers of the menu's items.
#[derive(Debug)]
pub struct TrayMenu {
    pub toggle_id: String,
    pub settings_id: String,
    pub logs_id: String,
    pub quit_id: String,
}

/// The text that is shown over the icon.
pub open spec fn tip_of(state: TrayState) -> Seq<char> {
    match state {
        TrayState::Direct => "RouteTool - 直连"@,
        TrayState::Bypass => "RouteTool - 旁路由生效"@,
        TrayState::Fallback => "RouteTool - 异常已自动回退"@,
    }
}

/// The text that is shown over the icon.
pub fn tooltip(state: TrayState) -> (tip: &'static str)
    ensures
        tip@ == tip_of(state),
{
    match state {
        TrayState::Direct => "RouteTool - 直连",
        TrayState::Bypass => "RouteTool - 旁路由生效",
        TrayState::Fallback => "RouteTool - 异常已自动回退",
    }
}

/// The file of the icon's pixels.
pub open spec fn icon_of(state: TrayState) -> Seq<char> {
    match state {
        TrayState::Direct => "tray_direct.rgba"@,
        TrayState::Bypass => "tray_bypass.rgba"@,
        TrayState::Fallback => "tray_fallback.rgba"@,
    }
}

/// The file of the icon's pixels.
pub fn icon_file(state: TrayState) -> (name: &'static str)
    ensures
        name@ == icon_of(state),
{
    match state {
        TrayState::Direct => "tray_direct.rgba",
        TrayState::Bypass => "tray_bypass.rgba",
        TrayState::Fallback => "tray_fallback.rgba",
    }
}

/// The item that switches: it says what choosing it will do.
pub fn toggle_label(is_enabled: bool) -> (label: &'static str)
    ensures
        label@ == if is_enabled {
            "禁用旁路由"@
        } else {
            "启用旁路由"@
        },
{
    if is_enabled {
        "禁用旁路由"
    } else {
        "启用旁路由"
    }
}

impl TrayMenu {
    /// What an item stands for; the first item with the identifier counts.
    pub open spec fn action_of(self, id: Seq<char>) -> Option<TrayAction> {
        if id == self.toggle_id@ {
            Some(TrayAction::Toggle)
        } else if id == self.settings_id@ {
            Some(TrayAction::OpenSettings)
        } else if id == self.logs_id@ {
            Some(TrayAction::OpenLogs)
        } else if id == self.quit_id@ {
            Some(TrayAction::Quit)
        } else {
            None
        }
    }

    /// What the user asked for, by the identifier of the item that was chosen, if one
    /// was.
    pub fn poll_event(&self, chosen: &Option<String>) -> (action: Option<TrayAction>)
        ensures
            action == match *chosen {
                Some(id) => self.action_of(id@),
                None => None,
            },
    {
        match chosen {
            Some(id) => {
                let id = id.as_str();
                if same_text(id, self.toggle_id.as_str()) {
                    Some(TrayAction::Toggle)
                } else if same_text(id, self.settings_id.as_str()) {
                    Some(TrayAction::OpenSettings)
                } else if same_text(id, self.logs_id.as_str()) {
                    Some(TrayAction::OpenLogs)
                } else if same_text(id, self.quit_id.as_str()) {
                    Some(TrayAction::Quit)
                } else {
                    None
                }
            },
            None => None,
        }
    }
}

/// What the tray shows: the color, and whether the bypass is enabled.
#[derive(Debug, Clone, Copy, PartialEq, Eq, Structural)]
pub struct TrayShown {
    pub state: TrayState,
    pub is_enabled: bool,
}

impl TrayShown {
    /// What the tray shows at first.
    pub fn initial() -> (t: TrayShown)
        ensures
            t == (TrayShown { state: TrayState::Direct, is_enabled: false }),
    {
        TrayShown { state: TrayState::Direct, is_enabled: false }
    }

    /// Takes the current state in; tells whether the tray has to be redrawn.
    pub fn update_state(&mut self, state: TrayState, is_enabled: bool) -> (changed: bool)
        ensures
            *final(self) == (TrayShown { state, is_enabled }),
            changed == (*old(self) != *final(self)),
    {
        let next = TrayShown { state, is_enabled };
        let changed = self.state != state || self.is_enabled != is_enabled;
        *self = next;
        changed
    }
}

} // verus!
