use vstd::prelude::*;
use crate::msgs::UpdateState;

verus! {

pub const WM_CREATE: u32 = 0x0001;
pub const WM_DESTROY: u32 = 0x0002;
pub const WM_PAINT: u32 = 0x000F;
/// The window system broadcasts this message when a system setting, such as the colour
/// mode, changes (`WM_SETTINGCHANGE`).
pub const WM_SETTINGCHANGED: u32 = 0x001A;
pub const WM_NCCREATE: u32 = 0x0081;
pub const WM_NCDESTROY: u32 = 0x0082;
pub const WM_COMMAND: u32 = 0x0111;
pub const WM_LBUTTONDOWN: u32 = 0x0201;
pub const WM_RBUTTONDOWN: u32 = 0x0204;

/// What the bar's window procedure does with a message.
#[derive(Clone, Copy, Debug, PartialEq, Eq, Structural)]
pub enum MessageKind {
    /// The window is being created: attach its handle to the window recorded last.
    NcCreate,
    /// The window is gone: forget it.
    NcDestroy,
    Create,
    /// Draw the bar.
    Paint,
    /// Focus the workspace clicked on.
    LButtonDown,
    /// Show the context menu.
    RButtonDown,
    /// Carry out a command of the context menu.
    Command,
    /// Show a new state of the window manager.
    UpdateState,
    /// Take the system's new colours.
    SettingChanged,
    /// End the message loop.
    Destroy,
    /// Leave it to the default window procedure.
    Other,
}

pub open spec fn spec_message_kind(msg_id: u32) -> MessageKind {
    if msg_id == WM_NCCREATE {
        MessageKind::NcCreate
    } else if msg_id == WM_NCDESTROY {
        MessageKind::NcDestroy
    } else if msg_id == WM_CREATE {
        MessageKind::Create
    } else if msg_id == WM_PAINT {
        MessageKind::Paint
    } else if msg_id == WM_LBUTTONDOWN {
        MessageKind::LButtonDown
    } else if msg_id == WM_RBUTTONDOWN {
        MessageKind::RButtonDown
    } else if msg_id == WM_COMMAND {
        MessageKind::Command
    } else if msg_id == UpdateState::ID {
        MessageKind::UpdateState
    } else if msg_id == WM_SETTINGCHANGED {
        MessageKind::SettingChanged
    } else if msg_id == WM_DESTROY {
        MessageKind::Destroy
    } else {
        MessageKind::Other
    }
}

/// What the bar's window procedure does with the message `msg_id`.
pub fn handle_message(msg_id: u32) -> (k: MessageKind)
    ensures
        k == spec_message_kind(msg_id),
{
    if msg_id == WM_NCCREATE {
        MessageKind::NcCreate
    } else if msg_id == WM_NCDESTROY {
        MessageKind::NcDestroy
    } else if msg_id == WM_CREATE {
        MessageKind::Create
    } else if msg_id == WM_PAINT {
        MessageKind::Paint
    } else if msg_id == WM_LBUTTONDOWN {
        MessageKind::LButtonDown
    } else if msg_id == WM_RBUTTONDOWN {
        MessageKind::RButtonDown
    } else if msg_id == WM_COMMAND {
        MessageKind::Command
    } else if msg_id == UpdateState::ID {
        MessageKind::UpdateState
    } else if msg_id == WM_SETTINGCHANGED {
        MessageKind::SettingChanged
    } else if msg_id == WM_DESTROY {
        MessageKind::Destroy
    } else {
        MessageKind::Other
    }
}

} // verus!
