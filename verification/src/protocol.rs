//! The fixed names and message constants of the desktop-shell protocol: the
//! window class names the discovery stages look for, and the undocumented
//! activation sequence that makes the shell materialize the hidden wallpaper
//! container behind the desktop icons.

use vstd::prelude::*;
use crate::handles::WindowHandle;

verus! {

/// The undocumented shell message that asks the desktop shell to materialize
/// the hidden worker window behind the desktop icons.
pub const CONTAINER_ACTIVATION_MESSAGE: u32 = 0x052C;

/// The window class the external media player registers.
pub fn player_window_class() -> (s: &'static str)
    ensures
        s@ == "mpv"@,
{
    "mpv"
}

/// The well-known class of the desktop shell's primary window.
pub fn shell_window_class() -> (s: &'static str)
    ensures
        s@ == "Progman"@,
{
    "Progman"
}

/// The class of the window hosting desktop icon rendering, used as the
/// discovery anchor.
pub fn icon_view_class() -> (s: &'static str)
    ensures
        s@ == "SHELLDLL_DefView"@,
{
    "SHELLDLL_DefView"
}

/// The class of the hidden worker window that hosts wallpaper content.
pub fn worker_class() -> (s: &'static str)
    ensures
        s@ == "WorkerW"@,
{
    "WorkerW"
}

/// One message to send to a shell window.
#[derive(Clone, Copy, PartialEq, Eq, Structural, Debug)]
pub struct ShellMessage {
    pub target: WindowHandle,
    pub code: u32,
    pub wparam: usize,
    pub lparam: isize,
}

/// The materialize-container operation as data: the exact two-message
/// sequence to send to the shell's primary window. Both carry the activation
/// message code; the payloads are zero and then one, in that order. Omitting
/// either message or reordering them fails to produce the container on some
/// shell versions, so the sequence is a fixed protocol constant.
pub fn activation_sequence(shell: WindowHandle) -> (msgs: Vec<ShellMessage>)
    ensures
        msgs@.len() == 2,
        msgs@[0] == (ShellMessage {
            target: shell,
            code: CONTAINER_ACTIVATION_MESSAGE,
            wparam: 0,
            lparam: 0,
        }),
        msgs@[1] == (ShellMessage {
            target: shell,
            code: CONTAINER_ACTIVATION_MESSAGE,
            wparam: 0,
            lparam: 1,
        }),
{
    let mut msgs: Vec<ShellMessage> = Vec::new();
    msgs.push(ShellMessage { target: shell, code: CONTAINER_ACTIVATION_MESSAGE, wparam: 0, lparam: 0 });
    msgs.push(ShellMessage { target: shell, code: CONTAINER_ACTIVATION_MESSAGE, wparam: 0, lparam: 1 });
    msgs
}

} // verus!
