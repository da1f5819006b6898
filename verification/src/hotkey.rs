//! The global hotkey, which toggles the main window from anywhere.
use vstd::prelude::*;

use crate::win32::MOD_NOREPEAT;
use crate::win32::SW_HIDE;
use crate::win32::SW_SHOW;
use crate::window::WindowCommand;

verus! {

/// The id that the hotkey is registered under.
pub const GLOBAL_HOTKEY_ID: i32 = 1;

/// The configured hotkey in native terms.
#[derive(Debug, Clone, Copy, PartialEq, Eq)]
pub struct HotkeySetting {
    /// The virtual key, where the configured key has one.
    pub vk: Option<u32>,
    /// The `MOD_*` flags of the configured modifiers.
    pub mods: u32,
}

/// The arguments of the call that registers a hotkey.
#[derive(Debug, Clone, Copy, PartialEq, Eq, Structural)]
pub struct HotkeyRegistration {
    pub id: i32,
    pub modifiers: u32,
    pub vk: u32,
}

/// The calls that bring the system's hotkey in line with the configuration, in order.
#[derive(Debug, Clone, Copy, PartialEq, Eq)]
pub struct HotkeySync {
    /// The id to unregister.
    pub unregister: i32,
    pub register: Option<HotkeyRegistration>,
}

/// The key and the flags of a hotkey that can be registered: one that has a
/// virtual key and at least one modifier.
pub open spec fn usable_hotkey(setting: Option<HotkeySetting>) -> Option<(u32, u32)> {
    match setting {
        Some(s) if s.vk is Some && s.mods != 0 => Some((s.vk->0, s.mods)),
        _ => None,
    }
}

/// The virtual key and the `MOD_*` flags of the global hotkey. A modifier is
/// required, so that no bare key is ever bound globally.
pub fn configured_global_hotkey(setting: Option<HotkeySetting>) -> (hotkey: Option<(u32, u32)>)
    ensures
        hotkey == usable_hotkey(setting),
        hotkey is Some <==> (setting is Some && setting->0.vk is Some && setting->0.mods != 0),
        hotkey matches Some((vk, mods)) ==> setting->0.vk == Some(vk) && setting->0.mods == mods,
{
    match setting {
        None => None,
        Some(s) => match s.vk {
            None => None,
            Some(vk) => {
                if s.mods == 0 {
                    return None;
                }
                Some((vk, s.mods))
            },
        },
    }
}

/// These flags, with the one that keeps a held-down hotkey from repeating.
pub open spec fn without_repeat(mods: u32) -> u32 {
    if mods / MOD_NOREPEAT % 2 == 1 {
        mods
    } else {
        (mods + MOD_NOREPEAT) as u32
    }
}

/// The calls that replace the registered hotkey by this one, or by none.
pub open spec fn hotkey_calls(hotkey: Option<(u32, u32)>) -> HotkeySync {
    HotkeySync {
        unregister: GLOBAL_HOTKEY_ID,
        register: match hotkey {
            Some((vk, mods)) => Some(
                HotkeyRegistration { id: GLOBAL_HOTKEY_ID, modifiers: without_repeat(mods), vk },
            ),
            None => None,
        },
    }
}

/// The calls that replace the registered hotkey by this one, or by none.
pub fn sync_global_hotkey(hotkey: Option<(u32, u32)>) -> (calls: HotkeySync)
    ensures
        calls == hotkey_calls(hotkey),
        calls.unregister == 1,
        calls.register is Some <==> hotkey is Some,
        hotkey matches Some((vk, mods)) ==> {
            &&& calls.register->0.id == 1
            &&& calls.register->0.vk == vk
            &&& calls.register->0.modifiers == mods | 0x4000
        },
{
    let register = match hotkey {
        Some((vk, mods)) => {
            assert(mods / 0x4000 % 2 == 1 ==> mods | 0x4000 == mods) by (bit_vector);
            assert(mods / 0x4000 % 2 != 1 ==> mods | 0x4000 == mods + 0x4000) by (bit_vector);
            Some(
                HotkeyRegistration { id: GLOBAL_HOTKEY_ID, modifiers: mods | MOD_NOREPEAT, vk },
            )
        },
        None => None,
    };
    HotkeySync { unregister: GLOBAL_HOTKEY_ID, register }
}

/// Whether the system refused to register the hotkey, which is worth a warning.
pub fn registration_failed(ok: i32) -> (failed: bool)
    ensures
        failed == (ok == 0),
{
    ok == 0
}

/// What toggling does to the main window.
pub open spec fn toggling(hwnd: isize, visible: i32, foreground: isize) -> Seq<WindowCommand> {
    if visible != 0 && foreground == hwnd {
        seq![WindowCommand::Show(SW_HIDE)]
    } else {
        seq![WindowCommand::Show(SW_SHOW), WindowCommand::SetForeground]
    }
}

/// What toggling does to the main window: hide it if it is visible and in the
/// foreground, otherwise show it and bring it there. `visible` is nonzero for a
/// visible window, and `foreground` is the native handle of the foreground window.
pub fn toggle_main_window(hwnd: isize, visible: i32, foreground: isize) -> (commands: Vec<
    WindowCommand,
>)
    ensures
        commands@ == toggling(hwnd, visible, foreground),
        commands@ == (if visible != 0 && foreground == hwnd {
            seq![WindowCommand::Show(SW_HIDE)]
        } else {
            seq![WindowCommand::Show(SW_SHOW), WindowCommand::SetForeground]
        }),
{
    if visible != 0 && foreground == hwnd {
        vec![WindowCommand::Show(SW_HIDE)]
    } else {
        vec![WindowCommand::Show(SW_SHOW), WindowCommand::SetForeground]
    }
}

/// No bare key is ever bound globally: what is registered for a setting is its
/// key with all of its modifiers, of which there is at least one, and the key
/// does not repeat.
pub proof fn law_no_bare_key_is_bound(setting: Option<HotkeySetting>)
    ensures
        hotkey_calls(usable_hotkey(setting)).register matches Some(r) ==> {
            &&& setting is Some
            &&& setting->0.vk == Some(r.vk)
            &&& setting->0.mods != 0
            &&& r.modifiers % MOD_NOREPEAT == setting->0.mods % MOD_NOREPEAT
            &&& r.modifiers / MOD_NOREPEAT / 2 == setting->0.mods / MOD_NOREPEAT / 2
            &&& r.modifiers / MOD_NOREPEAT % 2 == 1
        },
{
    if usable_hotkey(setting) is Some {
        let mods = setting->0.mods;
        assert(mods / 0x4000 % 2 != 1 ==> mods + 0x4000 <= 0xffff_ffff && {
            let m: u32 = (mods + 0x4000) as u32;
            m % 0x4000 == mods % 0x4000 && m / 0x4000 / 2 == mods / 0x4000 / 2 && m / 0x4000 % 2
                == 1
        }) by (bit_vector);
    }
}

/// A setting that names a key and a modifier is registered.
pub proof fn law_complete_setting_is_bound(vk: u32, mods: u32)
    requires
        mods != 0,
    ensures
        hotkey_calls(usable_hotkey(Some(HotkeySetting { vk: Some(vk), mods }))).register is Some,
{
}

/// The hotkey that can be registered is the configured key with the configured
/// modifiers, and there is one if and only if both are given.
pub proof fn law_configured_hotkey_is_used(setting: Option<HotkeySetting>)
    ensures
        usable_hotkey(setting) is Some <==> (setting is Some && setting->0.vk is Some
            && setting->0.mods != 0),
        usable_hotkey(setting) matches Some((vk, mods)) ==> setting->0.vk == Some(vk)
            && setting->0.mods == mods,
{
}

/// Whatever was registered before is given up under the one id of the hotkey.
/// A hotkey is registered under that id with its key and all of its modifiers,
/// and with the flag against repeats; without a hotkey nothing is registered.
pub proof fn law_hotkey_replaces_the_one_before(hotkey: Option<(u32, u32)>)
    ensures
        hotkey_calls(hotkey).unregister == 1,
        hotkey is None ==> hotkey_calls(hotkey).register is None,
        hotkey matches Some((vk, mods)) ==> {
            let r = hotkey_calls(hotkey).register;
            &&& r is Some
            &&& r->0.id == hotkey_calls(hotkey).unregister
            &&& r->0.vk == vk
            &&& r->0.modifiers == mods | 0x4000
        },
{
    if let Some((vk, mods)) = hotkey {
        assert(mods / 0x4000 % 2 == 1 ==> mods | 0x4000 == mods) by (bit_vector);
        assert(mods / 0x4000 % 2 != 1 ==> mods | 0x4000 == mods + 0x4000) by (bit_vector);
    }
}


/// A window that the user sees in front is hidden and nothing more; any other is
/// shown first and then brought to the front.
pub proof fn law_toggling_hides_what_is_in_front(hwnd: isize, visible: i32, foreground: isize)
    ensures
        visible != 0 && foreground == hwnd ==> toggling(hwnd, visible, foreground).len() == 1
            && toggling(hwnd, visible, foreground)[0] == WindowCommand::Show(0),
        visible == 0 || foreground != hwnd ==> {
            &&& toggling(hwnd, visible, foreground).len() == 2
            &&& toggling(hwnd, visible, foreground)[0] == WindowCommand::Show(5)
            &&& toggling(hwnd, visible, foreground)[1] == WindowCommand::SetForeground
        },
{
}


} // verus!
