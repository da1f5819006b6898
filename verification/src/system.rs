//! What the backend reads of the system: the color theme, and whether the
//! session is remote.
use vstd::prelude::*;

verus! {

/// The color theme of applications.
#[derive(Debug, Clone, Copy, PartialEq, Eq, Structural)]
pub enum Appearance {
    Light,
    Dark,
}

/// The name of the backend.
pub fn name() -> (name: String)
    ensures
        name@ == "Windows"@,
{
    "Windows".to_owned()
}

/// The preference that the number in the registry stands for.
pub open spec fn light_theme(value: Option<u32>) -> Option<bool> {
    match value {
        Some(v) => Some(v != 0),
        None => None,
    }
}

/// The theme that goes with a preference for the light theme.
pub open spec fn appearance_of(light: Option<bool>) -> Appearance {
    if light == Some(false) {
        Appearance::Dark
    } else {
        Appearance::Light
    }
}

/// The preference for the light theme, from the number in the registry that
/// holds it: `None` when there is no such number.
pub fn read_apps_use_light_theme(value: Option<u32>) -> (light: Option<bool>)
    ensures
        light == light_theme(value),
        light is Some <==> value is Some,
        light is Some ==> (light->0 <==> value->0 != 0),
{
    match value {
        Some(v) => Some(v != 0),
        None => None,
    }
}

/// The theme of applications: dark only where the light theme is refused.
pub fn get_appearance(light: Option<bool>) -> (appearance: Appearance)
    ensures
        appearance == appearance_of(light),
        appearance == Appearance::Dark <==> light == Some(false),
        appearance == Appearance::Light <==> light != Some(false),
{
    match light {
        Some(false) => Appearance::Dark,
        _ => Appearance::Light,
    }
}

/// Applications are dark if and only if the registry holds a zero; without the
/// number they are light.
pub proof fn law_dark_only_on_request(value: Option<u32>)
    ensures
        appearance_of(light_theme(value)) == Appearance::Dark <==> value == Some(0u32),
{
}

/// Whether the process runs inside a remote desktop session, from the system
/// metric that is nonzero there.
pub fn is_running_in_rdp_session(remote_session: i32) -> (remote: bool)
    ensures
        remote == (remote_session != 0),
{
    remote_session != 0
}

/// The preference is the one that the registry holds: there is one if and only
/// if the registry holds a number, and it is refused by a zero alone.
pub proof fn law_preference_follows_the_registry(value: Option<u32>)
    ensures
        light_theme(value) is None <==> value is None,
        light_theme(value) == Some(false) <==> value == Some(0u32),
{
}


} // verus!
