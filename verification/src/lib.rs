//! Verified core of the VRChat keyboard-over-OSC controller.
//!
//! The library holds the decisions of the controller: the avatar input state
//! and how keys change it, the messages an evaluation sends, the OSC addresses
//! and endpoints, the start-up sequence, the locale choice and the helper
//! commands. Sockets, the window and the global handlers live in the program.
pub mod commands;
pub mod input;
pub mod osc;
pub mod ui;

use vstd::prelude::*;

verus! {

/// The locale used when the system locale is unknown or not shipped.
pub const DEFAULT_LOCALE: &'static str = "en-US";

/// The characters of the default locale tag.
pub open spec fn default_locale_tag() -> Seq<char> {
    seq!['e', 'n', '-', 'U', 'S']
}

/// Every locale for which the application ships translations.
pub open spec fn shipped_locales() -> Seq<Seq<char>> {
    seq![default_locale_tag()]
}

/// The locales for which the application ships translations.
pub const AVAILABLE_LOCALES: [&'static str; 1] = ["en-US"];

/// Returns the locales for which the application ships translations.
pub fn available_locales_wrapped() -> (locales: &'static [&'static str])
    ensures
        tags_of(locales@) == shipped_locales(),
{
    proof {
        reveal_strlit("en-US");
    }
    let locales: &'static [&'static str] = &AVAILABLE_LOCALES;
    assert(locales@[0]@ == default_locale_tag());
    assert(tags_of(locales@) =~= shipped_locales());
    locales
}

/// The views of a list of string slices.
pub open spec fn tags_of(list: Seq<&str>) -> Seq<Seq<char>> {
    list.map_values(|s: &str| s@)
}

/// The locale the application runs in: the system locale when the
/// application ships it, else the default locale.
pub open spec fn chosen_locale(system: Option<Seq<char>>, available: Seq<Seq<char>>) -> Seq<char> {
    match system {
        Some(tag) => if available.contains(tag) {
            tag
        } else {
            default_locale_tag()
        },
        None => default_locale_tag(),
    }
}

/// Chooses the locale to run in from the system locale, if one is known,
/// and the locales that are available.
pub fn select_locale(system_locale: Option<String>, available: &[&str]) -> (locale: String)
    ensures
        locale@ == chosen_locale(
            match system_locale {
                Some(s) => Some(s@),
                None => None,
            },
            tags_of(available@),
        ),
        system_locale is None ==> locale@ == seq!['e', 'n', '-', 'U', 'S'],
        system_locale is Some && !tags_of(available@).contains(system_locale->0@) ==> locale@
            == seq!['e', 'n', '-', 'U', 'S'],
        system_locale is Some && tags_of(available@).contains(system_locale->0@) ==> locale@
            == system_locale->0@,
{
    proof {
        reveal_strlit("en-US");
    }
    match &system_locale {
        None => DEFAULT_LOCALE.to_owned(),
        Some(tag) => {
            let ghost tags = tags_of(available@);
            let mut i: usize = 0;
            while i < available.len()
                invariant
                    i <= available@.len(),
                    tags == tags_of(available@),
                    system_locale == Some(*tag),
                    forall|j: int| 0 <= j < i ==> tags[j] != tag@,
                decreases available@.len() - i,
            {
                let candidate: String = available[i].to_owned();
                if candidate == *tag {
                    assert(tags[i as int] == tag@);
                    assert(tags.contains(tag@));
                    return candidate;
                }
                i = i + 1;
            }
            assert(!tags.contains(tag@));
            DEFAULT_LOCALE.to_owned()
        },
    }
}

/// The application always runs in a locale it ships or in the default
/// locale, and it runs in the system locale whenever that one is available.
pub proof fn lemma_chosen_locale_supported(system: Option<Seq<char>>, available: Seq<Seq<char>>)
    ensures
        available.contains(chosen_locale(system, available)) || chosen_locale(system, available)
            == default_locale_tag(),
        system is Some && available.contains(system->0) ==> chosen_locale(system, available)
            == system->0,
{
}

/// The application runs in `en-US` when the system locale is unknown, and
/// when the system locale is not among the available ones, whatever the
/// available list holds; otherwise it runs in the system locale.
pub proof fn lemma_locale_fallback(system: Option<Seq<char>>, available: Seq<Seq<char>>)
    ensures
        system is None ==> chosen_locale(system, available) == seq!['e', 'n', '-', 'U', 'S'],
        system is Some && !available.contains(system->0) ==> chosen_locale(system, available)
            == seq!['e', 'n', '-', 'U', 'S'],
        system is Some && available.contains(system->0) ==> chosen_locale(system, available)
            == system->0,
{
}

} // verus!
