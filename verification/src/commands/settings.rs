//! Settings-level decisions: the pill-indicator mode resolution with
//! its legacy migration, and the language catalogue entry type.

use vstd::prelude::*;

verus! {

/// Resolve the pill-indicator mode: a stored mode wins; else a legacy
/// boolean is migrated (`true` to `always`, `false` to
/// `when_recording`); else the default applies.
pub fn resolve_pill_indicator_mode(
    stored_mode: Option<String>,
    legacy_show_pill: Option<bool>,
    default_mode: String,
) -> (r: String)
    ensures
        stored_mode matches Some(m) ==> r == m,
        stored_mode is None && legacy_show_pill == Option::Some(true) ==> r@ == "always"@,
        stored_mode is None && legacy_show_pill == Option::Some(false) ==> r@
            == "when_recording"@,
        stored_mode is None && legacy_show_pill is None ==> r == default_mode,
{
    match stored_mode {
        Option::Some(mode) => mode,
        Option::None => match legacy_show_pill {
            Option::Some(show) => {
                if show {
                    "always".to_owned()
                } else {
                    "when_recording".to_owned()
                }
            },
            Option::None => default_mode,
        },
    }
}

/// One entry of the supported-language catalogue.
#[derive(Debug, PartialEq)]
pub struct LanguageInfo {
    /// ISO language code.
    pub code: String,
    /// Human-readable name.
    pub name: String,
}

impl Clone for LanguageInfo {
    fn clone(&self) -> (r: Self)
        ensures
            r == *self,
    {
        LanguageInfo { code: self.code.clone(), name: self.name.clone() }
    }
}

} // verus!
