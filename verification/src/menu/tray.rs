//! Decisions behind the tray menu's model entries.

use vstd::prelude::*;

verus! {

/// Whether a model appears selected in the tray: only after onboarding
/// is done, and only for the currently selected model.
pub fn should_mark_model_selected(
    onboarding_done: bool,
    model_name: &str,
    current_model: &str,
) -> (r: bool)
    ensures
        r == (onboarding_done && model_name@ == current_model@),
{
    let m = model_name.to_owned();
    onboarding_done && m.eq(&current_model.to_owned())
}

/// `Model: <name>`, or `Model: None` before onboarding or while no
/// model is selected.
pub open spec fn spec_tray_model_label(
    onboarding_done: bool,
    current_model: Seq<char>,
    resolved_display_name: Option<String>,
) -> Seq<char> {
    if !onboarding_done || current_model.len() == 0 {
        "Model: None"@
    } else {
        "Model: "@ + (match resolved_display_name {
            Option::Some(n) => n@,
            Option::None => current_model,
        })
    }
}

/// Format the tray's model label from the onboarding status, the
/// selected model, and an optional resolved display name.
pub fn format_tray_model_label(
    onboarding_done: bool,
    current_model: &str,
    resolved_display_name: Option<String>,
) -> (r: String)
    ensures
        r@ == spec_tray_model_label(onboarding_done, current_model@, resolved_display_name),
{
    if !onboarding_done || current_model.is_empty() {
        "Model: None".to_owned()
    } else {
        let mut r = String::new();
        r.append("Model: ");
        match resolved_display_name {
            Option::Some(n) => r.append(n.as_str()),
            Option::None => r.append(current_model),
        }
        assert(r@ =~= spec_tray_model_label(
            onboarding_done,
            current_model@,
            resolved_display_name,
        ));
        r
    }
}

} // verus!
