//! Texts of the status bar.
use vstd::prelude::*;

use crate::domain::media::RepeatMode;
use crate::interface::i18n::Translations;

verus! {

/// The translation key naming a repeat mode in the status bar.
pub open spec fn repeat_label_key(mode: RepeatMode) -> Seq<char> {
    match mode {
        RepeatMode::Off => "status_repeat_none"@,
        RepeatMode::All => "status_repeat_all"@,
        RepeatMode::One => "status_repeat_one"@,
    }
}

/// The status bar's label for a repeat mode, in the language of `tr`.
pub fn repeat_label(tr: &Translations, mode: RepeatMode) -> (r: String)
    ensures
        r@ == tr.spec_t(repeat_label_key(mode)),
{
    match mode {
        RepeatMode::Off => tr.t("status_repeat_none"),
        RepeatMode::All => tr.t("status_repeat_all"),
        RepeatMode::One => tr.t("status_repeat_one"),
    }
}

} // verus!
