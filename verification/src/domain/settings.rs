use vstd::prelude::*;

verus! {

/// The interface language used when the settings name none.
pub fn default_language() -> (s: String)
    ensures
        s@ == "en"@,
{
    crate::text::owned("en")
}

/// The repeat mode persisted when the settings name none: repeat off.
pub fn default_repeat_mode() -> (s: String)
    ensures
        s@ == crate::domain::media::RepeatMode::Off.spec_as_str(),
{
    crate::text::owned(crate::domain::media::RepeatMode::Off.as_str())
}

} // verus!
