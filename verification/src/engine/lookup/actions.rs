//! Reading lookup requests.
use vstd::prelude::*;

use crate::text::{lowercase, lowercase_text, str_eq};

use super::results::SpellList;

verus! {

/// The spell list a lower-cased name stands for.
pub open spec fn spell_list_for(k: Seq<char>) -> Option<SpellList> {
    if k == "cleric"@ {
        Some(SpellList::Cleric)
    } else if k == "magicuser"@ || k == "magic-user"@ || k == "magic_user"@ || k == "mu"@ || k == "mage"@ {
        Some(SpellList::MagicUser)
    } else if k == "druid"@ {
        Some(SpellList::Druid)
    } else if k == "illusionist"@ {
        Some(SpellList::Illusionist)
    } else {
        None
    }
}

/// The spell list an already lower-cased name stands for; `mu` and `mage`
/// also name the magic-user list.
pub fn spell_list_of_lowercase(k: &str) -> (r: Option<SpellList>)
    ensures
        r == spell_list_for(k@),
{
    if str_eq(k, "cleric") {
        Some(SpellList::Cleric)
    } else if str_eq(k, "magicuser") || str_eq(k, "magic-user") || str_eq(k, "magic_user") || str_eq(k, "mu")
        || str_eq(k, "mage") {
        Some(SpellList::MagicUser)
    } else if str_eq(k, "druid") {
        Some(SpellList::Druid)
    } else if str_eq(k, "illusionist") {
        Some(SpellList::Illusionist)
    } else {
        None
    }
}

/// Reads a spell list name, in any case; `mu` and `mage` also name the
/// magic-user list.
pub fn parse_spell_list(s: &str) -> (r: Option<SpellList>)
    ensures
        r == spell_list_for(lowercase_text(s@)),
{
    let low = lowercase(s);
    spell_list_of_lowercase(low.as_str())
}

} // verus!
