//! Names in the user's language.

use vstd::prelude::*;

verus! {

/// Whether a message can be looked up in the catalog: it holds no NUL.
pub open spec fn translatable(msgid: Seq<char>) -> bool {
    forall|i: int| 0 <= i < msgid.len() ==> msgid[i] != '\0'
}

/// Looks `msgid` up in the message catalog of the current locale, by
/// `gettextrs::gettext`.
///
/// Nothing is claimed of the result: it depends on the locale and on the
/// catalogs that the process has bound. `gettext` panics on a message with a
/// NUL in it, which the precondition rules out. It also panics where a catalog
/// answers in another encoding than UTF-8, which no argument can rule out: a
/// program that binds a catalog has to bind it with that codeset.
#[verifier::external_body]
pub(crate) fn translate(msgid: &str) -> (translated: String)
    requires
        translatable(msgid@),
{
    gettextrs::gettext(msgid)
}

} // verus!
