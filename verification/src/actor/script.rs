//! Note scripts, which are carried from where they are found to where they are used.

use miden_protocol::note::NoteScript;
use vstd::prelude::*;

use crate::word::Word;

verus! {

#[verifier::external_type_specification]
#[verifier::external_body]
pub struct ExNoteScript(NoteScript);

/// `NoteScript::clone` yields an equal script.
#[verifier::external_body]
pub(crate) fn copy_script(script: &NoteScript) -> (r: NoteScript)
    ensures
        r == *script,
{
    script.clone()
}

/// A script with its root.
#[derive(Debug)]
pub struct RootedScript {
    pub root: Word,
    pub script: NoteScript,
}

} // verus!
