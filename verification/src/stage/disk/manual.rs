//! Manual partition selection.

use vstd::prelude::*;

verus! {

/// Result of manual partition selection.
pub struct ManualResult {
    pub root_part: String,
    pub efi_part: String,
}

/// After the root partition: an existing EFI partition completes the
/// selection, otherwise the user is asked for one.
pub enum ManualNext {
    Done(ManualResult),
    AskEfi(String),
}

/// The manual flow once the user named the root partition.
pub fn run(root_part: String, existing_efi: Option<String>) -> (r: ManualNext)
    ensures
        existing_efi matches Some(e) ==> (r matches ManualNext::Done(m) && m.root_part@
            == root_part@ && m.efi_part@ == e@),
        existing_efi is None ==> (r matches ManualNext::AskEfi(p) && p@ == root_part@),
{
    match existing_efi {
        Some(efi) => ManualNext::Done(ManualResult { root_part, efi_part: efi }),
        None => ManualNext::AskEfi(root_part),
    }
}

} // verus!
