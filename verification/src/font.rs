//! Font provisioning: the decision logic of locating the default monospace
//! font, and the handle that owns its instantiated metrics table.
//!
//! The filesystem itself is an external collaborator: the unverified shell
//! enumerates the platform's well-known font paths in priority order,
//! reports which of them exist, and reads the chosen file. This module
//! decides which candidate wins and classifies the failure when none does.

use vstd::prelude::*;
use crate::ui_text::UiFont;

verus! {

/// Why loading the default font failed.
///
/// `FontNotFound` is returned when no candidate path exists in any searched
/// directory; `FontReadError` stands for a path that exists but cannot be
/// read, which only the shell's filesystem read can observe.
#[derive(Clone, Copy, PartialEq, Eq, Structural, Debug)]
pub enum FontError {
    FontNotFound,
    FontReadError,
}

/// One candidate location of a font file: the path the shell would read,
/// and whether a file exists there.
#[derive(PartialEq, Debug)]
pub struct FontCandidate {
    pub path: String,
    pub exists: bool,
}

/// Picks the font file to load: the first candidate that exists, in the
/// given priority order. Returns its index, or `FontNotFound` exactly when
/// no candidate exists.
pub fn find_font(candidates: &Vec<FontCandidate>) -> (r: Result<usize, FontError>)
    ensures
        r matches Ok(i) ==> i < candidates@.len() && candidates@[i as int].exists
            && (forall|j: int| 0 <= j < i ==> !candidates@[j].exists),
        r matches Err(e) ==> e == FontError::FontNotFound
            && (forall|j: int| 0 <= j < candidates@.len() ==> !candidates@[j].exists),
{
    let n = candidates.len();
    let mut i: usize = 0;
    while i < n
        invariant
            i <= n,
            n == candidates@.len(),
            forall|j: int| 0 <= j < i ==> !candidates@[j].exists,
        decreases n - i,
    {
        if candidates[i].exists {
            return Ok(i);
        }
        i = i + 1;
    }
    Err(FontError::FontNotFound)
}

/// The fonts the application loads once at startup and keeps for the
/// process lifetime: here, a single default monospace font.
pub struct DefaultFonts {
    monospace: UiFont,
}

impl DefaultFonts {
    /// The monospace font table, for use in contracts.
    pub closed spec fn monospace_view(self) -> UiFont {
        self.monospace
    }

    /// Wraps the instantiated monospace font table the shell loaded.
    pub fn new(monospace: UiFont) -> (r: DefaultFonts)
        requires
            monospace.wf(),
        ensures
            r.monospace_view() == monospace,
            r.monospace_view().wf(),
    {
        DefaultFonts { monospace }
    }

    /// The default monospace font.
    pub fn monospace(&self) -> (r: &UiFont)
        ensures
            r == self.monospace_view(),
    {
        &self.monospace
    }
}

} // verus!
