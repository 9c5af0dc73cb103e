//! Finding fonts below a directory: which directories are read, which files are
//! loaded, and how far down to go.

use crate::location::optional_text;
use crate::text::{lowered, same_ignoring_case, same_text};
use vstd::prelude::*;

verus! {

/// How many directories below a root are entered on the way to a font.
pub const MAX_DEPTH: usize = 16;

/// What is to be done about an entry of a directory.
#[derive(Clone, Copy, Debug, PartialEq, Eq, Structural)]
pub enum FontEntry {
    Skip,
    /// It is a directory whose entries are to be read.
    Descend,
    /// It is a font.
    Load,
}

/// Whether a file extension is that of a font.
pub open spec fn is_font_extension(extension: Option<Seq<char>>) -> bool {
    extension matches Some(extension) && {
        ||| lowered(extension) == lowered("ttf"@)
        ||| lowered(extension) == lowered("otf"@)
        ||| lowered(extension) == lowered("ttc"@)
        ||| lowered(extension) == lowered("otc"@)
    }
}

/// Whether a file with the given extension is a font; the case of letters does
/// not matter.
pub fn is_supported_font(extension: &Option<String>) -> (result: bool)
    ensures
        result == is_font_extension(optional_text(*extension)),
{
    match extension {
        Some(extension) => {
            let extension = extension.as_str();
            same_ignoring_case(extension, "ttf") || same_ignoring_case(extension, "otf")
                || same_ignoring_case(extension, "ttc") || same_ignoring_case(extension, "otc")
        },
        None => false,
    }
}

/// What is to be done about an entry of a directory at the given depth.
pub open spec fn entry_action(
    name: Seq<char>,
    is_directory: bool,
    extension: Option<Seq<char>>,
    depth: int,
) -> FontEntry {
    if name == "."@ || name == ".."@ {
        FontEntry::Skip
    } else if is_directory {
        if depth < MAX_DEPTH {
            FontEntry::Descend
        } else {
            FontEntry::Skip
        }
    } else if is_font_extension(extension) {
        FontEntry::Load
    } else {
        FontEntry::Skip
    }
}

/// A walk through the directories below a root, deepest first.  `P` is the path
/// of a directory.
#[derive(Debug)]
pub struct FontWalk<P> {
    /// The directories still to be read, with their depths.
    pub directories: Vec<(P, usize)>,
    pub loaded_files: usize,
    pub loaded_faces: usize,
}

impl<P> FontWalk<P> {
    /// No directory is too deep.
    pub open spec fn wf(self) -> bool {
        forall|i: int|
            0 <= i < self.directories@.len() ==> (#[trigger] self.directories@[i]).1 <= MAX_DEPTH
    }

    /// A walk that has nowhere to go yet.
    pub fn new() -> (result: FontWalk<P>)
        ensures
            result.wf(),
            result.directories@ == Seq::<(P, usize)>::empty(),
            result.loaded_files == 0,
            result.loaded_faces == 0,
    {
        FontWalk { directories: Vec::new(), loaded_files: 0, loaded_faces: 0 }
    }

    /// Walk through what is below a root next.
    pub fn enter_root(&mut self, root: P)
        requires
            old(self).wf(),
        ensures
            final(self).wf(),
            final(self).directories@ == old(self).directories@.push((root, 0usize)),
            final(self).loaded_files == old(self).loaded_files,
            final(self).loaded_faces == old(self).loaded_faces,
    {
        self.directories.push((root, 0));
    }

    /// The directory to read next, with its depth.
    pub fn next_directory(&mut self) -> (result: Option<(P, usize)>)
        requires
            old(self).wf(),
        ensures
            final(self).wf(),
            result is None <==> old(self).directories@.len() == 0,
            result is None ==> final(self).directories@ == old(self).directories@,
            result matches Some(directory) ==> directory == old(self).directories@.last()
                && directory.1 <= MAX_DEPTH && final(self).directories@
                == old(self).directories@.drop_last(),
            final(self).loaded_files == old(self).loaded_files,
            final(self).loaded_faces == old(self).loaded_faces,
    {
        self.directories.pop()
    }

    /// Take an entry of a directory at the given depth: its path, its name,
    /// whether it is a directory itself, and its file extension.  A directory
    /// that is to be read is put on the list.
    pub fn visit(
        &mut self,
        path: P,
        name: &str,
        is_directory: bool,
        extension: &Option<String>,
        depth: usize,
    ) -> (result: FontEntry)
        requires
            old(self).wf(),
        ensures
            final(self).wf(),
            result == entry_action(name@, is_directory, optional_text(*extension), depth as int),
            final(self).directories@ == if result == FontEntry::Descend {
                old(self).directories@.push((path, (depth + 1) as usize))
            } else {
                old(self).directories@
            },
            final(self).loaded_files == old(self).loaded_files,
            final(self).loaded_faces == old(self).loaded_faces,
    {
        // A directory may list itself and its parent; entering them would walk
        // through the same fonts again.
        if same_text(name, ".") || same_text(name, "..") {
            return FontEntry::Skip;
        }
        if is_directory {
            if depth < MAX_DEPTH {
                self.directories.push((path, depth + 1));
                return FontEntry::Descend;
            }
            return FontEntry::Skip;
        }
        if is_supported_font(extension) {
            FontEntry::Load
        } else {
            FontEntry::Skip
        }
    }

    /// Count a font file that has been loaded, with the faces in it.
    pub fn loaded(&mut self, faces: usize)
        requires
            old(self).wf(),
            old(self).loaded_files < usize::MAX,
            old(self).loaded_faces + faces <= usize::MAX,
        ensures
            final(self).wf(),
            final(self).loaded_files == old(self).loaded_files + 1,
            final(self).loaded_faces == old(self).loaded_faces + faces,
            final(self).directories@ == old(self).directories@,
    {
        self.loaded_files += 1;
        self.loaded_faces += faces;
    }
}

/// A directory never leads back to itself or its parent, whatever it lists.
pub proof fn walks_do_not_turn_back(
    is_directory: bool,
    extension: Option<Seq<char>>,
    depth: int,
)
    ensures
        entry_action("."@, is_directory, extension, depth) == FontEntry::Skip,
        entry_action(".."@, is_directory, extension, depth) == FontEntry::Skip,
{
}

/// Files with the extensions of the four font formats are fonts, however their
/// letters are written, and no other file is.
pub proof fn fonts_have_these_extensions(extension: Seq<char>)
    ensures
        is_font_extension(None) == false,
        is_font_extension(Some(extension)) <==> extension.len() == 3 && {
            let first = crate::text::ascii_lower(extension[0]);
            let second = crate::text::ascii_lower(extension[1]);
            let third = crate::text::ascii_lower(extension[2]);
            &&& first == 't' || first == 'o'
            &&& second == 't'
            &&& third == 'f' || third == 'c'
        },
{
    reveal_strlit("ttf");
    reveal_strlit("otf");
    reveal_strlit("ttc");
    reveal_strlit("otc");
    let low = lowered(extension);
    let (ttf, otf) = (lowered("ttf"@), lowered("otf"@));
    let (ttc, otc) = (lowered("ttc"@), lowered("otc"@));
    assert(ttf =~= seq!['t', 't', 'f']);
    assert(otf =~= seq!['o', 't', 'f']);
    assert(ttc =~= seq!['t', 't', 'c']);
    assert(otc =~= seq!['o', 't', 'c']);
    if extension.len() == 3 {
        let first = crate::text::ascii_lower(extension[0]);
        let second = crate::text::ascii_lower(extension[1]);
        let third = crate::text::ascii_lower(extension[2]);
        assert(low =~= seq![first, second, third]);
        assert(low[0] == first && low[1] == second && low[2] == third);
        assert(ttf[0] == 't' && ttf[1] == 't' && ttf[2] == 'f');
        assert(otf[0] == 'o' && otf[1] == 't' && otf[2] == 'f');
        assert(ttc[0] == 't' && ttc[1] == 't' && ttc[2] == 'c');
        assert(otc[0] == 'o' && otc[1] == 't' && otc[2] == 'c');
    } else {
        assert(low.len() != 3);
    }
}

/// Every font in a directory is loaded, at any depth; every directory less than
/// sixteen below a root is entered, and none at that depth; nothing else is
/// touched.
pub proof fn fonts_and_directories_are_followed(
    name: Seq<char>,
    is_directory: bool,
    extension: Option<Seq<char>>,
    depth: int,
)
    requires
        name != "."@,
        name != ".."@,
    ensures
        entry_action(name, is_directory, extension, depth) == FontEntry::Descend <==> is_directory
            && depth < 16,
        entry_action(name, is_directory, extension, depth) == FontEntry::Load <==> !is_directory
            && is_font_extension(extension),
{
}

} // verus!
