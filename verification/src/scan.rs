//! Which files a directory scan keeps, and in what order it lists them.

use crate::order::{ascending, lemma_ascending_is_determined, lemma_filter_to_multiset};
use crate::paths::{extension, path_extension};
use crate::text::{failure_of, join, same_text};
use vstd::prelude::*;
use vstd::seq_lib::*;

verus! {

/// What keeps a scan from starting at `dir`, if anything: the path must
/// exist and be a directory.
pub open spec fn directory_problem(dir: Seq<char>, exists: bool, is_dir: bool) -> Option<
    Seq<char>,
> {
    if !exists {
        Some("Directory not found: "@ + dir)
    } else if !is_dir {
        Some("Path is not a directory: "@ + dir)
    } else {
        None
    }
}

/// Decides from what the file system says of `dir_path` whether a scan can
/// start there.
pub fn check_directory(dir_path: &str, exists: bool, is_dir: bool) -> (checked: Result<(), String>)
    ensures
        failure_of(checked) == directory_problem(dir_path@, exists, is_dir),
{
    if !exists {
        Err(join("Directory not found: ", dir_path))
    } else if !is_dir {
        Err(join("Path is not a directory: ", dir_path))
    } else {
        Ok(())
    }
}

/// Message for a directory whose entries could not be listed.
pub fn read_directory_failure(error: &str) -> (message: String)
    ensures
        message@ == "Failed to read directory: "@ + error@,
{
    join("Failed to read directory: ", error)
}

/// Message for an entry that could not be read while listing a directory.
pub fn read_entry_failure(error: &str) -> (message: String)
    ensures
        message@ == "Failed to read entry: "@ + error@,
{
    join("Failed to read entry: ", error)
}

/// What a scan does with an entry of a directory.
#[derive(Clone, Copy, Debug, PartialEq, Eq, Structural)]
pub enum Visit {
    /// Scan the entry's own entries.
    Descend,
    /// The entry is a candidate for the listing.
    Consider,
    /// Pass over the entry.
    Skip,
}

/// What a scan does with an entry, from what the file system says of it:
/// directories are scanned in turn, regular files are candidates, and
/// whatever is neither is passed over.
pub open spec fn visit_of(is_dir: bool, is_file: bool) -> Visit {
    if is_dir {
        Visit::Descend
    } else if is_file {
        Visit::Consider
    } else {
        Visit::Skip
    }
}

/// Decides what a scan does with an entry of a directory.
pub fn visit(is_dir: bool, is_file: bool) -> (visit: Visit)
    ensures
        visit == visit_of(is_dir, is_file),
{
    if is_dir {
        Visit::Descend
    } else if is_file {
        Visit::Consider
    } else {
        Visit::Skip
    }
}

/// Lower-case form of a text as `str::to_lowercase` gives it.
pub uninterp spec fn lowercase_of(text: Seq<char>) -> Seq<char>;

/// Calls `str::to_lowercase`. The result is the text in lower case as
/// Unicode defines it; it depends on the text alone.
#[verifier::external_body]
fn lowercase(text: &str) -> (lower: String)
    ensures
        lower@ == lowercase_of(text@),
{
    text.to_lowercase()
}

/// The extensions, in lower case, of the files that count as images: JPEG,
/// HEIC, PNG and the raw formats.
pub open spec fn is_supported(ext: Seq<char>) -> bool {
    ||| ext == "jpg"@
    ||| ext == "jpeg"@
    ||| ext == "heic"@
    ||| ext == "heif"@
    ||| ext == "png"@
    ||| ext == "arw"@
    ||| ext == "cr2"@
    ||| ext == "cr3"@
    ||| ext == "nef"@
    ||| ext == "dng"@
    ||| ext == "orf"@
    ||| ext == "raf"@
    ||| ext == "rw2"@
    ||| ext == "raw"@
}

/// Whether a path names an image: its extension, in lower case, is one of
/// the supported ones.
pub open spec fn is_image(path: Seq<char>) -> bool {
    match path_extension(path) {
        Some(ext) => is_supported(lowercase_of(ext)),
        None => false,
    }
}

/// Whether an extension, given in lower case, is one of an image file.
pub fn is_supported_extension(ext: &str) -> (supported: bool)
    ensures
        supported == is_supported(ext@),
{
    same_text(ext, "jpg") || same_text(ext, "jpeg") || same_text(ext, "heic") || same_text(
        ext,
        "heif",
    ) || same_text(ext, "png") || same_text(ext, "arw") || same_text(ext, "cr2") || same_text(
        ext,
        "cr3",
    ) || same_text(ext, "nef") || same_text(ext, "dng") || same_text(ext, "orf") || same_text(
        ext,
        "raf",
    ) || same_text(ext, "rw2") || same_text(ext, "raw")
}

/// Whether an extension as it stands in a file name, or the lack of one,
/// marks an image file. Case does not matter.
pub fn marks_image(ext: Option<&str>) -> (image: bool)
    ensures
        image == match ext {
            Some(e) => is_supported(lowercase_of(e@)),
            None => false,
        },
{
    match ext {
        Some(e) => {
            let lower = lowercase(e);
            is_supported_extension(lower.as_str())
        },
        None => false,
    }
}

/// Whether a path names an image file.
pub fn is_image_path(path: &str) -> (image: bool)
    ensures
        image == is_image(path@),
{
    match extension(path) {
        Some(ext) => marks_image(Some(ext.as_str())),
        None => marks_image(None),
    }
}

/// The texts that a list of strings holds.
pub open spec fn lines(list: Seq<String>) -> Seq<Seq<char>> {
    list.map_values(|text: String| text@)
}

/// Calls `sort` on the vector. The strings are the same afterwards, each as
/// often as before, and stand in ascending order; `String` orders by the
/// bytes of the encoding.
#[verifier::external_body]
fn sort_texts(list: &mut Vec<String>)
    ensures
        ascending(lines(final(list)@)),
        lines(final(list)@).to_multiset() == lines(old(list)@).to_multiset(),
{
    list.sort();
}

/// Whether `images` is the listing of `candidates`: the candidates that name
/// image files, each as often as it was found, in ascending order.
pub open spec fn is_listing(images: Seq<Seq<char>>, candidates: Seq<Seq<char>>) -> bool {
    &&& ascending(images)
    &&& images.to_multiset() == candidates.filter(|path: Seq<char>| is_image(path)).to_multiset()
}

/// The listing does not depend on the order in which the candidates were
/// found: candidates that hold the same paths have the same listing.
pub proof fn lemma_listing_ignores_order(
    first: Seq<Seq<char>>,
    second: Seq<Seq<char>>,
    first_images: Seq<Seq<char>>,
    second_images: Seq<Seq<char>>,
)
    requires
        first.to_multiset() == second.to_multiset(),
        is_listing(first_images, first),
        is_listing(second_images, second),
    ensures
        first_images == second_images,
{
    let keep = |path: Seq<char>| is_image(path);
    lemma_filter_to_multiset(first, keep);
    lemma_filter_to_multiset(second, keep);
    lemma_ascending_is_determined(first_images, second_images);
}

/// A scan under way: the candidates that were met so far.
#[derive(Debug)]
pub struct Scan {
    found: Vec<String>,
}

impl View for Scan {
    type V = Seq<Seq<char>>;

    closed spec fn view(&self) -> Seq<Seq<char>> {
        lines(self.found@)
    }
}

impl Scan {
    /// A scan that has met nothing yet.
    pub fn new() -> (scan: Scan)
        ensures
            scan@ == Seq::<Seq<char>>::empty(),
    {
        let scan = Scan { found: Vec::new() };
        assert(lines(scan.found@) =~= Seq::<Seq<char>>::empty());
        scan
    }

    /// Takes note of an entry and says what to do with it. `path` is the
    /// entry's path where it can be written as text; a candidate whose path
    /// cannot is left out of the listing.
    pub fn entry(&mut self, is_dir: bool, is_file: bool, path: Option<&str>) -> (visit: Visit)
        ensures
            visit == visit_of(is_dir, is_file),
            final(self)@ == match path {
                Some(p) if visit == Visit::Consider => old(self)@.push(p@),
                _ => old(self)@,
            },
    {
        let visit = visit(is_dir, is_file);
        match visit {
            Visit::Consider => {
                match path {
                    Some(p) => {
                        let ghost before = self.found@;
                        self.found.push(String::from_str(p));
                        assert(lines(self.found@) =~= lines(before).push(p@));
                    },
                    None => {},
                }
            },
            _ => {},
        }
        visit
    }

    /// Ends the scan: the listing of the candidates that were met.
    pub fn finish(self) -> (images: Vec<String>)
        ensures
            is_listing(lines(images@), self@),
    {
        image_files(&self.found)
    }
}

/// Keeps the paths that name image files and lists them in ascending order.
pub fn image_files(candidates: &Vec<String>) -> (images: Vec<String>)
    ensures
        is_listing(lines(images@), lines(candidates@)),
{
    let ghost keep = |path: Seq<char>| is_image(path);
    let mut images: Vec<String> = Vec::new();
    let mut i: usize = 0;
    proof {
        reveal(Seq::filter);
        assert(lines(candidates@.take(0)) =~= Seq::<Seq<char>>::empty());
        assert(lines(images@) =~= Seq::<Seq<char>>::empty());
    }
    while i < candidates.len()
        invariant
            i <= candidates.len(),
            keep == |path: Seq<char>| is_image(path),
            lines(images@) == lines(candidates@.take(i as int)).filter(keep),
        decreases candidates.len() - i,
    {
        let path = &candidates[i];
        let ghost before = lines(candidates@.take(i as int));
        proof {
            assert(lines(candidates@.take(i + 1)) =~= before.push(path@));
            before.lemma_filter_push(path@, keep);
        }
        if is_image_path(path.as_str()) {
            let ghost kept = lines(images@);
            images.push(path.clone());
            assert(lines(images@) =~= kept.push(path@));
        }
        i += 1;
    }
    assert(candidates@.take(i as int) =~= candidates@);
    sort_texts(&mut images);
    images
}

} // verus!
