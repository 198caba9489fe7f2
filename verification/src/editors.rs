//! Editor discovery and the launch failure message. Discovery scans a
//! fixed candidate table: the process search path first, then a fixed
//! list of well-known installation directories; candidates with no
//! discoverable executable are omitted. What the environment answers is
//! behind two trusted wrappers; the scan order, the table, and the shape
//! of the result are verified.

use vstd::prelude::*;
use vstd::string::*;

use crate::text::concat2;
use crate::text::concat3;

verus! {

/// A discovered editor: its display name, its stable identifier, and the
/// executable path under which it was found.
pub struct EditorInfo {
    pub name: String,
    pub slug: String,
    pub path: String,
}

/// Spec-level image of an [`EditorInfo`].
#[verifier::ext_equal]
pub struct EditorModel {
    pub name: Seq<char>,
    pub slug: Seq<char>,
    pub path: Seq<char>,
}

impl View for EditorInfo {
    type V = EditorModel;

    open spec fn view(&self) -> EditorModel {
        EditorModel { name: self.name@, slug: self.slug@, path: self.path@ }
    }
}

/// One entry of the candidate table: the executable name to look for,
/// the display name, and the stable identifier.
#[verifier::ext_equal]
pub struct CandidateModel {
    pub bin: Seq<char>,
    pub display_name: Seq<char>,
    pub slug: Seq<char>,
}

/// The fixed, ordered candidate table of editors worth looking for.
pub open spec fn editor_candidate_table() -> Seq<CandidateModel> {
    seq![
        CandidateModel { bin: "code"@, display_name: "Visual Studio Code"@, slug: "vscode"@ },
        CandidateModel { bin: "code-oss"@, display_name: "VS Code (OSS)"@, slug: "vscode-oss"@ },
        CandidateModel { bin: "vscodium"@, display_name: "VSCodium"@, slug: "vscodium"@ },
        CandidateModel { bin: "subl"@, display_name: "Sublime Text"@, slug: "sublime"@ },
        CandidateModel { bin: "cursor"@, display_name: "Cursor"@, slug: "cursor"@ },
        CandidateModel { bin: "nvim"@, display_name: "NeoVim"@, slug: "neovim"@ },
        CandidateModel {
            bin: "com.visualstudio.code"@,
            display_name: "VS Code (Flatpak)"@,
            slug: "vscode-flatpak"@,
        },
    ]
}

/// The fixed, ordered list of directories probed when the search path
/// does not know the executable.
pub open spec fn fallback_dir_table() -> Seq<Seq<char>> {
    seq!["/usr/bin"@, "/usr/local/bin"@, "/snap/bin"@, "/var/lib/flatpak/exports/bin"@]
}

/// The candidate table as values: (executable name, display name, slug).
pub fn editor_candidates() -> (r: Vec<(&'static str, &'static str, &'static str)>)
    ensures
        r@.len() == editor_candidate_table().len(),
        forall|i: int|
            0 <= i < r@.len() ==> {
                &&& (#[trigger] r@[i]).0@ == editor_candidate_table()[i].bin
                &&& r@[i].1@ == editor_candidate_table()[i].display_name
                &&& r@[i].2@ == editor_candidate_table()[i].slug
            },
{
    let r: Vec<(&'static str, &'static str, &'static str)> = vec![
        ("code", "Visual Studio Code", "vscode"),
        ("code-oss", "VS Code (OSS)", "vscode-oss"),
        ("vscodium", "VSCodium", "vscodium"),
        ("subl", "Sublime Text", "sublime"),
        ("cursor", "Cursor", "cursor"),
        ("nvim", "NeoVim", "neovim"),
        ("com.visualstudio.code", "VS Code (Flatpak)", "vscode-flatpak"),
    ];
    r
}

/// The fallback directories as values.
pub fn fallback_dirs() -> (r: Vec<&'static str>)
    ensures
        r@.len() == fallback_dir_table().len(),
        forall|i: int| 0 <= i < r@.len() ==> (#[trigger] r@[i])@ == fallback_dir_table()[i],
{
    let r: Vec<&'static str> = vec![
        "/usr/bin",
        "/usr/local/bin",
        "/snap/bin",
        "/var/lib/flatpak/exports/bin",
    ];
    r
}

/// Relies on which::which: resolves an executable name against the
/// process search path and returns the path of an executable file found
/// there. The outcome depends on the environment at call time, so
/// nothing is promised of it.
#[verifier::external_body]
fn which_lookup(bin: &str) -> Option<String> {
    match which::which(bin) {
        Ok(p) => Some(p.to_string_lossy().to_string()),
        Err(_) => None,
    }
}

/// Relies on std::path::Path::exists: whether the path refers to an
/// existing filesystem entity. The outcome depends on the filesystem at
/// call time, so nothing is promised of it.
#[verifier::external_body]
fn probe_exists(path: &str) -> bool {
    std::path::Path::new(path).exists()
}

/// The discovered editors are, in order, a selection of the candidate
/// table: entry k describes candidate idx[k], and the indices rise
/// strictly, so each candidate appears at most once and in table order.
pub open spec fn selection_of_candidates(editors: Seq<EditorInfo>, idx: Seq<int>) -> bool {
    &&& idx.len() == editors.len()
    &&& forall|k: int|
        0 <= k < idx.len() ==> 0 <= #[trigger] idx[k] < editor_candidate_table().len()
    &&& forall|k: int| 0 <= k && k + 1 < idx.len() ==> #[trigger] idx[k] < idx[k + 1]
    &&& forall|k: int|
        0 <= k < idx.len() ==> (#[trigger] editors[k])@.name == editor_candidate_table()[idx[k]].display_name
    &&& forall|k: int|
        0 <= k < idx.len() ==> (#[trigger] editors[k])@.slug == editor_candidate_table()[idx[k]].slug
}

/// Scans the candidate table against the environment. For each candidate
/// the search path is asked first; only when it does not know the name
/// are the fallback directories probed, in order, the first hit winning.
/// Candidates found nowhere are omitted: an empty result is a valid,
/// non-exceptional outcome, and no input can make this fail.
pub fn detect_editors() -> (r: Vec<EditorInfo>)
    ensures
        exists|idx: Seq<int>| #[trigger] selection_of_candidates(r@, idx),
        r@.len() <= editor_candidate_table().len(),
{
    let candidates = editor_candidates();
    let dirs = fallback_dirs();
    let mut editors: Vec<EditorInfo> = Vec::new();
    let ghost mut idx: Seq<int> = Seq::empty();
    let mut c: usize = 0;
    while c < candidates.len()
        invariant
            candidates@.len() == editor_candidate_table().len(),
            forall|i: int|
                0 <= i < candidates@.len() ==> {
                    &&& (#[trigger] candidates@[i]).0@ == editor_candidate_table()[i].bin
                    &&& candidates@[i].1@ == editor_candidate_table()[i].display_name
                    &&& candidates@[i].2@ == editor_candidate_table()[i].slug
                },
            c <= candidates@.len(),
            idx.len() <= c,
            selection_of_candidates(editors@, idx),
            forall|k: int| 0 <= k < idx.len() ==> #[trigger] idx[k] < c,
        decreases candidates@.len() - c,
    {
        let (bin, display, slug) = candidates[c];
        let mut found: Option<String> = which_lookup(bin);
        let mut d: usize = 0;
        while d < dirs.len() && found.is_none()
            invariant
                d <= dirs@.len(),
            decreases dirs@.len() - d,
        {
            let p = concat3(dirs[d], "/", bin);
            if probe_exists(p.as_str()) {
                found = Some(p);
            }
            d = d + 1;
        }
        match found {
            Some(path) => {
                let info = EditorInfo {
                    name: String::from_str(display),
                    slug: String::from_str(slug),
                    path,
                };
                let ghost editors0 = editors@;
                let ghost idx0 = idx;
                let ghost info_v = info@;
                editors.push(info);
                proof {
                    idx = idx.push(c as int);
                    assert(candidates@[c as int].1@ == editor_candidate_table()[c as int].display_name);
                    assert(candidates@[c as int].2@ == editor_candidate_table()[c as int].slug);
                    assert(info_v.name == editor_candidate_table()[c as int].display_name);
                    assert(info_v.slug == editor_candidate_table()[c as int].slug);
                    assert forall|k: int| 0 <= k < idx.len() implies {
                        &&& 0 <= #[trigger] idx[k] < editor_candidate_table().len()
                        &&& (#[trigger] editors@[k])@.name
                            == editor_candidate_table()[idx[k]].display_name
                        &&& editors@[k]@.slug == editor_candidate_table()[idx[k]].slug
                        &&& idx[k] < c + 1
                    } by {
                        if k < idx0.len() {
                            assert(editors@[k] == editors0[k]);
                            assert(idx[k] == idx0[k]);
                        } else {
                            assert(editors@[k]@ == info_v);
                            assert(idx[k] == c as int);
                        }
                    }
                    assert forall|k: int| 0 <= k && k + 1 < idx.len() implies #[trigger] idx[k]
                        < idx[k + 1] by {
                        assert(idx[k] == idx0[k]);
                        if k + 1 < idx0.len() {
                            assert(idx[k + 1] == idx0[k + 1]);
                        } else {
                            assert(idx[k + 1] == c as int);
                            assert(idx0[k] < c);
                        }
                    }
                }
            },
            None => {},
        }
        c = c + 1;
    }
    proof {
        assert(selection_of_candidates(editors@, idx));
    }
    editors
}

/// The slugs of the candidate table are pairwise distinct.
pub proof fn lemma_candidate_slugs_distinct()
    ensures
        forall|i: int, j: int|
            0 <= i < j < editor_candidate_table().len() ==> #[trigger] editor_candidate_table()[i].slug
                != #[trigger] editor_candidate_table()[j].slug,
{
    reveal_strlit("vscode");
    reveal_strlit("vscode-oss");
    reveal_strlit("vscodium");
    reveal_strlit("sublime");
    reveal_strlit("cursor");
    reveal_strlit("neovim");
    reveal_strlit("vscode-flatpak");
    let t = editor_candidate_table();
    assert(t[0].slug == "vscode"@);
    assert(t[1].slug == "vscode-oss"@);
    assert(t[2].slug == "vscodium"@);
    assert(t[3].slug == "sublime"@);
    assert(t[4].slug == "cursor"@);
    assert(t[5].slug == "neovim"@);
    assert(t[6].slug == "vscode-flatpak"@);
    // the three slugs of equal length differ in their first character
    assert("vscode"@[0] == 'v');
    assert("cursor"@[0] == 'c');
    assert("neovim"@[0] == 'n');
    assert forall|i: int, j: int| 0 <= i < j < t.len() implies #[trigger] t[i].slug != #[trigger] t[j].slug by {
        assert(t[0].slug != t[1].slug);
        assert(t[0].slug != t[2].slug);
        assert(t[0].slug != t[3].slug);
        assert(t[0].slug != t[4].slug);
        assert(t[0].slug != t[5].slug);
        assert(t[0].slug != t[6].slug);
        assert(t[1].slug != t[2].slug);
        assert(t[1].slug != t[3].slug);
        assert(t[1].slug != t[4].slug);
        assert(t[1].slug != t[5].slug);
        assert(t[1].slug != t[6].slug);
        assert(t[2].slug != t[3].slug);
        assert(t[2].slug != t[4].slug);
        assert(t[2].slug != t[5].slug);
        assert(t[2].slug != t[6].slug);
        assert(t[3].slug != t[4].slug);
        assert(t[3].slug != t[5].slug);
        assert(t[3].slug != t[6].slug);
        assert(t[4].slug != t[5].slug);
        assert(t[4].slug != t[6].slug);
        assert(t[5].slug != t[6].slug);
    }
}

/// Discovery yields one entry per candidate: in any selection of the
/// candidate table, no two discovered editors share a slug.
pub proof fn lemma_discovered_slugs_distinct(editors: Seq<EditorInfo>, idx: Seq<int>)
    requires
        selection_of_candidates(editors, idx),
    ensures
        forall|k1: int, k2: int|
            0 <= k1 < k2 < editors.len() ==> (#[trigger] editors[k1])@.slug != (
            #[trigger] editors[k2])@.slug,
{
    lemma_candidate_slugs_distinct();
    assert forall|k1: int, k2: int| 0 <= k1 < k2 < editors.len() implies (
    #[trigger] editors[k1])@.slug != (#[trigger] editors[k2])@.slug by {
        lemma_selection_indices_increase(idx, k1, k2);
        assert(idx[k1] < idx[k2]);
    }
}

/// In a strictly locally increasing index sequence, any earlier entry is
/// below any later one.
proof fn lemma_selection_indices_increase(idx: Seq<int>, k1: int, k2: int)
    requires
        forall|k: int| 0 <= k && k + 1 < idx.len() ==> #[trigger] idx[k] < idx[k + 1],
        0 <= k1 < k2 < idx.len(),
    ensures
        idx[k1] < idx[k2],
    decreases k2 - k1,
{
    if k1 + 1 < k2 {
        lemma_selection_indices_increase(idx, k1 + 1, k2);
    }
}

/// The message reported when the editor executable cannot be spawned.
pub open spec fn open_editor_failure_text(error: Seq<char>) -> Seq<char> {
    "Failed to open editor: "@ + error
}

pub fn open_editor_failure_message(error: &str) -> (r: String)
    ensures
        r@ == open_editor_failure_text(error@),
{
    concat2("Failed to open editor: ", error)
}

} // verus!
