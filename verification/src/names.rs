//! How a category becomes a buffer's name, and how paths and git reference
//! names are put together from the settings.

use vstd::prelude::*;
use vstd::string::*;
use crate::clock::{get_now_for_name, is_name_stamp};
use crate::config::Config;

verus! {

/// Directory, below the buffer directory, of the buffers that belong to no
/// known category.
pub const OVERFLOW_DIR: &'static str = "nobuffer";

/// Name of the remote that the mirror was cloned from.
pub const REMOTE_NAME: &'static str = "origin";

/// The buffer of each known category; `None` for every other text.
pub open spec fn canonical_name(category: Seq<char>) -> Option<Seq<char>> {
    if category == "Places"@ {
        Some("places.md"@)
    } else if category == "TTM"@ {
        Some("ttm.md"@)
    } else if category == "Misc"@ {
        Some("misc.md"@)
    } else if category == "Food"@ {
        Some("food.md"@)
    } else {
        None
    }
}

/// Name of the unsorted buffer made at the minute that `stamp` stands for.
pub open spec fn overflow_name(stamp: Seq<char>) -> Seq<char> {
    OVERFLOW_DIR@ + "/"@ + stamp + ".md"@
}

/// The buffer that a category resolves to at a given minute.
pub open spec fn resolved_name(category: Seq<char>, stamp: Seq<char>) -> Seq<char> {
    match canonical_name(category) {
        Some(name) => name,
        None => overflow_name(stamp),
    }
}

/// `refs/heads/<branch>`, the full name of a local branch.
pub open spec fn local_ref(branch: Seq<char>) -> Seq<char> {
    "refs/heads/"@ + branch
}

/// `refs/remotes/origin/<branch>`, the reference that tracks the remote's branch.
pub open spec fn tracking_ref(branch: Seq<char>) -> Seq<char> {
    "refs/remotes/"@ + REMOTE_NAME@ + "/"@ + branch
}

/// The refspec that sends a local branch to the remote branch of the same name.
pub open spec fn refspec(branch: Seq<char>) -> Seq<char> {
    local_ref(branch) + ":"@ + local_ref(branch)
}

/// `<dir>/<name>`.
pub open spec fn joined(dir: Seq<char>, name: Seq<char>) -> Seq<char> {
    dir + "/"@ + name
}

/// Whether two texts are the same.
fn same_text(a: &str, b: &str) -> (r: bool)
    ensures
        r == (a@ == b@),
{
    let x = String::from_str(a);
    let y = String::from_str(b);
    x == y
}

/// The buffer of a known category, if `category` is one.
pub fn known_buffer(category: &str) -> (name: Option<String>)
    ensures
        match canonical_name(category@) {
            Some(n) => name matches Some(s) && s@ == n,
            None => name is None,
        },
{
    if same_text(category, "Places") {
        Some(String::from_str("places.md"))
    } else if same_text(category, "TTM") {
        Some(String::from_str("ttm.md"))
    } else if same_text(category, "Misc") {
        Some(String::from_str("misc.md"))
    } else if same_text(category, "Food") {
        Some(String::from_str("food.md"))
    } else {
        None
    }
}

/// The buffer that `buf_text` resolves to when the clock shows `stamp`: the
/// fixed buffer of a known category, else an unsorted buffer named by the
/// stamp.
pub fn resolve_buffer_at(buf_text: &str, stamp: &str) -> (name: String)
    ensures
        name@ == resolved_name(buf_text@, stamp@),
{
    match known_buffer(buf_text) {
        Some(name) => name,
        None => {
            let mut name = String::from_str(OVERFLOW_DIR);
            name.append("/");
            name.append(stamp);
            name.append(".md");
            name
        },
    }
}

/// The buffer that a category resolves to now. A known category always gives
/// its fixed buffer; any other gives an unsorted buffer named by the current
/// local minute.
pub fn resolve_buffer(buf_text: &String) -> (name: String)
    ensures
        match canonical_name(buf_text@) {
            Some(n) => name@ == n,
            None => exists|stamp: Seq<char>|
                is_name_stamp(stamp) && name@ == #[trigger] overflow_name(stamp),
        },
{
    match known_buffer(buf_text.as_str()) {
        Some(name) => name,
        None => {
            let stamp = get_now_for_name();
            let name = resolve_buffer_at(buf_text.as_str(), stamp.as_str());
            assert(name@ == overflow_name(stamp@));
            name
        },
    }
}

/// Full name of the local branch `branch`.
pub fn branch_ref(branch: &str) -> (name: String)
    ensures
        name@ == local_ref(branch@),
{
    let mut name = String::from_str("refs/heads/");
    name.append(branch);
    name
}

/// Name of the reference that tracks `branch` on the remote.
pub fn remote_branch_ref(branch: &str) -> (name: String)
    ensures
        name@ == tracking_ref(branch@),
{
    let mut name = String::from_str("refs/remotes/");
    name.append(REMOTE_NAME);
    name.append("/");
    name.append(branch);
    name
}

/// The refspec that pushes `branch` to the branch of the same name.
pub fn push_refspec(branch: &str) -> (spec: String)
    ensures
        spec@ == refspec(branch@),
{
    let mut spec = branch_ref(branch);
    let target = branch_ref(branch);
    spec.append(":");
    spec.append(target.as_str());
    spec
}

/// Path of a buffer inside the mirror, relative to the mirror's root: the
/// path that is staged.
pub fn buffer_index_path(conf: &Config, buf_name: &str) -> (path: String)
    ensures
        path@ == joined(conf.buffer_dir_rel@, buf_name@),
{
    let mut path = conf.buffer_dir_rel.clone();
    path.append("/");
    path.append(buf_name);
    path
}

/// Path of a buffer in the file system: the path that is written to.
pub fn buffer_file_path(conf: &Config, buf_name: &str) -> (path: String)
    ensures
        path@ == joined(conf.local_dir@, joined(conf.buffer_dir_rel@, buf_name@)),
{
    let mut path = conf.local_dir.clone();
    path.append("/");
    path.append(conf.buffer_dir_rel.as_str());
    path.append("/");
    path.append(buf_name);
    path
}

/// A known category resolves to the same buffer at every minute: the clock
/// has no part in it.
pub proof fn lemma_known_category_ignores_clock(
    category: Seq<char>,
    stamp_a: Seq<char>,
    stamp_b: Seq<char>,
)
    requires
        canonical_name(category) is Some,
    ensures
        resolved_name(category, stamp_a) == resolved_name(category, stamp_b),
        resolved_name(category, stamp_a) == canonical_name(category)->0,
{
}

/// Any other category resolves to a name that lies in the overflow
/// directory, holds the stamp right after the directory, and ends in `.md`.
pub proof fn lemma_unknown_category_overflows(category: Seq<char>, stamp: Seq<char>)
    requires
        canonical_name(category) is None,
    ensures
        (OVERFLOW_DIR@ + "/"@).is_prefix_of(resolved_name(category, stamp)),
        resolved_name(category, stamp).subrange(9, 9 + stamp.len() as int) == stamp,
        resolved_name(category, stamp).skip(9 + stamp.len() as int) == ".md"@,
{
    reveal_strlit("nobuffer");
    reveal_strlit("/");
    let name = resolved_name(category, stamp);
    assert(name == (OVERFLOW_DIR@ + "/"@) + (stamp + ".md"@));
    assert((OVERFLOW_DIR@ + "/"@).len() == 9);
    assert(name.subrange(9, 9 + stamp.len() as int) == stamp);
    assert(name.skip(9 + stamp.len() as int) == ".md"@);
}

/// An unsorted buffer is never mistaken for the buffer of a known category.
pub proof fn lemma_overflow_is_no_known_buffer(category: Seq<char>, stamp: Seq<char>)
    requires
        canonical_name(category) is Some,
    ensures
        overflow_name(stamp) != canonical_name(category)->0,
{
    reveal_strlit("nobuffer");
    reveal_strlit("/");
    reveal_strlit("places.md");
    reveal_strlit("ttm.md");
    reveal_strlit("misc.md");
    reveal_strlit("food.md");
    let name = overflow_name(stamp);
    assert(name == (OVERFLOW_DIR@ + "/"@) + (stamp + ".md"@));
    assert(name[8] == '/');
    assert(name.len() >= 9);
}

/// Two categories that are both unknown resolve to the same buffer within
/// one minute: their notes end up in one file.
pub proof fn lemma_unknown_categories_share_a_minute(
    category_a: Seq<char>,
    category_b: Seq<char>,
    stamp: Seq<char>,
)
    requires
        canonical_name(category_a) is None,
        canonical_name(category_b) is None,
    ensures
        resolved_name(category_a, stamp) == resolved_name(category_b, stamp),
{
}

} // verus!
