//! Window Locator: matches the OS window inventory against a title
//! substring.
//!
//! The inventory itself comes from the operating system and is handed in
//! as a list of descriptors; matching is first window whose title contains
//! the substring, case-sensitive, in inventory order, ties not broken
//! further. The byte-level containment below coincides with character
//! containment because both sides are valid UTF-8.

use vstd::prelude::*;
use vstd::string::StringSliceAdditionalSpecFns;
use vstd::utf8::encode_utf8;

verus! {

/// One visible window as the OS inventory reports it.
#[derive(Debug)]
pub struct WindowDescriptor {
    /// Opaque compositor identifier of the window.
    pub id: u32,
    /// The window's title text.
    pub title: String,
    /// Identifier of the process that owns the window.
    pub pid: i32,
    /// Reported width in pixels.
    pub width: u32,
    /// Reported height in pixels.
    pub height: u32,
}

/// The two ways a scan can fail: no title matched, or the OS inventory
/// query itself failed. Callers retry either; the split lets them say
/// which happened.
#[derive(Debug, Clone, Copy, PartialEq, Eq, Structural)]
pub enum ScanError {
    /// The inventory was available but held no matching title.
    NotFound,
    /// The OS refused or failed the inventory query.
    InventoryUnavailable,
}

impl WindowDescriptor {
    /// Field-for-field agreement; `Clone` and `find_target` promise it of
    /// their copies.
    pub open spec fn same_as(&self, other: &WindowDescriptor) -> bool {
        &&& self.id == other.id
        &&& self.title@ == other.title@
        &&& self.pid == other.pid
        &&& self.width == other.width
        &&& self.height == other.height
    }
}

impl Clone for WindowDescriptor {
    fn clone(&self) -> (r: WindowDescriptor)
        ensures
            r.same_as(self),
    {
        WindowDescriptor {
            id: self.id,
            title: self.title.clone(),
            pid: self.pid,
            width: self.width,
            height: self.height,
        }
    }
}

/// The needle occurs in the haystack starting at position `i`.
pub open spec fn occurs_at(hay: Seq<u8>, needle: Seq<u8>, i: int) -> bool {
    &&& 0 <= i
    &&& i + needle.len() <= hay.len()
    &&& hay.subrange(i, i + needle.len()) == needle
}

/// The needle occurs somewhere in the haystack.
pub open spec fn contains_bytes(hay: Seq<u8>, needle: Seq<u8>) -> bool {
    exists|i: int| occurs_at(hay, needle, i)
}

/// A window matches when its title contains the pattern's bytes.
pub open spec fn title_matches(w: WindowDescriptor, pat: Seq<u8>) -> bool {
    contains_bytes(encode_utf8(w.title@), pat)
}

/// Position of the first matching window in the inventory, if any.
pub open spec fn first_match(ws: Seq<WindowDescriptor>, pat: Seq<u8>) -> Option<int>
    decreases ws.len(),
{
    if ws.len() == 0 {
        None
    } else if title_matches(ws[0], pat) {
        Some(0)
    } else {
        match first_match(ws.drop_first(), pat) {
            Some(i) => Some(i + 1),
            None => None,
        }
    }
}

/// `first_match` is exactly "no earlier window matches, this one does":
/// if nothing before `i` matches and `i` does, the first match is `i`;
/// if nothing at all matches, there is none.
pub proof fn lemma_first_match_at(ws: Seq<WindowDescriptor>, pat: Seq<u8>, i: int)
    requires
        0 <= i <= ws.len(),
        forall|k: int| 0 <= k < i ==> !#[trigger] title_matches(ws[k], pat),
        i < ws.len() ==> title_matches(ws[i], pat),
    ensures
        i < ws.len() ==> first_match(ws, pat) == Some(i),
        i == ws.len() ==> first_match(ws, pat) is None,
    decreases ws.len(),
{
    if ws.len() > 0 {
        if i == 0 {
        } else {
            assert(!title_matches(ws[0], pat));
            lemma_first_match_at(ws.drop_first(), pat, i - 1);
            assert(forall|k: int|
                0 <= k < i - 1 ==> ws.drop_first()[k] == ws[k + 1]);
        }
    }
}

/// Whether `needle` occurs in `hay` at position `i`.
fn occurs_at_exec(hay: &[u8], needle: &[u8], i: usize) -> (b: bool)
    requires
        i + needle@.len() <= hay@.len(),
    ensures
        b == occurs_at(hay@, needle@, i as int),
{
    let hay_len = hay.len();
    let mut j: usize = 0;
    while j < needle.len()
        invariant
            hay@.len() == hay_len,
            i + needle@.len() <= hay@.len(),
            j <= needle@.len(),
            forall|k: int| 0 <= k < j ==> hay@[i + k] == needle@[k],
        decreases needle@.len() - j,
    {
        if hay[i + j] != needle[j] {
            assert(hay@.subrange(i as int, i + needle@.len())[j as int] == hay@[i + j]);
            return false;
        }
        j = j + 1;
    }
    assert(hay@.subrange(i as int, i + needle@.len()) =~= needle@);
    true
}

/// Whether the byte string `needle` occurs anywhere in `hay`.
fn contains_bytes_exec(hay: &[u8], needle: &[u8]) -> (b: bool)
    ensures
        b == contains_bytes(hay@, needle@),
{
    if needle.len() > hay.len() {
        return false;
    }
    if needle.len() == 0 {
        assert(hay@.subrange(0, 0) =~= needle@);
        assert(occurs_at(hay@, needle@, 0));
        return true;
    }
    let hay_len = hay.len();
    let last: usize = hay.len() - needle.len();
    let mut i: usize = 0;
    while i <= last
        invariant
            hay@.len() == hay_len,
            1 <= needle@.len() <= hay@.len(),
            last == hay@.len() - needle@.len(),
            i <= last + 1,
            forall|k: int| 0 <= k < i ==> !occurs_at(hay@, needle@, k),
        decreases last + 1 - i,
    {
        if occurs_at_exec(hay, needle, i) {
            return true;
        }
        i = i + 1;
    }
    false
}

/// Whether `hay` contains `needle`, byte for byte, case-sensitive.
pub fn str_contains(hay: &str, needle: &str) -> (b: bool)
    ensures
        b == contains_bytes(encode_utf8(hay@), encode_utf8(needle@)),
{
    contains_bytes_exec(hay.as_bytes(), needle.as_bytes())
}

/// Finds the target window: the first descriptor in inventory order whose
/// title contains `title_substring`, case-sensitive. Returns a copy of
/// that descriptor, or `NotFound` when no title matches. Reads nothing
/// but its arguments and is safe to call repeatedly.
pub fn find_target(windows: &Vec<WindowDescriptor>, title_substring: &str) -> (r: Result<
    WindowDescriptor,
    ScanError,
>)
    ensures
        match r {
            Ok(w) => {
                &&& first_match(windows@, encode_utf8(title_substring@)) matches Some(i)
                    && w.same_as(&windows@[i])
            },
            Err(e) => {
                &&& e == ScanError::NotFound
                &&& first_match(windows@, encode_utf8(title_substring@)) is None
            },
        },
{
    let ghost pat = encode_utf8(title_substring@);
    let mut i: usize = 0;
    while i < windows.len()
        invariant
            pat == encode_utf8(title_substring@),
            i <= windows@.len(),
            forall|k: int| 0 <= k < i ==> !#[trigger] title_matches(windows@[k], pat),
        decreases windows@.len() - i,
    {
        let w = &windows[i];
        let title = w.title.as_str();
        let matched = str_contains(title, title_substring);
        if matched {
            proof {
                lemma_first_match_at(windows@, pat, i as int);
            }
            return Ok(w.clone());
        }
        i = i + 1;
    }
    proof {
        lemma_first_match_at(windows@, pat, windows@.len() as int);
    }
    Err(ScanError::NotFound)
}

} // verus!
