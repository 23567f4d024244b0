//! Where a keystore file lies. A path that holds the marker `user://` is
//! taken below the host's user-data directory; any other path is taken as it
//! is written.

use vstd::prelude::*;
use vstd::string::*;

verus! {

/// The marker of the sandboxed storage namespace.
pub open spec fn user_marker() -> Seq<char> {
    "user://"@
}

/// Whether `marker` occurs in `text` at position `at`.
pub open spec fn occurs_at(text: Seq<char>, marker: Seq<char>, at: int) -> bool {
    0 <= at && at + marker.len() <= text.len() && text.subrange(at, at + marker.len()) == marker
}

/// Whether `marker` occurs somewhere in `text`.
pub open spec fn contains(text: Seq<char>, marker: Seq<char>) -> bool {
    exists|at: int| occurs_at(text, marker, at)
}

/// The file that a keystore path names: the path itself, or, where it holds
/// the marker, the whole path below the user-data directory.
pub open spec fn spec_resolve(path: Seq<char>, user_data_dir: Seq<char>) -> Seq<char> {
    if contains(path, user_marker()) {
        user_data_dir + seq!['/'] + path
    } else {
        path
    }
}

/// The characters of a string, in order.
pub fn chars_of(text: &str) -> (res: Vec<char>)
    ensures
        res@ == text@,
{
    let mut out: Vec<char> = Vec::new();
    for c in it: text.chars()
        invariant
            it.seq() == text@,
            out@ == text@.take(it.index() as int),
    {
        out.push(c);
        proof {
            let i = it.index() as int;
            assert(text@.take(i + 1) =~= text@.take(i).push(text@[i]));
        }
    }
    proof {
        assert(text@.take(text@.len() as int) =~= text@);
    }
    out
}

/// Whether `marker` occurs in `text` at position `at`.
fn matches_at(text: &Vec<char>, marker: &Vec<char>, at: usize) -> (res: bool)
    requires
        at + marker@.len() <= text@.len(),
    ensures
        res == occurs_at(text@, marker@, at as int),
{
    let mut k: usize = 0;
    while k < marker.len()
        invariant
            k <= marker@.len(),
            at + marker@.len() <= text.len(),
            forall|j: int| 0 <= j < k ==> text@[at + j] == marker@[j],
        decreases marker@.len() - k,
    {
        if text[at + k] != marker[k] {
            proof {
                let window = text@.subrange(at as int, at + marker@.len());
                assert(window[k as int] == text@[at + k]);
            }
            return false;
        }
        k += 1;
    }
    proof {
        assert(text@.subrange(at as int, at + marker@.len()) =~= marker@);
    }
    true
}

/// Whether `marker` occurs somewhere in `text`.
pub fn contains_marker(text: &Vec<char>, marker: &Vec<char>) -> (res: bool)
    ensures
        res == contains(text@, marker@),
{
    if marker.len() > text.len() {
        return false;
    }
    let last: usize = text.len() - marker.len();
    let mut at: usize = 0;
    loop
        invariant
            at <= last,
            last == text@.len() - marker@.len(),
            forall|j: int| 0 <= j < at ==> !occurs_at(text@, marker@, j),
        decreases last - at,
    {
        if matches_at(text, marker, at) {
            return true;
        }
        if at == last {
            return false;
        }
        at += 1;
    }
}

/// The file that a keystore path names: see [`spec_resolve`].
pub fn resolve_keystore_path(path: &str, user_data_dir: &str) -> (res: String)
    ensures
        res@ == spec_resolve(path@, user_data_dir@),
{
    let text = chars_of(path);
    let marker = chars_of("user://");
    if contains_marker(&text, &marker) {
        let below = String::from_str(user_data_dir).concat("/").concat(path);
        proof {
            reveal_strlit("/");
            assert("/"@ =~= seq!['/']);
        }
        below
    } else {
        String::from_str(path)
    }
}

} // verus!
