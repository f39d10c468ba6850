//! Object keys: `"<album>/<file name>"`, and the way back from a key to a
//! local file name.

use vstd::prelude::*;

verus! {

/// The key under which an image of an album is stored: the album name, a
/// forward slash, and the image's file name.
pub open spec fn spec_object_key(album: Seq<char>, name: Seq<char>) -> Seq<char> {
    album + seq!['/'] + name
}

/// Builds the object key for `name` within `album`.
pub fn object_key(album: &str, name: &str) -> (r: String)
    ensures
        r@ == spec_object_key(album@, name@),
{
    proof {
        reveal_strlit("/");
    }
    let mut s = String::from_str(album);
    s.append("/");
    s.append(name);
    proof {
        assert(s@ =~= spec_object_key(album@, name@));
    }
    s
}

/// Index of the first `'/'` in `s`, or `-1` if there is none.
pub open spec fn spec_first_slash(s: Seq<char>) -> int
    decreases s.len(),
{
    if s.len() == 0 {
        -1
    } else if s[0] == '/' {
        0
    } else if spec_first_slash(s.drop_first()) == -1 {
        -1
    } else {
        1 + spec_first_slash(s.drop_first())
    }
}

/// `spec_first_slash` names the least index holding a `'/'`, or `-1` when no
/// character of `s` is a `'/'`.
pub proof fn lemma_first_slash(s: Seq<char>)
    ensures
        -1 <= spec_first_slash(s) < s.len(),
        spec_first_slash(s) == -1 ==> forall|j: int| 0 <= j < s.len() ==> s[j] != '/',
        spec_first_slash(s) >= 0 ==> s[spec_first_slash(s)] == '/',
        forall|j: int| 0 <= j < spec_first_slash(s) ==> s[j] != '/',
    decreases s.len(),
{
    if s.len() > 0 && s[0] != '/' {
        let t = s.drop_first();
        lemma_first_slash(t);
        if spec_first_slash(t) == -1 {
            assert forall|j: int| 0 <= j < s.len() implies s[j] != '/' by {
                if j >= 1 {
                    assert(t[j - 1] != '/');
                    assert(s[j] == t[j - 1]);
                }
            }
        } else {
            assert(s[spec_first_slash(s)] == t[spec_first_slash(t)]);
            assert forall|j: int| 0 <= j < spec_first_slash(s) implies s[j] != '/' by {
                if j >= 1 {
                    assert(t[j - 1] != '/');
                    assert(s[j] == t[j - 1]);
                }
            }
        }
    }
}

/// The local file name for a downloaded object: the characters after the
/// first `'/'` of the key, or the whole key if it holds none.
pub open spec fn spec_local_name(key: Seq<char>) -> Seq<char> {
    let d = spec_first_slash(key);
    if d >= 0 {
        key.subrange(d + 1, key.len() as int)
    } else {
        key
    }
}

/// Strips the album prefix from an object key, yielding the local file name
/// the object is written under.
pub fn local_filename(key: &str) -> (r: String)
    ensures
        r@ == spec_local_name(key@),
{
    let len = key.unicode_len();
    let mut i: usize = 0;
    while i < len
        invariant
            len == key@.len(),
            i <= len,
            forall|j: int| 0 <= j < i ==> key@[j] != '/',
        decreases len - i,
    {
        if key.get_char(i) == '/' {
            proof {
                lemma_first_slash(key@);
                let d = spec_first_slash(key@);
                if d < i as int {
                    assert(key@[d] == '/');
                    assert(key@[d] != '/');
                } else if d > i as int {
                    assert(key@[i as int] != '/');
                }
                assert(d == i as int);
            }
            let rest = key.substring_char(i + 1, len);
            return String::from_str(rest);
        }
        i += 1;
    }
    proof {
        lemma_first_slash(key@);
        let d = spec_first_slash(key@);
        if d >= 0 {
            assert(key@[d] == '/');
            assert(key@[d] != '/');
        }
    }
    String::from_str(key)
}

/// Law: a key built from a slash-free album name comes apart again. The file
/// name that `local_filename` derives from `object_key(album, name)` is
/// exactly `name`, so a download restores every uploaded image under its
/// original file name.
pub proof fn lemma_key_round_trip(album: Seq<char>, name: Seq<char>)
    requires
        forall|i: int| 0 <= i < album.len() ==> album[i] != '/',
    ensures
        spec_local_name(spec_object_key(album, name)) == name,
{
    let key = spec_object_key(album, name);
    lemma_first_slash(key);
    let d = spec_first_slash(key);
    assert(key[album.len() as int] == '/');
    if d < album.len() {
        if d == -1 {
            assert(key[album.len() as int] != '/');
            assert(false);
        } else {
            assert(key[d] == '/');
            assert(album[d] == key[d]);
            assert(false);
        }
    } else if d > album.len() {
        assert(key[album.len() as int] != '/');
        assert(false);
    }
    assert(d == album.len() as int);
    assert(key.subrange(d + 1, key.len() as int) =~= name);
}

} // verus!
