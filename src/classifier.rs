//! Extension-based classification of file names into categories.
use vstd::prelude::*;
use crate::text::{lower_of, lowercase, rfind_char, text_eq};

verus! {

/// Position of the last `.` in `s`, or -1 when there is none.
pub open spec fn last_dot(s: Seq<char>) -> int
    decreases s.len(),
{
    if s.len() == 0 {
        -1
    } else if s.last() == '.' {
        s.len() - 1
    } else {
        last_dot(s.drop_last())
    }
}

/// The extension of a file name: what follows its last `.`, unless that dot is
/// the first character or there is none (`.bashrc` and `notes` have no extension).
pub open spec fn extension_of(name: Seq<char>) -> Option<Seq<char>> {
    let d = last_dot(name);
    if d <= 0 {
        None
    } else {
        Some(name.subrange(d + 1, name.len() as int))
    }
}

/// The stem of a file name: the name without its extension and the dot before it.
pub open spec fn stem_of(name: Seq<char>) -> Seq<char> {
    let d = last_dot(name);
    if d <= 0 {
        name
    } else {
        name.subrange(0, d)
    }
}

/// The key a file name is classified by: its extension, lowercased and prefixed with a dot.
pub open spec fn extension_key(name: Seq<char>) -> Option<Seq<char>> {
    match extension_of(name) {
        Some(e) => Some(seq!['.'] + lower_of(e)),
        None => None,
    }
}

/// Some entry of `exts` is `key`.
pub open spec fn claims(exts: Seq<String>, key: Seq<char>) -> bool {
    exists|j: int| 0 <= j < exts.len() && #[trigger] exts[j]@ == key
}

/// The name of the first category, in rule order, whose extension list holds `key`.
pub open spec fn category_for(cats: Seq<(String, Vec<String>)>, key: Seq<char>) -> Option<Seq<char>>
    decreases cats.len(),
{
    if cats.len() == 0 {
        None
    } else if claims(cats[0].1@, key) {
        Some(cats[0].0@)
    } else {
        category_for(cats.drop_first(), key)
    }
}

/// The category of a file name under the rules `cats`: none without an extension,
/// else the first category claiming its extension key.
pub open spec fn classification(cats: Seq<(String, Vec<String>)>, name: Seq<char>) -> Option<Seq<char>> {
    match extension_key(name) {
        Some(k) => category_for(cats, k),
        None => None,
    }
}

/// The last dot lies inside the string, or is -1.
pub proof fn lemma_last_dot_bounds(s: Seq<char>)
    ensures
        -1 <= last_dot(s) < s.len(),
    decreases s.len(),
{
    if s.len() > 0 && s.last() != '.' {
        lemma_last_dot_bounds(s.drop_last());
    }
}

pub(crate) proof fn lemma_last_dot_at(s: Seq<char>, i: int)
    requires
        0 <= i < s.len(),
        s[i] == '.',
        forall|j: int| i < j < s.len() ==> s[j] != '.',
    ensures
        last_dot(s) == i,
    decreases s.len(),
{
    if i != s.len() - 1 {
        let t = s.drop_last();
        assert forall|j: int| i < j < t.len() implies t[j] != '.' by {
            assert(t[j] == s[j]);
        }
        lemma_last_dot_at(t, i);
    }
}

pub(crate) proof fn lemma_no_dot(s: Seq<char>)
    requires
        forall|j: int| 0 <= j < s.len() ==> s[j] != '.',
    ensures
        last_dot(s) == -1,
    decreases s.len(),
{
    if s.len() > 0 {
        let t = s.drop_last();
        assert forall|j: int| 0 <= j < t.len() implies t[j] != '.' by {
            assert(t[j] == s[j]);
        }
        lemma_no_dot(t);
    }
}

/// Splits a file name into its stem and its extension, the way file paths do.
pub fn split_file_name(name: &str) -> (r: (String, Option<String>))
    ensures
        r.0@ == stem_of(name@),
        match r.1 {
            Some(e) => extension_of(name@) == Some(e@),
            None => extension_of(name@) is None,
        },
{
    let n = name.unicode_len();
    match rfind_char(name, '.') {
        Some(d) => {
            proof {
                lemma_last_dot_at(name@, d as int);
            }
            if d == 0 {
                (String::from_str(name), None)
            } else {
                let stem = String::from_str(name.substring_char(0, d));
                let ext = String::from_str(name.substring_char(d + 1, n));
                (stem, Some(ext))
            }
        },
        None => {
            proof {
                lemma_no_dot(name@);
            }
            (String::from_str(name), None)
        },
    }
}

/// The classification key of a file name (`.pdf` for `Report.PDF`), if it has an extension.
pub fn file_extension_key(name: &str) -> (r: Option<String>)
    ensures
        match r {
            Some(k) => extension_key(name@) == Some(k@),
            None => extension_key(name@) is None,
        },
{
    let (_stem, ext) = split_file_name(name);
    match ext {
        Some(e) => {
            let lower = lowercase(e.as_str());
            let key = String::from_str(".").concat(lower.as_str());
            proof {
                reveal_strlit(".");
            }
            Some(key)
        },
        None => None,
    }
}

/// Whether `key` is one of `exts`.
fn list_claims(exts: &Vec<String>, key: &str) -> (r: bool)
    ensures
        r == claims(exts@, key@),
{
    let mut j: usize = 0;
    while j < exts.len()
        invariant
            j <= exts@.len(),
            forall|i: int| 0 <= i < j ==> exts@[i]@ != key@,
        decreases exts@.len() - j,
    {
        if text_eq(exts[j].as_str(), key) {
            return true;
        }
        j = j + 1;
    }
    false
}

/// The first category, in rule order, whose extension list holds `key`.
/// `key` is an extension key such as `.pdf`; it is compared exactly.
pub fn classify_extension(key: &str, categories: &Vec<(String, Vec<String>)>) -> (r: Option<String>)
    ensures
        match r {
            Some(c) => category_for(categories@, key@) == Some(c@),
            None => category_for(categories@, key@) is None,
        },
{
    let mut i: usize = 0;
    assert(categories@.skip(0) =~= categories@);
    while i < categories.len()
        invariant
            i <= categories@.len(),
            category_for(categories@, key@) == category_for(categories@.skip(i as int), key@),
        decreases categories@.len() - i,
    {
        let ghost rest = categories@.skip(i as int);
        assert(rest.drop_first() =~= categories@.skip(i + 1));
        if list_claims(&categories[i].1, key) {
            return Some(categories[i].0.clone());
        }
        i = i + 1;
    }
    assert(categories@.skip(i as int).len() == 0);
    None
}

/// The category of the file called `file_name`: none when it has no extension or when
/// no category claims its extension; otherwise the first category in rule order that does.
/// The extension is compared lowercased and with a leading dot.
pub fn classify(file_name: &str, categories: &Vec<(String, Vec<String>)>) -> (r: Option<String>)
    ensures
        match r {
            Some(c) => classification(categories@, file_name@) == Some(c@),
            None => classification(categories@, file_name@) is None,
        },
{
    match file_extension_key(file_name) {
        Some(key) => classify_extension(key.as_str(), categories),
        None => None,
    }
}

/// When exactly one category claims a key, that category is the one chosen;
/// when none does, no category is chosen.
pub proof fn lemma_sole_owner(cats: Seq<(String, Vec<String>)>, key: Seq<char>, k: int)
    requires
        0 <= k < cats.len(),
        claims(cats[k].1@, key),
        forall|j: int| 0 <= j < cats.len() && j != k ==> !claims(#[trigger] cats[j].1@, key),
    ensures
        category_for(cats, key) == Some(cats[k].0@),
    decreases cats.len(),
{
    if k > 0 {
        let t = cats.drop_first();
        assert(!claims(cats[0].1@, key));
        assert forall|j: int| 0 <= j < t.len() && j != k - 1 implies !claims(#[trigger] t[j].1@, key) by {
            assert(t[j] == cats[j + 1]);
        }
        lemma_sole_owner(t, key, k - 1);
    }
}

/// No category is chosen for a key that no category claims.
pub proof fn lemma_no_owner(cats: Seq<(String, Vec<String>)>, key: Seq<char>)
    requires
        forall|j: int| 0 <= j < cats.len() ==> !claims(#[trigger] cats[j].1@, key),
    ensures
        category_for(cats, key) is None,
    decreases cats.len(),
{
    if cats.len() > 0 {
        let t = cats.drop_first();
        assert(!claims(cats[0].1@, key));
        assert forall|j: int| 0 <= j < t.len() implies !claims(#[trigger] t[j].1@, key) by {
            assert(t[j] == cats[j + 1]);
        }
        lemma_no_owner(t, key);
    }
}

/// A file whose extension key is claimed by exactly one category is classified into
/// that category; a file without an extension, or whose key no category claims, into none.
pub proof fn lemma_classify_by_sole_owner(cats: Seq<(String, Vec<String>)>, name: Seq<char>)
    ensures
        forall|k: int|
            #![trigger cats[k]]
            extension_key(name) is Some && 0 <= k < cats.len() && claims(cats[k].1@, extension_key(name)->0)
                && (forall|j: int| 0 <= j < cats.len() && j != k ==> !claims(#[trigger] cats[j].1@, extension_key(name)->0))
                ==> classification(cats, name) == Some(cats[k].0@),
        extension_key(name) is None ==> classification(cats, name) is None,
        extension_key(name) is Some && (forall|j: int| 0 <= j < cats.len() ==> !claims(#[trigger] cats[j].1@, extension_key(name)->0))
            ==> classification(cats, name) is None,
{
    if extension_key(name) is Some {
        let key = extension_key(name)->0;
        assert forall|k: int|
            #![trigger cats[k]]
            0 <= k < cats.len() && claims(cats[k].1@, key)
                && (forall|j: int| 0 <= j < cats.len() && j != k ==> !claims(#[trigger] cats[j].1@, key))
                implies classification(cats, name) == Some(cats[k].0@) by {
            lemma_sole_owner(cats, key, k);
        }
        if forall|j: int| 0 <= j < cats.len() ==> !claims(#[trigger] cats[j].1@, key) {
            lemma_no_owner(cats, key);
        }
    }
}

} // verus!
