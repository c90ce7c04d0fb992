//! Collision-free destination names for moving a file into a category folder.
use vstd::prelude::*;
use crate::classifier::{extension_of, lemma_last_dot_bounds, split_file_name, stem_of};
use crate::text::{decimal, decimal_string, digit_char, text_eq};

verus! {

/// The largest numeric suffix tried before a move gives up.
pub const MAX_NAME_SUFFIX: u64 = 1000;

/// Why no destination could be planned.
#[derive(Debug, Clone, Copy, PartialEq, Eq, Structural)]
pub enum MoveError {
    /// The name and all of its numbered variants up to the limit are taken.
    NoFreeName,
}

/// `name` with the numeric suffix `k` put before its extension: `a_1.txt`, `notes_2`.
pub open spec fn numbered_name(name: Seq<char>, k: nat) -> Seq<char> {
    match extension_of(name) {
        Some(e) => stem_of(name) + seq!['_'] + decimal(k) + seq!['.'] + e,
        None => stem_of(name) + seq!['_'] + decimal(k),
    }
}

/// The `k`-th name tried for a file called `name`: the name itself first, then `name_1`, `name_2`, ...
pub open spec fn candidate(name: Seq<char>, k: nat) -> Seq<char> {
    if k == 0 {
        name
    } else {
        numbered_name(name, k)
    }
}

/// Some entry of `occupied` is `s`.
pub open spec fn taken(occupied: Seq<String>, s: Seq<char>) -> bool {
    exists|i: int| 0 <= i < occupied.len() && #[trigger] occupied[i]@ == s
}

/// Slot `k` is the first free one: within the limit, not taken, and every earlier one taken.
pub open spec fn first_free_slot(name: Seq<char>, occupied: Seq<String>, k: nat) -> bool {
    &&& k <= MAX_NAME_SUFFIX
    &&& !taken(occupied, candidate(name, k))
    &&& forall|j: nat| j < k ==> taken(occupied, #[trigger] candidate(name, j))
}

/// The name of the `k`-th candidate for the file called `name`.
pub fn candidate_name(name: &str, k: u64) -> (r: String)
    ensures
        r@ == candidate(name@, k as nat),
{
    if k == 0 {
        return String::from_str(name);
    }
    let (stem, ext) = split_file_name(name);
    proof {
        reveal_strlit("_");
        reveal_strlit(".");
    }
    let number = decimal_string(k);
    let mut r = stem;
    r.append("_");
    r.append(number.as_str());
    match ext {
        Some(e) => {
            r.append(".");
            r.append(e.as_str());
        },
        None => {},
    }
    r
}

/// Whether some entry of `occupied` is `s`.
pub fn is_taken(occupied: &Vec<String>, s: &str) -> (r: bool)
    ensures
        r == taken(occupied@, s@),
{
    let mut i: usize = 0;
    while i < occupied.len()
        invariant
            i <= occupied@.len(),
            forall|j: int| 0 <= j < i ==> occupied@[j]@ != s@,
        decreases occupied@.len() - i,
    {
        if text_eq(occupied[i].as_str(), s) {
            return true;
        }
        i = i + 1;
    }
    false
}

/// The name under which a file called `file_name` lands in a folder that already holds
/// the names `occupied`: the name itself when free, else the first free of `name_1`,
/// `name_2`, ... (the suffix goes before the extension). Fails when every suffix up to
/// `MAX_NAME_SUFFIX` is taken.
pub fn plan_destination(file_name: &str, occupied: &Vec<String>) -> (r: Result<String, MoveError>)
    ensures
        match r {
            Ok(dest) => exists|k: nat| first_free_slot(file_name@, occupied@, k) && dest@ == candidate(file_name@, k),
            Err(e) => e == MoveError::NoFreeName && forall|k: nat| k <= MAX_NAME_SUFFIX ==> taken(occupied@, #[trigger] candidate(file_name@, k)),
        },
{
    let mut k: u64 = 0;
    while k <= MAX_NAME_SUFFIX
        invariant
            k <= MAX_NAME_SUFFIX + 1,
            forall|j: nat| j < k ==> taken(occupied@, #[trigger] candidate(file_name@, j)),
        decreases MAX_NAME_SUFFIX + 1 - k,
    {
        let c = candidate_name(file_name, k);
        if !is_taken(occupied, c.as_str()) {
            assert(first_free_slot(file_name@, occupied@, k as nat));
            return Ok(c);
        }
        k = k + 1;
    }
    Err(MoveError::NoFreeName)
}

proof fn lemma_digit_char_injective(a: nat, b: nat)
    requires
        a < 10,
        b < 10,
        digit_char(a) == digit_char(b),
    ensures
        a == b,
{
}

proof fn lemma_decimal_len(n: nat)
    ensures
        decimal(n).len() >= 1,
        n >= 10 ==> decimal(n).len() >= 2,
    decreases n,
{
    if n >= 10 {
        lemma_decimal_len(n / 10);
    }
}

/// Different numbers have different decimal notations.
pub proof fn lemma_decimal_injective(a: nat, b: nat)
    requires
        decimal(a) == decimal(b),
    ensures
        a == b,
    decreases a,
{
    lemma_decimal_len(a);
    lemma_decimal_len(b);
    if a < 10 && b < 10 {
        assert(decimal(a)[0] == digit_char(a));
        assert(decimal(b)[0] == digit_char(b));
        lemma_digit_char_injective(a, b);
    } else if a >= 10 && b >= 10 {
        let da = decimal(a);
        let db = decimal(b);
        assert(da.last() == digit_char(a % 10));
        assert(db.last() == digit_char(b % 10));
        lemma_digit_char_injective(a % 10, b % 10);
        assert(da.drop_last() =~= decimal(a / 10));
        assert(db.drop_last() =~= decimal(b / 10));
        lemma_decimal_injective(a / 10, b / 10);
    }
}

/// Distinct slots give distinct names, so no suffix is ever used twice.
pub proof fn lemma_candidates_distinct(name: Seq<char>, j: nat, k: nat)
    requires
        j != k,
    ensures
        candidate(name, j) != candidate(name, k),
{
    if j == 0 || k == 0 {
        let m = if j == 0 { k } else { j };
        lemma_decimal_len(m);
        lemma_last_dot_bounds(name);
        assert(candidate(name, m).len() > name.len());
    } else {
        let s = stem_of(name);
        let dj = decimal(j);
        let dk = decimal(k);
        if candidate(name, j) == candidate(name, k) {
            let cj = candidate(name, j);
            let ck = candidate(name, k);
            let p: int = s.len() as int + 1;
            match extension_of(name) {
                Some(e) => {
                    assert(cj.len() == p + dj.len() + 1 + e.len());
                    assert(ck.len() == p + dk.len() + 1 + e.len());
                    assert(dj.len() == dk.len());
                    assert(cj.subrange(p, p + dj.len()) =~= dj);
                    assert(ck.subrange(p, p + dk.len()) =~= dk);
                },
                None => {
                    assert(cj.subrange(p, cj.len() as int) =~= dj);
                    assert(ck.subrange(p, ck.len() as int) =~= dk);
                },
            }
            lemma_decimal_injective(j, k);
        }
    }
}

/// Moving several files of one name into one folder, one after another, fills the slots
/// `name`, `name_1`, `name_2`, ... in order: when the first `k` slots are taken and slot
/// `k` is free, slot `k` is the only first free slot, so the move lands there, and its
/// name differs from every earlier slot's.
pub proof fn lemma_collisions_fill_in_order(name: Seq<char>, occupied: Seq<String>, k: nat)
    requires
        k <= MAX_NAME_SUFFIX,
        forall|j: nat| j < k ==> taken(occupied, #[trigger] candidate(name, j)),
        !taken(occupied, candidate(name, k)),
    ensures
        first_free_slot(name, occupied, k),
        forall|k2: nat| first_free_slot(name, occupied, k2) ==> k2 == k,
        forall|j: nat| j < k ==> #[trigger] candidate(name, j) != candidate(name, k),
{
    assert forall|k2: nat| first_free_slot(name, occupied, k2) implies k2 == k by {
        if k2 < k {
            assert(taken(occupied, candidate(name, k2)));
        } else if k2 > k {
            assert(taken(occupied, candidate(name, k)));
        }
    }
    assert forall|j: nat| j < k implies #[trigger] candidate(name, j) != candidate(name, k) by {
        lemma_candidates_distinct(name, j, k);
    }
}

} // verus!
