//! The nine-character permission string of a POSIX mode.
use vstd::prelude::*;
use vstd::string::StringExecFns;

verus! {

/// The mode bit for class `k` (0 owner, 1 group, 2 other) and right `i`
/// (0 read, 1 write, 2 execute): 0o400, 0o200, 0o100, 0o040, ..., 0o001.
pub open spec fn perm_mask(k: int, i: int) -> u32 {
    let right: u32 = if i == 0 {
        4
    } else if i == 1 {
        2
    } else {
        1
    };
    let class: u32 = if k == 0 {
        64
    } else if k == 1 {
        8
    } else {
        1
    };
    (right * class) as u32
}

/// The letter of right `i`: `r`, `w` or `x`.
pub open spec fn perm_letter(i: int) -> char {
    if i == 0 {
        'r'
    } else if i == 1 {
        'w'
    } else {
        'x'
    }
}

/// The character for class `k` and right `i`: the right's letter when the
/// bit is set in `mode`, `-` when it is clear.
pub open spec fn perm_char(mode: u32, k: int, i: int) -> char {
    if mode & perm_mask(k, i) != 0 {
        perm_letter(i)
    } else {
        '-'
    }
}

/// The three characters of class `k`.
pub open spec fn triplet(mode: u32, k: int) -> Seq<char> {
    seq![perm_char(mode, k, 0), perm_char(mode, k, 1), perm_char(mode, k, 2)]
}

/// The permission string: owner, group and other triplets in that order.
pub open spec fn rwx_text(mode: u32) -> Seq<char> {
    triplet(mode, 0) + triplet(mode, 1) + triplet(mode, 2)
}

fn mask_of(k: u32, i: u32) -> (m: u32)
    requires
        k < 3,
        i < 3,
    ensures
        m == perm_mask(k as int, i as int),
{
    let right: u32 = if i == 0 {
        4
    } else if i == 1 {
        2
    } else {
        1
    };
    let class: u32 = if k == 0 {
        64
    } else if k == 1 {
        8
    } else {
        1
    };
    right * class
}

/// Appends the triplet of class `k` to `s`.
fn push_triplet(s: &mut String, mode: u32, k: u32)
    requires
        k < 3,
    ensures
        final(s)@ == old(s)@ + triplet(mode, k as int),
{
    let ghost start = s@;
    proof {
        reveal_strlit("r");
        reveal_strlit("w");
        reveal_strlit("x");
        reveal_strlit("-");
    }
    if mode & mask_of(k, 0) != 0 {
        s.append("r");
    } else {
        s.append("-");
    }
    if mode & mask_of(k, 1) != 0 {
        s.append("w");
    } else {
        s.append("-");
    }
    if mode & mask_of(k, 2) != 0 {
        s.append("x");
    } else {
        s.append("-");
    }
    assert(s@ =~= start + triplet(mode, k as int));
}

/// The permission string of `mode`: character `3 * k + i` is the letter of
/// right `i` exactly when the bit of class `k` and right `i` is set, else `-`.
pub fn get_rwx_string(mode: u32) -> (r: String)
    ensures
        r@ == rwx_text(mode),
        r@.len() == 9,
        forall|k: int, i: int|
            0 <= k < 3 && 0 <= i < 3 ==> #[trigger] perm_char(mode, k, i) == r@[3 * k + i],
{
    let mut r = String::new();
    push_triplet(&mut r, mode, 0);
    push_triplet(&mut r, mode, 1);
    push_triplet(&mut r, mode, 2);
    assert(r@ =~= rwx_text(mode));
    assert forall|k: int, i: int| 0 <= k < 3 && 0 <= i < 3 implies #[trigger] perm_char(
        mode,
        k,
        i,
    ) == r@[3 * k + i] by {
        assert(r@[3 * k + i] == triplet(mode, k)[i]);
    }
    r
}

} // verus!
