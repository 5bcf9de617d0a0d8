use vstd::prelude::*;
use vstd::string::StringExecFns;

verus! {

/// The decimal digit character for `d < 10`.
pub open spec fn digit_char(d: nat) -> char {
    if d == 0 { '0' }
    else if d == 1 { '1' }
    else if d == 2 { '2' }
    else if d == 3 { '3' }
    else if d == 4 { '4' }
    else if d == 5 { '5' }
    else if d == 6 { '6' }
    else if d == 7 { '7' }
    else if d == 8 { '8' }
    else { '9' }
}

/// `n` written in unsigned decimal, with no padding.
pub open spec fn decimal(n: nat) -> Seq<char>
    decreases n,
{
    if n < 10 {
        seq![digit_char(n)]
    } else {
        decimal(n / 10) + seq![digit_char(n % 10)]
    }
}

/// The cache key of chunk `idx` of the object at `path`: `<path>.occ_<idx>`.
pub open spec fn content_key(path: Seq<char>, idx: u64) -> Seq<char> {
    path + seq!['.', 'o', 'c', 'c', '_'] + decimal(idx as nat)
}

/// The cache key of the metadata of the object at `path`: `<path>.omc`.
pub open spec fn meta_key(path: Seq<char>) -> Seq<char> {
    path + seq!['.', 'o', 'm', 'c']
}

proof fn lemma_decimal_last(n: nat)
    ensures
        decimal(n).len() > 0,
        decimal(n).last() == digit_char(n % 10),
    decreases n,
{
    if n >= 10 {
        lemma_decimal_last(n / 10);
    }
}

/// A metadata key is never the key of a content chunk, whatever the two
/// paths: the one ends in `c`, the other in a decimal digit.
pub proof fn lemma_meta_key_is_no_content_key(p: Seq<char>, q: Seq<char>, idx: u64)
    ensures
        meta_key(p) != content_key(q, idx),
{
    lemma_decimal_last(idx as nat);
    let m = meta_key(p);
    let c = content_key(q, idx);
    assert(m.last() == 'c');
    assert(c.last() == decimal(idx as nat).last());
}

fn digit_str(d: u64) -> (r: &'static str)
    requires
        d < 10,
    ensures
        r@ == seq![digit_char(d as nat)],
{
    if d == 0 {
        proof { reveal_strlit("0"); }
        "0"
    } else if d == 1 {
        proof { reveal_strlit("1"); }
        "1"
    } else if d == 2 {
        proof { reveal_strlit("2"); }
        "2"
    } else if d == 3 {
        proof { reveal_strlit("3"); }
        "3"
    } else if d == 4 {
        proof { reveal_strlit("4"); }
        "4"
    } else if d == 5 {
        proof { reveal_strlit("5"); }
        "5"
    } else if d == 6 {
        proof { reveal_strlit("6"); }
        "6"
    } else if d == 7 {
        proof { reveal_strlit("7"); }
        "7"
    } else if d == 8 {
        proof { reveal_strlit("8"); }
        "8"
    } else {
        proof { reveal_strlit("9"); }
        "9"
    }
}

fn append_decimal(s: &mut String, n: u64)
    ensures
        final(s)@ == old(s)@ + decimal(n as nat),
    decreases n,
{
    if n >= 10 {
        append_decimal(s, n / 10);
    }
    s.append(digit_str(n % 10));
    proof {
        if n >= 10 {
            assert(final(s)@ =~= old(s)@ + decimal(n as nat));
        } else {
            assert(final(s)@ =~= old(s)@ + decimal(n as nat));
        }
    }
}

/// Build the cache key of chunk `idx` of the object at `path`.
pub fn format_content_cache_path(path: &str, idx: u64) -> (r: String)
    ensures
        r@ == content_key(path@, idx),
{
    let mut s = String::from_str(path);
    proof { reveal_strlit(".occ_"); }
    s.append(".occ_");
    append_decimal(&mut s, idx);
    proof {
        assert(s@ =~= content_key(path@, idx));
    }
    s
}

/// Build the cache key of the metadata of the object at `path`.
pub fn format_meta_cache_path(path: &str) -> (r: String)
    ensures
        r@ == meta_key(path@),
{
    let mut s = String::from_str(path);
    proof { reveal_strlit(".omc"); }
    s.append(".omc");
    proof {
        assert(s@ =~= meta_key(path@));
    }
    s
}

} // verus!
