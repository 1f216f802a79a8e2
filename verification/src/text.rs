//! Text predicates behind the list filters: substring search over character
//! sequences and exact membership in a tag list.

use vstd::prelude::*;

verus! {

/// The needle `n` occurs in the haystack `h` starting at position `i`.
pub open spec fn is_match_at(h: Seq<char>, n: Seq<char>, i: int) -> bool {
    0 <= i && i + n.len() <= h.len() && h.subrange(i, i + n.len()) == n
}

/// The needle `n` occurs somewhere in `h`; an empty needle always does.
pub open spec fn contains_seq(h: Seq<char>, n: Seq<char>) -> bool {
    exists|i: int| is_match_at(h, n, i)
}

/// Substring search: does `n` occur in `h`? Positions count characters,
/// not bytes.
pub fn contains_substr(h: &str, n: &str) -> (r: bool)
    ensures
        r == contains_seq(h@, n@),
{
    let hlen = h.unicode_len();
    let nlen = n.unicode_len();
    if nlen > hlen {
        proof {
            assert forall|i: int| !is_match_at(h@, n@, i) by {
                assert(i + n@.len() <= h@.len() ==> n@.len() <= h@.len() || i < 0);
            }
        }
        return false;
    }
    if nlen == 0 {
        proof {
            assert(h@.subrange(0, 0) =~= n@);
            assert(is_match_at(h@, n@, 0));
        }
        return true;
    }
    let mut i: usize = 0;
    while i <= hlen - nlen
        invariant
            hlen == h@.len(),
            nlen == n@.len(),
            1 <= nlen <= hlen,
            i <= hlen - nlen + 1,
            forall|k: int| 0 <= k < i ==> !is_match_at(h@, n@, k),
        decreases hlen - nlen + 1 - i,
    {
        let mut j: usize = 0;
        let mut mismatch = false;
        loop
            invariant
                hlen == h@.len(),
                nlen == n@.len(),
                i + nlen <= hlen,
                j <= nlen,
                !mismatch ==> forall|t: int| 0 <= t < j ==> h@[i + t] == n@[t],
                mismatch ==> !is_match_at(h@, n@, i as int),
            ensures
                mismatch ==> !is_match_at(h@, n@, i as int),
                !mismatch ==> forall|t: int| 0 <= t < nlen ==> h@[i + t] == n@[t],
            decreases nlen - j,
        {
            if j == nlen {
                break;
            }
            if h.get_char(i + j) == n.get_char(j) {
                j = j + 1;
            } else {
                proof {
                    if is_match_at(h@, n@, i as int) {
                        assert(h@.subrange(i as int, i + n@.len())[j as int] == h@[i + j]);
                    }
                }
                mismatch = true;
                break;
            }
        }
        if !mismatch {
            proof {
                assert(h@.subrange(i as int, i + n@.len()) =~= n@);
                assert(is_match_at(h@, n@, i as int));
            }
            return true;
        }
        i = i + 1;
    }
    proof {
        assert forall|k: int| !is_match_at(h@, n@, k) by {
            if 0 <= k && k + n@.len() <= h@.len() {
                assert(k < i);
            }
        }
    }
    false
}

/// Exact membership: is `tag` one of the strings in `tags`?
pub fn tags_contain(tags: &Vec<String>, tag: &String) -> (r: bool)
    ensures
        r == tags.deep_view().contains(tag@),
{
    let mut k: usize = 0;
    while k < tags.len()
        invariant
            k <= tags.len(),
            forall|t: int| 0 <= t < k ==> tags@[t]@ != tag@,
        decreases tags.len() - k,
    {
        let candidate = &tags[k];
        if *candidate == *tag {
            proof {
                assert(tags.deep_view()[k as int] == tag@);
            }
            return true;
        }
        k = k + 1;
    }
    proof {
        assert forall|t: int| 0 <= t < tags.deep_view().len() implies tags.deep_view()[t] != tag@ by {
            assert(tags.deep_view()[t] == tags@[t]@);
        }
    }
    false
}

} // verus!
