use vstd::prelude::*;

verus! {

/// Length of the longest common prefix of `a` and `b`.
pub open spec fn common_prefix_len(a: Seq<char>, b: Seq<char>) -> nat
    decreases a.len(),
{
    if a.len() == 0 || b.len() == 0 || a[0] != b[0] {
        0
    } else {
        1 + common_prefix_len(a.drop_first(), b.drop_first())
    }
}

/// The score of `input` against the candidate word `word`: the number of
/// characters of `input` consumed when either `input` is exhausted while
/// matching `word` character by character, or `input` holds a space exactly
/// where the two first diverge (past the first position). Any other
/// divergence scores zero.
pub open spec fn word_score(input: Seq<char>, word: Seq<char>) -> nat {
    let k = common_prefix_len(input, word);
    if k == input.len() {
        k
    } else if k > 0 && input[k as int] == ' ' {
        k
    } else {
        0
    }
}

/// The common prefix length is `k` when the first `k` characters agree and
/// position `k` ends one of the sequences or tells them apart.
pub proof fn lemma_common_prefix_len(a: Seq<char>, b: Seq<char>, k: nat)
    requires
        k <= a.len(),
        k <= b.len(),
        forall|j: int| 0 <= j < k ==> a[j] == b[j],
        k == a.len() || k == b.len() || a[k as int] != b[k as int],
    ensures
        common_prefix_len(a, b) == k,
    decreases k,
{
    if k > 0 {
        assert(a[0] == b[0]);
        lemma_common_prefix_len(a.drop_first(), b.drop_first(), (k - 1) as nat);
    }
}

/// An empty input scores zero against every word.
pub proof fn lemma_empty_input_scores_zero(word: Seq<char>)
    ensures
        word_score(Seq::empty(), word) == 0,
{
}

/// Scores `s` against the word `against` (see `word_score`).
pub fn compare_words(s: &str, against: &str) -> (r: usize)
    ensures
        r as nat == word_score(s@, against@),
{
    let n = s.unicode_len();
    let m = against.unicode_len();
    let mut i: usize = 0;
    while i < n && i < m && s.get_char(i) == against.get_char(i)
        invariant
            n == s@.len(),
            m == against@.len(),
            i <= n,
            i <= m,
            forall|j: int| 0 <= j < i ==> s@[j] == against@[j],
        decreases n - i,
    {
        i = i + 1;
    }
    proof {
        lemma_common_prefix_len(s@, against@, i as nat);
    }
    if i == n {
        n
    } else if i > 0 && s.get_char(i) == ' ' {
        i
    } else {
        0
    }
}

} // verus!
