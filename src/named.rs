use vstd::prelude::*;
use crate::utils::{compare_words, word_score};

verus! {

/// The best score of `input` over a list of aliases: the greatest
/// `word_score` among them, or zero for no alias.
pub open spec fn best_score(aliases: Seq<String>, input: Seq<char>) -> nat
    decreases aliases.len(),
{
    if aliases.len() == 0 {
        0
    } else {
        let rest = best_score(aliases.drop_last(), input);
        let last = word_score(input, aliases.last()@);
        if last > rest {
            last
        } else {
            rest
        }
    }
}

/// The first alias of a list, or the empty word for an empty list.
pub open spec fn first_alias(aliases: Seq<String>) -> Seq<char> {
    if aliases.len() == 0 {
        Seq::empty()
    } else {
        aliases[0]@
    }
}

/// Scores `input` against each alias and keeps the greatest score.
pub fn best_alias_score(aliases: &[String], input: &str) -> (r: usize)
    ensures
        r as nat == best_score(aliases@, input@),
{
    let mut max_length: usize = 0;
    let mut i: usize = 0;
    while i < aliases.len()
        invariant
            i <= aliases@.len(),
            max_length as nat == best_score(aliases@.subrange(0, i as int), input@),
        decreases aliases@.len() - i,
    {
        let cmp = compare_words(input, aliases[i].as_str());
        assert(aliases@.subrange(0, i + 1).drop_last() =~= aliases@.subrange(0, i as int));
        if cmp > max_length {
            max_length = cmp;
        }
        i = i + 1;
    }
    assert(aliases@.subrange(0, i as int) =~= aliases@);
    max_length
}

/// Returns the first alias, or an empty string where there is none.
pub fn first_alias_of(aliases: &[String]) -> (r: String)
    ensures
        r@ == first_alias(aliases@),
{
    if aliases.len() == 0 {
        String::new()
    } else {
        aliases[0].clone()
    }
}

/// Something that can be referred to by one of several names.
pub trait Named {
    /// The names, the first being the canonical one.
    spec fn spec_aliases(&self) -> Seq<String>;

    /// The description.
    spec fn spec_description(&self) -> Seq<char>;

    fn get_aliases(&self) -> (r: &[String])
        ensures
            r@ == self.spec_aliases(),
    ;

    fn get_description(&self) -> (r: &str)
        ensures
            r@ == self.spec_description(),
    ;

    /// The best score of `input` over the aliases.
    fn find(&self, input: &str) -> (r: usize)
        ensures
            r as nat == best_score(self.spec_aliases(), input@),
    {
        best_alias_score(self.get_aliases(), input)
    }
}

} // verus!
