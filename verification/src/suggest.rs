//! Suggestion providers: read-only filters that keep, in original order and
//! with case preserved, the candidates whose case-folded form contains the
//! case-folded partial input as a substring.

use vstd::prelude::*;

use crate::commands::{canonical_chars, CliCommand};
use crate::text::{contains_ci, contains_ci_str};

verus! {

/// The ordered subsequence of `cands` whose folded form contains the folded
/// `query` as a substring.
pub open spec fn matching(cands: Seq<Seq<char>>, query: Seq<char>) -> Seq<Seq<char>> {
    cands.filter(|c: Seq<char>| contains_ci(c, query))
}

/// `filter` over a pushed element: the element stays exactly when it
/// satisfies the predicate, and order is preserved.
pub(crate) proof fn lemma_filter_push<A>(s: Seq<A>, pred: spec_fn(A) -> bool, x: A)
    ensures
        s.push(x).filter(pred) == if pred(x) {
            s.filter(pred).push(x)
        } else {
            s.filter(pred)
        },
{
    reveal(Seq::filter);
    assert(s.push(x).drop_last() =~= s);
    assert(s.push(x).last() == x);
}

/// Keep the candidates that contain `query` as a case-insensitive substring,
/// in their original order and with their original case.
pub fn filter_by_substring(cands: &Vec<String>, query: &str) -> (r: Vec<String>)
    ensures
        r.deep_view() == matching(cands.deep_view(), query@),
{
    let mut out: Vec<String> = Vec::new();
    let mut i: usize = 0;
    while i < cands.len()
        invariant
            i <= cands.len(),
            cands.deep_view().len() == cands@.len(),
            out.deep_view() == cands.deep_view().take(i as int).filter(
                |c: Seq<char>| contains_ci(c, query@),
            ),
        decreases cands.len() - i,
    {
        let cand = &cands[i];
        proof {
            assert(cands.deep_view()[i as int] == cands@[i as int]@);
            assert(cands.deep_view().take(i + 1) =~= cands.deep_view().take(i as int).push(
                cands.deep_view()[i as int],
            ));
            lemma_filter_push(
                cands.deep_view().take(i as int),
                |c: Seq<char>| contains_ci(c, query@),
                cands.deep_view()[i as int],
            );
        }
        if contains_ci_str(cand.as_str(), query) {
            let ghost old_out = out.deep_view();
            out.push(cand.clone());
            proof {
                assert(out.deep_view() =~= old_out.push(cands.deep_view()[i as int]));
            }
        }
        i = i + 1;
    }
    proof {
        assert(cands.deep_view().take(cands@.len() as int) =~= cands.deep_view());
    }
    out
}

/// The autocomplete source for the first prompt: suggests control commands.
#[derive(Clone)]
pub struct CommandSuggester {
    commands: Vec<String>,
}

impl View for CommandSuggester {
    type V = Seq<Seq<char>>;

    /// The candidate vocabulary, as character sequences.
    closed spec fn view(&self) -> Seq<Seq<char>> {
        self.commands.deep_view()
    }
}

impl CommandSuggester {
    /// Build a suggester over the canonical names of `commands`.
    pub fn new(commands: &[CliCommand]) -> (r: Self)
        ensures
            r@ == commands@.map_values(|c: CliCommand| canonical_chars(c)),
    {
        let mut names: Vec<String> = Vec::new();
        let mut i: usize = 0;
        while i < commands.len()
            invariant
                i <= commands@.len(),
                names.deep_view() == commands@.take(i as int).map_values(
                    |c: CliCommand| canonical_chars(c),
                ),
            decreases commands@.len() - i,
        {
            let c: CliCommand = commands[i];
            let ghost old_names = names.deep_view();
            names.push(String::from_str(c.as_str()));
            proof {
                assert(names.deep_view() =~= old_names.push(canonical_chars(commands@[i as int])));
                assert(commands@.take(i + 1).map_values(|c: CliCommand| canonical_chars(c))
                    =~= commands@.take(i as int).map_values(
                    |c: CliCommand| canonical_chars(c),
                ).push(canonical_chars(commands@[i as int])));
            }
            i = i + 1;
        }
        proof {
            assert(commands@.take(commands@.len() as int) =~= commands@);
        }
        CommandSuggester { commands: names }
    }

    /// The commands whose name contains `input` as a case-insensitive
    /// substring, in vocabulary order.
    pub fn get_suggestions(&self, input: &str) -> (r: Vec<String>)
        ensures
            r.deep_view() == matching(self@, input@),
    {
        filter_by_substring(&self.commands, input)
    }
}

/// A suggestion provider is a pure read-only filter: for one candidate
/// vocabulary and one partial input there is exactly one result, so repeated
/// invocations agree.
pub proof fn lemma_suggestions_deterministic(
    cands: Seq<Seq<char>>,
    query: Seq<char>,
    r1: Seq<Seq<char>>,
    r2: Seq<Seq<char>>,
)
    requires
        r1 == matching(cands, query),
        r2 == matching(cands, query),
    ensures
        r1 == r2,
{
}

} // verus!
