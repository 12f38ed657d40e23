//! The closed command vocabulary and the input classifier: a typed line is
//! either one of the control commands (matched case-insensitively against its
//! canonical lowercase form, with no trimming and no partial matching) or it
//! falls through to be read as a monetary amount.

use vstd::prelude::*;

use crate::text::{lower_char, lower_seq, to_lower};

verus! {

/// The closed set of control commands an operator can type.
#[derive(Clone, Copy, Debug, PartialEq, Eq, Structural)]
pub enum CliCommand {
    AddUser,
    Help,
}

/// The canonical lowercase spelling of a command, used for matching and for
/// display in suggestion lists.
pub open spec fn canonical_chars(c: CliCommand) -> Seq<char> {
    match c {
        CliCommand::AddUser => seq!['a', 'd', 'd', 'u', 's', 'e', 'r'],
        CliCommand::Help => seq!['h', 'e', 'l', 'p'],
    }
}

/// Classification of a raw line: the command whose canonical form equals the
/// case-folded line, if any. No trimming is applied here: a line with
/// surrounding whitespace matches no command.
pub open spec fn classify_chars(s: Seq<char>) -> Option<CliCommand> {
    if lower_seq(s) == canonical_chars(CliCommand::AddUser) {
        Some(CliCommand::AddUser)
    } else if lower_seq(s) == canonical_chars(CliCommand::Help) {
        Some(CliCommand::Help)
    } else {
        None
    }
}

impl CliCommand {
    /// The canonical lowercase spelling, as a string slice.
    pub fn as_str(self) -> (r: &'static str)
        ensures
            r@ == canonical_chars(self),
    {
        match self {
            CliCommand::AddUser => {
                let s = "adduser";
                proof {
                    reveal_strlit("adduser");
                    assert(s@ =~= canonical_chars(CliCommand::AddUser));
                }
                s
            },
            CliCommand::Help => {
                let s = "help";
                proof {
                    reveal_strlit("help");
                    assert(s@ =~= canonical_chars(CliCommand::Help));
                }
                s
            },
        }
    }

    /// Classify a raw input line: `Some` command on a case-insensitive exact
    /// match of its canonical name, `None` otherwise. The line is taken as
    /// typed; trimming is the caller's business.
    pub fn classify(input: &str) -> (r: Option<CliCommand>)
        ensures
            r == classify_chars(input@),
    {
        let n = input.unicode_len();
        if n == 7 {
            let ok = to_lower(input.get_char(0)) == 'a' && to_lower(input.get_char(1)) == 'd'
                && to_lower(input.get_char(2)) == 'd' && to_lower(input.get_char(3)) == 'u'
                && to_lower(input.get_char(4)) == 's' && to_lower(input.get_char(5)) == 'e'
                && to_lower(input.get_char(6)) == 'r';
            if ok {
                proof {
                    assert(lower_seq(input@) =~= canonical_chars(CliCommand::AddUser));
                }
                Some(CliCommand::AddUser)
            } else {
                proof {
                    if lower_seq(input@) == canonical_chars(CliCommand::AddUser) {
                        assert(lower_char(input@[0]) == 'a');
                        assert(lower_char(input@[1]) == 'd');
                        assert(lower_char(input@[2]) == 'd');
                        assert(lower_char(input@[3]) == 'u');
                        assert(lower_char(input@[4]) == 's');
                        assert(lower_char(input@[5]) == 'e');
                        assert(lower_char(input@[6]) == 'r');
                        assert(false);
                    }
                }
                None
            }
        } else if n == 4 {
            let ok = to_lower(input.get_char(0)) == 'h' && to_lower(input.get_char(1)) == 'e'
                && to_lower(input.get_char(2)) == 'l' && to_lower(input.get_char(3)) == 'p';
            if ok {
                proof {
                    assert(lower_seq(input@) =~= canonical_chars(CliCommand::Help));
                }
                Some(CliCommand::Help)
            } else {
                proof {
                    if lower_seq(input@) == canonical_chars(CliCommand::Help) {
                        assert(lower_char(input@[0]) == 'h');
                        assert(lower_char(input@[1]) == 'e');
                        assert(lower_char(input@[2]) == 'l');
                        assert(lower_char(input@[3]) == 'p');
                        assert(false);
                    }
                }
                None
            }
        } else {
            proof {
                assert(lower_seq(input@).len() == input@.len());
                assert(canonical_chars(CliCommand::AddUser).len() == 7);
                assert(canonical_chars(CliCommand::Help).len() == 4);
            }
            None
        }
    }
}

/// A line whose folded form equals no command's canonical name classifies as
/// no command, whatever its case.
pub proof fn lemma_classify_non_command(s: Seq<char>)
    requires
        forall|c: CliCommand| lower_seq(s) != #[trigger] canonical_chars(c),
    ensures
        classify_chars(s) is None,
{
    assert(lower_seq(s) != canonical_chars(CliCommand::AddUser));
    assert(lower_seq(s) != canonical_chars(CliCommand::Help));
}

/// Classification is case-insensitive: two lines with the same folded form
/// classify identically.
pub proof fn lemma_classify_case_insensitive(s1: Seq<char>, s2: Seq<char>)
    requires
        lower_seq(s1) == lower_seq(s2),
    ensures
        classify_chars(s1) == classify_chars(s2),
{
}

/// Folding the line first changes nothing: a line classifies exactly as its
/// lowercase form does, so differently cased spellings of one command all
/// classify identically.
pub proof fn lemma_classify_agrees_with_folded(s: Seq<char>)
    ensures
        classify_chars(lower_seq(s)) == classify_chars(s),
{
    crate::text::lemma_lower_seq_idempotent(s);
}

} // verus!
