//! The session snapshot of known user names, and the validators closed over
//! it: one that accepts only names already in the snapshot, and one that
//! accepts only well-formed names not yet in it.

use vstd::prelude::*;

use crate::suggest::{filter_by_substring, matching};
use crate::text::{trim_seq, trim_ws};

verus! {

/// The type of a ledger account, as far as this front end distinguishes it.
#[derive(Clone, Copy, Debug, PartialEq, Eq, Structural)]
pub enum AccountKind {
    User,
    Source,
    Other,
}

/// One account of the ledger's registry: its name and its type.
#[derive(Clone, Debug, PartialEq, Eq)]
pub struct AccountInfo {
    pub name: String,
    pub kind: AccountKind,
}

/// What a validator reports: acceptance, or a human-readable reason shown to
/// the operator, who is then re-prompted. Validators never fail otherwise.
#[derive(Clone, Debug, PartialEq, Eq)]
pub enum ValidationOutcome {
    Valid,
    Invalid(String),
}

/// The user-account names of an account registry, in registry order.
pub open spec fn user_names_of(accounts: Seq<AccountInfo>) -> Seq<Seq<char>> {
    accounts.filter(|a: AccountInfo| a.kind is User).map_values(|a: AccountInfo| a.name@)
}

/// The trimmed input passes the new-name checks against `names`: non-empty,
/// no space, no colon, not already present.
pub open spec fn new_name_ok(names: Seq<Seq<char>>, raw: Seq<char>) -> bool {
    let t = trim_seq(raw);
    t.len() > 0 && !t.contains(' ') && !t.contains(':') && !names.contains(t)
}

/// The reason the new-name checks give for `raw`, following their fixed
/// order: emptiness, then space, then colon, then prior existence.
pub open spec fn new_name_reason(names: Seq<Seq<char>>, raw: Seq<char>) -> Seq<char> {
    let t = trim_seq(raw);
    if t.len() == 0 {
        "Username may not be empty"@
    } else if t.contains(' ') {
        "Username may not contain a space"@
    } else if t.contains(':') {
        "Username may not contain a colon"@
    } else {
        "Username already exists: "@ + t
    }
}

/// The reason the existing-name check gives for a trimmed input that is not
/// in the snapshot.
pub open spec fn unknown_name_reason(raw: Seq<char>) -> Seq<char> {
    "Not a known username: "@ + trim_seq(raw)
}

/// `s` holds the character `c` somewhere.
fn contains_char(s: &str, c: char) -> (r: bool)
    ensures
        r == s@.contains(c),
{
    let n = s.unicode_len();
    let mut i: usize = 0;
    while i < n
        invariant
            n == s@.len(),
            i <= n,
            forall|j: int| 0 <= j < i ==> #[trigger] s@[j] != c,
        decreases n - i,
    {
        if s.get_char(i) == c {
            assert(s@.contains(c));
            return true;
        }
        i = i + 1;
    }
    assert(!s@.contains(c));
    false
}

/// The immutable, ordered snapshot of known user names, captured once at
/// session start and shared read-only by every validator and suggester of
/// that session. A user added during the session is not visible here until
/// the next session starts.
#[derive(Clone)]
pub struct KnownUsernames {
    names: Vec<String>,
}

impl View for KnownUsernames {
    type V = Seq<Seq<char>>;

    /// The names as character sequences, in snapshot order.
    closed spec fn view(&self) -> Seq<Seq<char>> {
        self.names.deep_view()
    }
}

impl KnownUsernames {
    /// Wrap an already collected list of names.
    pub fn new(names: Vec<String>) -> (r: Self)
        ensures
            r@ == names.deep_view(),
    {
        KnownUsernames { names }
    }

    /// Capture the snapshot from the ledger's account registry: the names of
    /// the accounts of type user, in registry order.
    pub fn from_accounts(accounts: &Vec<AccountInfo>) -> (r: Self)
        ensures
            r@ == user_names_of(accounts@),
    {
        let mut names: Vec<String> = Vec::new();
        let mut i: usize = 0;
        while i < accounts.len()
            invariant
                i <= accounts@.len(),
                names.deep_view() == user_names_of(accounts@.take(i as int)),
            decreases accounts@.len() - i,
        {
            let a = &accounts[i];
            proof {
                assert(accounts@.take(i + 1) =~= accounts@.take(i as int).push(
                    accounts@[i as int],
                ));
                crate::suggest::lemma_filter_push(
                    accounts@.take(i as int),
                    |x: AccountInfo| x.kind is User,
                    accounts@[i as int],
                );
            }
            if matches!(a.kind, AccountKind::User) {
                let ghost old_names = names.deep_view();
                names.push(a.name.clone());
                proof {
                    assert(names.deep_view() =~= old_names.push(accounts@[i as int].name@));
                    assert(user_names_of(accounts@.take(i + 1)) =~= user_names_of(
                        accounts@.take(i as int),
                    ).push(accounts@[i as int].name@));
                }
            } else {
                proof {
                    assert(user_names_of(accounts@.take(i + 1)) =~= user_names_of(
                        accounts@.take(i as int),
                    ));
                }
            }
            i = i + 1;
        }
        proof {
            assert(accounts@.take(accounts@.len() as int) =~= accounts@);
        }
        KnownUsernames { names }
    }

    /// Exact, case-sensitive membership of `name` in the snapshot.
    pub fn contains(&self, name: &str) -> (r: bool)
        ensures
            r == self@.contains(name@),
    {
        let target: String = name.to_owned();
        let mut i: usize = 0;
        while i < self.names.len()
            invariant
                i <= self.names@.len(),
                target@ == name@,
                self@ == self.names.deep_view(),
                self@.len() == self.names@.len(),
                forall|j: int| 0 <= j < i ==> self@[j] != name@,
            decreases self.names@.len() - i,
        {
            if self.names[i] == target {
                assert(self@[i as int] == name@);
                assert(self@.contains(name@));
                return true;
            }
            i = i + 1;
        }
        assert(!self@.contains(name@));
        false
    }

    /// The existing-username validator: the trimmed input is valid exactly
    /// when it is one of the known names, compared case-sensitively; any
    /// other input earns the unknown-name reason.
    pub fn validate_existing(&self, value: &str) -> (r: ValidationOutcome)
        ensures
            r is Valid <==> self@.contains(trim_seq(value@)),
            r matches ValidationOutcome::Invalid(m) ==> m@ == unknown_name_reason(value@),
    {
        let t = trim_ws(value);
        if self.contains(t) {
            ValidationOutcome::Valid
        } else {
            ValidationOutcome::Invalid(String::from_str("Not a known username: ").concat(t))
        }
    }

    /// The new-username validator, its checks in fixed order: the trimmed
    /// input must be non-empty, hold no space, hold no colon, and not be a
    /// known name already; the first failed check names the reason.
    pub fn validate_new(&self, value: &str) -> (r: ValidationOutcome)
        ensures
            r is Valid <==> new_name_ok(self@, value@),
            r matches ValidationOutcome::Invalid(m) ==> m@ == new_name_reason(self@, value@),
    {
        let t = trim_ws(value);
        if t.unicode_len() == 0 {
            ValidationOutcome::Invalid(String::from_str("Username may not be empty"))
        } else if contains_char(t, ' ') {
            ValidationOutcome::Invalid(String::from_str("Username may not contain a space"))
        } else if contains_char(t, ':') {
            ValidationOutcome::Invalid(String::from_str("Username may not contain a colon"))
        } else if self.contains(t) {
            ValidationOutcome::Invalid(String::from_str("Username already exists: ").concat(t))
        } else {
            ValidationOutcome::Valid
        }
    }

    /// The user-name suggestion provider: the known names that contain
    /// `input` as a case-insensitive substring, in snapshot order, their
    /// case preserved.
    pub fn suggestions(&self, input: &str) -> (r: Vec<String>)
        ensures
            r.deep_view() == matching(self@, input@),
    {
        filter_by_substring(&self.names, input)
    }
}

} // verus!
