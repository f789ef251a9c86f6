//! Chain identifiers of the form `{chain name}-{revision number}`.
use vstd::prelude::*;

use crate::identifiers::{
    all_id_chars, canonical_decimal, decimal_digits, lemma_canonical_unique, is_digit, is_id_char, lemma_decimal_round_trip, length_ok,
    parse_u64, parse_u64_spec, prefix_max, prefix_min, push_decimal, validate_identifier_chars,
    validate_identifier_length, validate_prefix_length, IdentifierError,
};

verus! {

/// `k` is the position of the last `-` in `s`.
pub open spec fn is_last_dash(s: Seq<char>, k: int) -> bool {
    &&& 0 <= k < s.len()
    &&& s[k] == '-'
    &&& forall|j: int| k < j < s.len() ==> s[j] != '-'
}

/// The position of the last `-` in `s`, or -1 if there is none.
pub open spec fn last_dash(s: Seq<char>) -> int {
    if exists|k: int| is_last_dash(s, k) {
        choose|k: int| is_last_dash(s, k)
    } else {
        -1
    }
}

/// Splitting a chain identifier at its last `-`: the chain name and the
/// revision number, when what follows the `-` is a canonical numeral that
/// fits a `u64`.
pub open spec fn split_chain_id_spec(s: Seq<char>) -> Option<(Seq<char>, u64)> {
    let k = last_dash(s);
    if k >= 0 {
        match parse_u64_spec(s.subrange(k + 1, s.len() as int)) {
            Some(rev) => Some((s.subrange(0, k), rev)),
            None => None,
        }
    } else {
        None
    }
}

/// A valid chain identifier: ICS-24 characters, and either a chain name of
/// 1 to 43 characters followed by `-{revision}`, or 1 to 64 characters
/// without a revision.
///
/// The chain name is held to 43 characters, not to what the length of the
/// whole identifier leaves, so that `{name}-{u64::MAX}`, the longest form the
/// name can ever take as its revision grows, still fits in 64 characters:
/// incrementing the revision of a valid identifier never makes it too long.
/// So `"A" * 60 + "-1"` is refused although it is 62 characters long.
pub open spec fn valid_chain_id(s: Seq<char>) -> bool {
    &&& s.len() > 0
    &&& all_id_chars(s)
    &&& match split_chain_id_spec(s) {
        Some((name, _)) => 1 <= name.len() <= 43,
        None => s.len() <= 64,
    }
}

/// The revision number a chain identifier carries; 0 when it has none.
pub open spec fn chain_id_revision(s: Seq<char>) -> u64 {
    match split_chain_id_spec(s) {
        Some((_, rev)) => rev,
        None => 0,
    }
}

/// The identifier `{name}-{rev}`.
pub open spec fn join_chain_id(name: Seq<char>, rev: u64) -> Seq<char> {
    name + seq!['-'] + decimal_digits(rev as nat)
}

proof fn lemma_last_dash_unique(s: Seq<char>, k: int)
    requires
        is_last_dash(s, k),
    ensures
        last_dash(s) == k,
{
    let c = choose|k: int| is_last_dash(s, k);
    assert(is_last_dash(s, c));
    if c < k {
        assert(s[k] != '-');
    } else if c > k {
        assert(s[c] != '-');
    }
}

/// Splitting `{name}-{rev}` gives back `name` and `rev`, whatever the name.
pub proof fn lemma_join_split(name: Seq<char>, rev: u64)
    ensures
        split_chain_id_spec(join_chain_id(name, rev)) == Some((name, rev)),
{
    let d = decimal_digits(rev as nat);
    let t = join_chain_id(name, rev);
    let k = name.len() as int;
    lemma_decimal_round_trip(rev as nat);
    assert forall|j: int| k < j < t.len() implies t[j] != '-' by {
        assert(t[j] == d[j - k - 1]);
        assert(is_digit(d[j - k - 1]));
    }
    assert(is_last_dash(t, k));
    lemma_last_dash_unique(t, k);
    assert(t.subrange(k + 1, t.len() as int) =~= d);
    assert(t.subrange(0, k) =~= name);
}

/// Parsing and formatting a chain identifier agree: when `s` splits into
/// `(name, rev)`, `s` is exactly `{name}-{rev}` with `rev` written without
/// leading zeros (`0` itself being the one numeral that starts with `0`).
pub proof fn lemma_chain_id_round_trip(s: Seq<char>)
    ensures
        split_chain_id_spec(s) matches Some((name, rev)) ==> {
            &&& s == join_chain_id(name, rev)
            &&& canonical_decimal(decimal_digits(rev as nat))
        },
{
    if let Some((name, rev)) = split_chain_id_spec(s) {
        let k = last_dash(s);
        let r = s.subrange(k + 1, s.len() as int);
        lemma_canonical_unique(r);
        lemma_decimal_round_trip(rev as nat);
        assert(s[k] == '-') by {
            assert(is_last_dash(s, k));
        }
        assert(s =~= join_chain_id(name, rev));
    }
}

/// A chain identifier, with the revision number that it carries.
#[derive(Debug, PartialEq, Eq, PartialOrd, Ord, Hash)]
pub struct ChainId {
    id: String,
    revision_number: u64,
}

impl View for ChainId {
    type V = (Seq<char>, u64);

    closed spec fn view(&self) -> (Seq<char>, u64) {
        (self.id@, self.revision_number)
    }
}

/// Finds the last `-` of `s`.
fn find_last_dash(s: &str) -> (r: Option<usize>)
    ensures
        match r {
            Some(k) => is_last_dash(s@, k as int),
            None => !exists|k: int| is_last_dash(s@, k),
        },
{
    let n = s.unicode_len();
    let mut i: usize = n;
    while i > 0
        invariant
            n == s@.len(),
            i <= n,
            forall|j: int| i <= j < n ==> s@[j] != '-',
        decreases i,
    {
        if s.get_char(i - 1) == '-' {
            return Some(i - 1);
        }
        i = i - 1;
    }
    assert forall|k: int| !is_last_dash(s@, k) by {
        if 0 <= k < n {
            assert(s@[k] != '-');
        }
    }
    None
}

/// Splits `s` into chain name and revision number at its last `-`.
pub fn parse_chain_id_string(s: &str) -> (r: Result<(&str, u64), IdentifierError>)
    ensures
        match r {
            Ok((name, rev)) => split_chain_id_spec(s@) == Some((name@, rev)),
            Err(e) => split_chain_id_spec(s@) is None && e is UnformattedRevisionNumber,
        },
{
    let n = s.unicode_len();
    match find_last_dash(s) {
        Some(k) => {
            proof {
                lemma_last_dash_unique(s@, k as int);
            }
            let rev_str = s.substring_char(k + 1, n);
            match parse_u64(rev_str) {
                Some(rev) => {
                    let name = s.substring_char(0, k);
                    Ok((name, rev))
                },
                None => Err(IdentifierError::UnformattedRevisionNumber { chain_id: String::from_str(s) }),
            }
        },
        None => Err(IdentifierError::UnformattedRevisionNumber { chain_id: String::from_str(s) }),
    }
}

impl ChainId {
    #[verifier::type_invariant]
    spec fn inv(&self) -> bool {
        &&& valid_chain_id(self.id@)
        &&& self.revision_number == chain_id_revision(self.id@)
    }

    /// Builds a chain identifier from its text, checking the ICS-24
    /// characters and the length, and reading the revision number if the
    /// text ends in `-{revision}`; otherwise the revision number is 0.
    pub fn new(chain_id: &str) -> (r: Result<ChainId, IdentifierError>)
        ensures
            r is Ok <==> valid_chain_id(chain_id@),
            r matches Ok(c) ==> c@ == (chain_id@, chain_id_revision(chain_id@)),
            chain_id@.len() == 0 ==> r matches Err(IdentifierError::Empty),
            chain_id@.len() > 0 && !all_id_chars(chain_id@) ==> r matches Err(
                IdentifierError::InvalidCharacter { .. },
            ),
            chain_id@.len() > 0 && all_id_chars(chain_id@) && !valid_chain_id(chain_id@)
                ==> r matches Err(IdentifierError::InvalidLength { .. }),
    {
        validate_identifier_chars(chain_id)?;
        match parse_chain_id_string(chain_id) {
            Ok((chain_name, revision_number)) => {
                validate_prefix_length(chain_name, 1, 64)?;
                Ok(ChainId { id: String::from_str(chain_id), revision_number })
            },
            Err(_) => {
                validate_identifier_length(chain_id, 1, 64)?;
                Ok(ChainId { id: String::from_str(chain_id), revision_number: 0 })
            },
        }
    }

    /// Builds a chain identifier from its text and the revision number
    /// stored beside it, as a serialized identifier holds them: the text must
    /// be valid and carry exactly that revision number.
    pub fn from_parts(chain_id: &str, revision_number: u64) -> (r: Result<ChainId, IdentifierError>)
        ensures
            r is Ok <==> valid_chain_id(chain_id@) && revision_number == chain_id_revision(chain_id@),
            r matches Ok(c) ==> c@ == (chain_id@, revision_number),
            valid_chain_id(chain_id@) && revision_number != chain_id_revision(chain_id@) ==> r
                == Err::<ChainId, IdentifierError>(
                IdentifierError::RevisionNumberMismatch {
                    given: revision_number,
                    carried: chain_id_revision(chain_id@),
                },
            ),
    {
        let c = ChainId::new(chain_id)?;
        if c.revision_number() != revision_number {
            return Err(
                IdentifierError::RevisionNumberMismatch {
                    given: revision_number,
                    carried: c.revision_number(),
                },
            );
        }
        Ok(c)
    }

    /// The identifier's text.
    pub fn as_str(&self) -> (r: &str)
        ensures
            r@ == self@.0,
    {
        self.id.as_str()
    }

    /// Splits the identifier into chain name and revision number.
    pub fn split_chain_id(&self) -> (r: Result<(&str, u64), IdentifierError>)
        ensures
            match r {
                Ok((name, rev)) => split_chain_id_spec(self@.0) == Some((name@, rev)),
                Err(e) => split_chain_id_spec(self@.0) is None && e is UnformattedRevisionNumber,
            },
    {
        parse_chain_id_string(self.as_str())
    }

    /// The revision number.
    pub fn revision_number(&self) -> (r: u64)
        ensures
            r == self@.1,
    {
        self.revision_number
    }

    /// Raises the revision number by one, rewriting the identifier as
    /// `{chain name}-{revision + 1}`. Fails, leaving the identifier as it
    /// was, when it carries no revision or the revision is `u64::MAX`.
    pub fn increment_revision_number(&mut self) -> (r: Result<(), IdentifierError>)
        ensures
            match split_chain_id_spec(old(self)@.0) {
                None => r matches Err(IdentifierError::UnformattedRevisionNumber { .. })
                    && final(self)@ == old(self)@,
                Some((name, rev)) => if rev == u64::MAX {
                    r == Err::<(), IdentifierError>(IdentifierError::RevisionNumberOverflow)
                        && final(self)@ == old(self)@
                } else {
                    r is Ok && final(self)@ == (join_chain_id(name, (rev + 1) as u64), (rev
                        + 1) as u64)
                },
            },
    {
        proof {
            use_type_invariant(&*self);
        }
        let (chain_name, _) = self.split_chain_id()?;
        if self.revision_number == u64::MAX {
            return Err(IdentifierError::RevisionNumberOverflow);
        }
        let inc = self.revision_number + 1;
        let mut id = String::from_str(chain_name);
        id.append("-");
        push_decimal(&mut id, inc);
        proof {
            reveal_strlit("-");
            let name = chain_name@;
            let t = join_chain_id(name, inc);
            assert(id@ =~= t);
            lemma_join_split(name, inc);
            let s = self.id@;
            let k = last_dash(s);
            assert(name =~= s.subrange(0, k));
            lemma_decimal_round_trip(inc as nat);
            let d = decimal_digits(inc as nat);
            assert forall|i: int| 0 <= i < t.len() implies #[trigger] is_id_char(t[i]) by {
                if i < name.len() {
                    assert(t[i] == s[i]);
                } else if i > name.len() {
                    assert(t[i] == d[i - name.len() - 1]);
                    assert(is_digit(d[i - name.len() - 1]));
                }
            }
        }
        *self = ChainId { id, revision_number: inc };
        Ok(())
    }

    /// Checks the identifier's length against `min_length..=max_length`:
    /// through its chain name when it carries a revision, as a whole otherwise.
    pub fn validate_length(&self, min_length: u64, max_length: u64) -> (r: Result<(), IdentifierError>)
        ensures
            r is Ok <==> match split_chain_id_spec(self@.0) {
                Some((name, _)) => length_ok(name, prefix_min(min_length), prefix_max(max_length)),
                None => length_ok(self@.0, min_length, max_length),
            },
    {
        match self.split_chain_id() {
            Ok((chain_name, _)) => validate_prefix_length(chain_name, min_length, max_length),
            Err(_) => validate_identifier_length(self.as_str(), min_length, max_length),
        }
    }
}

impl Clone for ChainId {
    fn clone(&self) -> (r: ChainId)
        ensures
            r@ == self@,
    {
        proof {
            use_type_invariant(self);
        }
        ChainId { id: self.id.clone(), revision_number: self.revision_number }
    }
}

impl From<ChainId> for String {
    fn from(chain_id: ChainId) -> (r: String) {
        chain_id.id
    }
}

impl vstd::std_specs::convert::FromSpecImpl<ChainId> for String {
    open spec fn obeys_from_spec() -> bool {
        true
    }

    closed spec fn from_spec(v: ChainId) -> String {
        v.id
    }
}

impl core::str::FromStr for ChainId {
    type Err = IdentifierError;

    fn from_str(id: &str) -> Result<ChainId, IdentifierError> {
        ChainId::new(id)
    }
}

} // verus!
