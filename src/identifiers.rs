//! Identifiers of ICS-24 and their validation.
use vstd::prelude::*;

verus! {

/// Errors raised while validating an identifier.
#[derive(Clone, Debug, PartialEq, Eq)]
pub enum IdentifierError {
    /// The identifier is empty.
    Empty,
    /// The identifier holds a character outside the ICS-24 charset.
    InvalidCharacter { id: String },
    /// The identifier's length lies outside `min..=max`.
    InvalidLength { id: String, min: u64, max: u64 },
    /// The identifier does not end in `-{revision number}`.
    UnformattedRevisionNumber { chain_id: String },
    /// Incrementing the revision number would overflow a `u64`.
    RevisionNumberOverflow,
    /// A revision number given beside an identifier differs from the one
    /// the identifier carries.
    RevisionNumberMismatch { given: u64, carried: u64 },
    /// The identifier does not have the `{prefix}-{number}` form its kind asks for.
    InvalidNamedIndex { id: String },
}

/// A character of the ICS-24 identifier charset `[a-zA-Z0-9._+\-#\[\]<>]`.
pub open spec fn is_id_char(c: char) -> bool {
    ('a' <= c && c <= 'z') || ('A' <= c && c <= 'Z') || ('0' <= c && c <= '9') || c == '.'
        || c == '_' || c == '+' || c == '-' || c == '#' || c == '[' || c == ']' || c == '<'
        || c == '>'
}

pub open spec fn all_id_chars(s: Seq<char>) -> bool {
    forall|i: int| 0 <= i < s.len() ==> #[trigger] is_id_char(s[i])
}

/// The lower bound actually applied: at least one, so that empty identifiers are refused.
pub open spec fn effective_min(min: u64) -> u64 {
    if min < 1 { 1 } else { min }
}

pub open spec fn length_ok(s: Seq<char>, min: u64, max: u64) -> bool {
    effective_min(min) <= s.len() && s.len() <= max
}

fn is_id_char_exec(c: char) -> (r: bool)
    ensures
        r == is_id_char(c),
{
    ('a' <= c && c <= 'z') || ('A' <= c && c <= 'Z') || ('0' <= c && c <= '9') || c == '.'
        || c == '_' || c == '+' || c == '-' || c == '#' || c == '[' || c == ']' || c == '<'
        || c == '>'
}

/// Checks that `id` is non-empty and made of ICS-24 identifier characters only.
pub fn validate_identifier_chars(id: &str) -> (r: Result<(), IdentifierError>)
    ensures
        r is Ok <==> (id@.len() > 0 && all_id_chars(id@)),
        id@.len() == 0 ==> r == Err::<(), IdentifierError>(IdentifierError::Empty),
        id@.len() > 0 && !all_id_chars(id@) ==> (r matches Err(
            IdentifierError::InvalidCharacter { id: e },
        ) && e@ == id@),
{
    let n = id.unicode_len();
    if n == 0 {
        return Err(IdentifierError::Empty);
    }
    let mut i: usize = 0;
    while i < n
        invariant
            n == id@.len(),
            i <= n,
            forall|j: int| 0 <= j < i ==> #[trigger] is_id_char(id@[j]),
        decreases n - i,
    {
        if !is_id_char_exec(id.get_char(i)) {
            return Err(IdentifierError::InvalidCharacter { id: String::from_str(id) });
        }
        i = i + 1;
    }
    Ok(())
}

/// Checks that the length of `id` lies in `max(min, 1)..=max`.
pub fn validate_identifier_length(id: &str, min: u64, max: u64) -> (r: Result<(), IdentifierError>)
    ensures
        r is Ok <==> length_ok(id@, min, max),
        !length_ok(id@, min, max) ==> (r matches Err(
            IdentifierError::InvalidLength { id: e, min: lo, max: hi },
        ) && e@ == id@ && lo == effective_min(min) && hi == max),
{
    let lo: u64 = if min < 1 { 1 } else { min };
    let n = id.unicode_len() as u64;
    if lo <= n && n <= max {
        Ok(())
    } else {
        Err(IdentifierError::InvalidLength { id: String::from_str(id), min: lo, max })
    }
}

/// The bounds that an identifier length bound puts on the prefix of a
/// `{prefix}-{number}` identifier: the shortest such identifier is
/// `{prefix}-0`, two characters more than the prefix; the longest is
/// `{prefix}-{u64::MAX}`, twenty-one more.
pub open spec fn prefix_min(min_id_length: u64) -> u64 {
    if min_id_length < 2 { 0 } else { (min_id_length - 2) as u64 }
}

pub open spec fn prefix_max(max_id_length: u64) -> u64 {
    if max_id_length < 21 { 0 } else { (max_id_length - 21) as u64 }
}

/// Checks the length of the prefix of a `{prefix}-{number}` identifier
/// against the bounds for the whole identifier.
pub fn validate_prefix_length(prefix: &str, min_id_length: u64, max_id_length: u64) -> (r: Result<
    (),
    IdentifierError,
>)
    ensures
        r is Ok <==> length_ok(prefix@, prefix_min(min_id_length), prefix_max(max_id_length)),
        r is Err ==> r matches Err(IdentifierError::InvalidLength { .. }),
{
    let min = min_id_length.saturating_sub(2);
    let max = max_id_length.saturating_sub(21);
    validate_identifier_length(prefix, min, max)
}

/// A decimal digit.
pub open spec fn is_digit(c: char) -> bool {
    '0' <= c && c <= '9'
}

pub open spec fn digit_value(c: char) -> nat {
    (c as u32 - '0' as u32) as nat
}

pub open spec fn digit_char(d: nat) -> char
    recommends
        d < 10,
{
    if d == 0 {
        '0'
    } else if d == 1 {
        '1'
    } else if d == 2 {
        '2'
    } else if d == 3 {
        '3'
    } else if d == 4 {
        '4'
    } else if d == 5 {
        '5'
    } else if d == 6 {
        '6'
    } else if d == 7 {
        '7'
    } else if d == 8 {
        '8'
    } else {
        '9'
    }
}

/// The number that a string of decimal digits denotes.
pub open spec fn decimal_value(s: Seq<char>) -> nat
    decreases s.len(),
{
    if s.len() == 0 {
        0
    } else {
        decimal_value(s.drop_last()) * 10 + digit_value(s.last())
    }
}

/// A decimal numeral without leading zeros: `0`, or digits that do not start with `0`.
pub open spec fn canonical_decimal(s: Seq<char>) -> bool {
    &&& s.len() > 0
    &&& forall|i: int| 0 <= i < s.len() ==> #[trigger] is_digit(s[i])
    &&& (s[0] != '0' || s.len() == 1)
}

/// The canonical decimal numeral of `n`.
pub open spec fn decimal_digits(n: nat) -> Seq<char>
    decreases n,
{
    if n < 10 {
        seq![digit_char(n)]
    } else {
        decimal_digits(n / 10).push(digit_char(n % 10))
    }
}

/// What a revision-number string parses to: its value if it is a canonical
/// numeral that fits a `u64`.
pub open spec fn parse_u64_spec(s: Seq<char>) -> Option<u64> {
    if canonical_decimal(s) && decimal_value(s) <= u64::MAX {
        Some(decimal_value(s) as u64)
    } else {
        None
    }
}

proof fn lemma_decimal_prefix_le(s: Seq<char>, i: int)
    requires
        0 <= i <= s.len(),
    ensures
        decimal_value(s.subrange(0, i)) <= decimal_value(s),
    decreases s.len(),
{
    if i < s.len() {
        lemma_decimal_prefix_le(s.drop_last(), i);
        assert(s.drop_last().subrange(0, i) =~= s.subrange(0, i));
    } else {
        assert(s.subrange(0, i) =~= s);
    }
}

/// The canonical numeral of a number is canonical and denotes that number.
pub proof fn lemma_decimal_round_trip(n: nat)
    ensures
        canonical_decimal(decimal_digits(n)),
        decimal_value(decimal_digits(n)) == n,
        decimal_digits(n).len() >= 1,
    decreases n,
{
    reveal_with_fuel(decimal_value, 2);
    if n >= 10 {
        lemma_decimal_round_trip(n / 10);
        let d = decimal_digits(n / 10);
        let s = decimal_digits(n);
        assert(s.drop_last() =~= d);
        assert(s[0] == d[0]);
        assert forall|i: int| 0 <= i < s.len() implies #[trigger] is_digit(s[i]) by {
            if i < d.len() {
                assert(s[i] == d[i]);
            }
        }
        assert(d[0] != '0') by {
            if d[0] == '0' {
                assert(d.len() == 1);
                assert(d.drop_last() =~= Seq::<char>::empty());
                assert(decimal_value(d) == 0);
            }
        }
    } else {
        let s = decimal_digits(n);
        assert(s.drop_last() =~= Seq::<char>::empty());
    }
}

proof fn lemma_canonical_positive(r: Seq<char>)
    requires
        canonical_decimal(r),
        r[0] != '0',
    ensures
        decimal_value(r) >= 1,
    decreases r.len(),
{
    if r.len() == 1 {
        reveal_with_fuel(decimal_value, 2);
        assert(is_digit(r[0]));
        assert(r.last() == r[0]);
    } else {
        let p = r.drop_last();
        assert(p[0] == r[0]);
        assert forall|i: int| 0 <= i < p.len() implies #[trigger] is_digit(p[i]) by {
            assert(p[i] == r[i]);
        }
        lemma_canonical_positive(p);
    }
}

/// A canonical numeral is the numeral of the number it denotes: there are no
/// two ways of writing a revision number.
pub proof fn lemma_canonical_unique(r: Seq<char>)
    requires
        canonical_decimal(r),
    ensures
        decimal_digits(decimal_value(r)) == r,
    decreases r.len(),
{
    reveal_with_fuel(decimal_value, 2);
    if r.len() == 1 {
        assert(is_digit(r[0]));
        assert(decimal_digits(decimal_value(r)) =~= r);
    } else {
        let p = r.drop_last();
        let c = r.last();
        assert(is_digit(r[r.len() - 1]));
        assert(p[0] == r[0]);
        assert forall|i: int| 0 <= i < p.len() implies #[trigger] is_digit(p[i]) by {
            assert(p[i] == r[i]);
        }
        lemma_canonical_unique(p);
        lemma_canonical_positive(p);
        let n = decimal_value(r);
        assert(n == decimal_value(p) * 10 + digit_value(c));
        assert(n / 10 == decimal_value(p));
        assert(n % 10 == digit_value(c));
        assert(digit_char(digit_value(c)) == c);
        assert(decimal_digits(n) =~= p.push(c));
        assert(p.push(c) =~= r);
    }
}

fn digit_str(d: u64) -> (r: &'static str)
    requires
        d < 10,
    ensures
        r@ == seq![digit_char(d as nat)],
{
    let digits = "0123456789";
    proof {
        reveal_strlit("0123456789");
    }
    let r = digits.substring_char(d as usize, (d + 1) as usize);
    assert(r@ =~= seq![digit_char(d as nat)]);
    r
}

/// Appends the decimal numeral of `n` to `out`.
pub fn push_decimal(out: &mut String, n: u64)
    ensures
        final(out)@ == old(out)@ + decimal_digits(n as nat),
    decreases n,
{
    if n >= 10 {
        push_decimal(out, n / 10);
    }
    out.append(digit_str(n % 10));
    assert(decimal_digits(n as nat) =~= if n < 10 {
        seq![digit_char(n as nat)]
    } else {
        decimal_digits((n / 10) as nat).push(digit_char((n % 10) as nat))
    });
}

/// Parses a canonical decimal numeral that fits a `u64`.
pub fn parse_u64(s: &str) -> (r: Option<u64>)
    ensures
        r == parse_u64_spec(s@),
{
    let n = s.unicode_len();
    if n == 0 {
        return None;
    }
    if s.get_char(0) == '0' && n != 1 {
        return None;
    }
    let mut v: u64 = 0;
    let mut i: usize = 0;
    while i < n
        invariant
            n == s@.len(),
            i <= n,
            forall|j: int| 0 <= j < i ==> #[trigger] is_digit(s@[j]),
            v == decimal_value(s@.subrange(0, i as int)),
        decreases n - i,
    {
        let c = s.get_char(i);
        if !('0' <= c && c <= '9') {
            assert(!is_digit(s@[i as int]));
            return None;
        }
        let d = (c as u32 - '0' as u32) as u64;
        assert(s@.subrange(0, i + 1).drop_last() =~= s@.subrange(0, i as int));
        assert(decimal_value(s@.subrange(0, i + 1)) == v * 10 + d);
        if v > (u64::MAX - d) / 10 {
            proof {
                assert(v * 10 + d > u64::MAX) by (nonlinear_arith)
                    requires
                        v > (u64::MAX - d) / 10,
                        d < 10,
                ;
                lemma_decimal_prefix_le(s@, i + 1);
            }
            return None;
        }
        v = v * 10 + d;
        i = i + 1;
    }
    assert(s@.subrange(0, n as int) =~= s@);
    Some(v)
}

/// `s` is `{prefix}{n}` for a canonical numeral `n` that fits a `u64`.
pub open spec fn is_named_index(s: Seq<char>, prefix: Seq<char>) -> bool {
    &&& s.len() > prefix.len()
    &&& s.subrange(0, prefix.len() as int) == prefix
    &&& parse_u64_spec(s.subrange(prefix.len() as int, s.len() as int)) is Some
}

/// Checks that `s` is `{prefix}{n}` for a canonical numeral `n`.
fn parse_named_index(s: &str, prefix: &str) -> (r: bool)
    ensures
        r == is_named_index(s@, prefix@),
{
    let n = s.unicode_len();
    let m = prefix.unicode_len();
    if n <= m {
        return false;
    }
    let mut i: usize = 0;
    while i < m
        invariant
            n == s@.len(),
            m == prefix@.len(),
            m < n,
            i <= m,
            forall|j: int| 0 <= j < i ==> s@[j] == prefix@[j],
        decreases m - i,
    {
        if s.get_char(i) != prefix.get_char(i) {
            assert(s@.subrange(0, m as int)[i as int] != prefix@[i as int]);
            return false;
        }
        i = i + 1;
    }
    assert(s@.subrange(0, m as int) =~= prefix@);
    parse_u64(s.substring_char(m, n)).is_some()
}

/// Builds `{prefix}{n}`.
fn named_index(prefix: &str, n: u64) -> (r: String)
    ensures
        r@ == prefix@ + decimal_digits(n as nat),
        is_named_index(r@, prefix@),
{
    let mut s = String::from_str(prefix);
    push_decimal(&mut s, n);
    proof {
        lemma_decimal_round_trip(n as nat);
        assert(s@.subrange(0, prefix@.len() as int) =~= prefix@);
        assert(s@.subrange(prefix@.len() as int, s@.len() as int) =~= decimal_digits(n as nat));
    }
    s
}

/// `s` is `{prefix}{middle}{suffix}` for some middle.
pub open spec fn has_affixes(s: Seq<char>, prefix: Seq<char>, suffix: Seq<char>) -> bool {
    &&& s.len() >= prefix.len() + suffix.len()
    &&& s.subrange(0, prefix.len() as int) == prefix
    &&& s.subrange(s.len() - suffix.len(), s.len() as int) == suffix
}

/// What lies between `prefix` and `suffix` in `s`.
pub open spec fn middle(s: Seq<char>, prefix: Seq<char>, suffix: Seq<char>) -> Seq<char> {
    s.subrange(prefix.len() as int, s.len() - suffix.len())
}

/// Whether `s` has `p` at position `at`.
fn has_at(s: &str, p: &str, at: usize) -> (r: bool)
    requires
        at + p@.len() <= s@.len(),
    ensures
        r == (s@.subrange(at as int, at + p@.len()) == p@),
{
    let m = p.unicode_len();
    let n = s.unicode_len();
    let mut i: usize = 0;
    while i < m
        invariant
            m == p@.len(),
            n == s@.len(),
            at + m <= s@.len(),
            i <= m,
            forall|j: int| 0 <= j < i ==> s@[at + j] == p@[j],
        decreases m - i,
    {
        if s.get_char(at + i) != p.get_char(i) {
            assert(s@.subrange(at as int, at + m)[i as int] != p@[i as int]);
            return false;
        }
        i = i + 1;
    }
    assert(s@.subrange(at as int, at + m) =~= p@);
    true
}

/// The middle of `s` between `prefix` and `suffix`, if `s` has both.
pub fn strip_affixes<'a>(s: &'a str, prefix: &str, suffix: &str) -> (r: Option<&'a str>)
    ensures
        r is Some <==> has_affixes(s@, prefix@, suffix@),
        r matches Some(m) ==> m@ == middle(s@, prefix@, suffix@) && s@ == prefix@ + m@ + suffix@,
{
    let n = s.unicode_len();
    let a = prefix.unicode_len();
    let b = suffix.unicode_len();
    if n < a || n - a < b {
        return None;
    }
    if !has_at(s, prefix, 0) || !has_at(s, suffix, n - b) {
        return None;
    }
    let m = s.substring_char(a, n - b);
    assert(s@ =~= prefix@ + m@ + suffix@) by {
        assert(s@.subrange(0, a as int) == prefix@);
        assert(s@.subrange(n - b, n as int) == suffix@);
    }
    Some(m)
}

/// Compares two strings character by character.
pub fn str_eq(a: &str, b: &str) -> (r: bool)
    ensures
        r == (a@ == b@),
{
    let n = a.unicode_len();
    if n != b.unicode_len() {
        return false;
    }
    let mut i: usize = 0;
    while i < n
        invariant
            n == a@.len(),
            n == b@.len(),
            i <= n,
            forall|j: int| 0 <= j < i ==> a@[j] == b@[j],
        decreases n - i,
    {
        if a.get_char(i) != b.get_char(i) {
            return false;
        }
        i = i + 1;
    }
    assert(a@ =~= b@);
    true
}

/// A valid port identifier: 2 to 128 ICS-24 characters.
pub open spec fn valid_port_id(s: Seq<char>) -> bool {
    s.len() > 0 && all_id_chars(s) && length_ok(s, 2, 128)
}

/// A valid client identifier: 9 to 64 ICS-24 characters.
pub open spec fn valid_client_id(s: Seq<char>) -> bool {
    s.len() > 0 && all_id_chars(s) && length_ok(s, 9, 64)
}

/// Identifies a port, the binding point of an application module.
#[derive(Clone, Debug, PartialEq, Eq, PartialOrd, Ord, Hash)]
pub struct PortId {
    id: String,
}

impl View for PortId {
    type V = Seq<char>;

    closed spec fn view(&self) -> Seq<char> {
        self.id@
    }
}

impl PortId {
    /// Builds a port identifier, checking its characters and its length.
    pub fn new(id: &str) -> (r: Result<PortId, IdentifierError>)
        ensures
            r is Ok <==> valid_port_id(id@),
            r matches Ok(p) ==> p@ == id@,
    {
        validate_identifier_chars(id)?;
        validate_identifier_length(id, 2, 128)?;
        Ok(PortId { id: String::from_str(id) })
    }

    /// The port that a host binds when none is named: `defaultPort`.
    pub fn default_port() -> (r: PortId)
        ensures
            r@ == "defaultPort"@,
    {
        PortId { id: String::from_str("defaultPort") }
    }

    pub fn as_str(&self) -> (r: &str)
        ensures
            r@ == self@,
    {
        self.id.as_str()
    }

    pub fn same(&self, other: &PortId) -> (r: bool)
        ensures
            r == (self@ == other@),
    {
        self.id == other.id
    }

    pub fn duplicate(&self) -> (r: PortId)
        ensures
            r@ == self@,
    {
        PortId { id: self.id.clone() }
    }

    pub fn duplicate_exact(&self) -> (r: PortId)
        ensures
            r == *self,
    {
        PortId { id: self.id.clone() }
    }
}

/// Identifies a channel end: `channel-{n}`.
#[derive(Clone, Debug, PartialEq, Eq, PartialOrd, Ord, Hash)]
pub struct ChannelId {
    id: String,
}

impl View for ChannelId {
    type V = Seq<char>;

    closed spec fn view(&self) -> Seq<char> {
        self.id@
    }
}

impl ChannelId {
    /// The text of `channel-{counter}`.
    pub open spec fn spec_named(counter: u64) -> Seq<char> {
        "channel-"@ + decimal_digits(counter as nat)
    }

    /// The identifier of the channel with sequence number `counter`.
    pub fn new(counter: u64) -> (r: ChannelId)
        ensures
            r@ == "channel-"@ + decimal_digits(counter as nat),
            is_named_index(r@, "channel-"@),
    {
        ChannelId { id: named_index("channel-", counter) }
    }

    /// Parses `channel-{n}`.
    pub fn parse(id: &str) -> (r: Result<ChannelId, IdentifierError>)
        ensures
            r is Ok <==> is_named_index(id@, "channel-"@),
            r matches Ok(c) ==> c@ == id@,
    {
        if parse_named_index(id, "channel-") {
            Ok(ChannelId { id: String::from_str(id) })
        } else {
            Err(IdentifierError::InvalidNamedIndex { id: String::from_str(id) })
        }
    }

    pub fn as_str(&self) -> (r: &str)
        ensures
            r@ == self@,
    {
        self.id.as_str()
    }

    pub fn same(&self, other: &ChannelId) -> (r: bool)
        ensures
            r == (self@ == other@),
    {
        self.id == other.id
    }

    pub fn duplicate(&self) -> (r: ChannelId)
        ensures
            r@ == self@,
    {
        ChannelId { id: self.id.clone() }
    }

    pub fn duplicate_exact(&self) -> (r: ChannelId)
        ensures
            r == *self,
    {
        ChannelId { id: self.id.clone() }
    }
}

/// Identifies a connection end: `connection-{n}`.
#[derive(Clone, Debug, PartialEq, Eq, PartialOrd, Ord, Hash)]
pub struct ConnectionId {
    id: String,
}

impl View for ConnectionId {
    type V = Seq<char>;

    closed spec fn view(&self) -> Seq<char> {
        self.id@
    }
}

impl ConnectionId {
    /// The text of `connection-{counter}`.
    pub open spec fn spec_named(counter: u64) -> Seq<char> {
        "connection-"@ + decimal_digits(counter as nat)
    }

    /// The identifier of the connection with sequence number `counter`.
    pub fn new(counter: u64) -> (r: ConnectionId)
        ensures
            r@ == "connection-"@ + decimal_digits(counter as nat),
            is_named_index(r@, "connection-"@),
    {
        ConnectionId { id: named_index("connection-", counter) }
    }

    /// Parses `connection-{n}`.
    pub fn parse(id: &str) -> (r: Result<ConnectionId, IdentifierError>)
        ensures
            r is Ok <==> is_named_index(id@, "connection-"@),
            r matches Ok(c) ==> c@ == id@,
    {
        if parse_named_index(id, "connection-") {
            Ok(ConnectionId { id: String::from_str(id) })
        } else {
            Err(IdentifierError::InvalidNamedIndex { id: String::from_str(id) })
        }
    }

    pub fn as_str(&self) -> (r: &str)
        ensures
            r@ == self@,
    {
        self.id.as_str()
    }

    pub fn same(&self, other: &ConnectionId) -> (r: bool)
        ensures
            r == (self@ == other@),
    {
        self.id == other.id
    }

    pub fn duplicate(&self) -> (r: ConnectionId)
        ensures
            r@ == self@,
    {
        ConnectionId { id: self.id.clone() }
    }

    pub fn duplicate_exact(&self) -> (r: ConnectionId)
        ensures
            r == *self,
    {
        ConnectionId { id: self.id.clone() }
    }
}

/// Identifies a light client: `{client type}-{n}`.
#[derive(Clone, Debug, PartialEq, Eq, PartialOrd, Ord, Hash)]
pub struct ClientId {
    id: String,
}

impl View for ClientId {
    type V = Seq<char>;

    closed spec fn view(&self) -> Seq<char> {
        self.id@
    }
}

impl ClientId {
    /// The identifier `{client_type}-{counter}` of a newly created client.
    pub fn new(client_type: &str, counter: u64) -> (r: Result<ClientId, IdentifierError>)
        ensures
            r is Ok <==> (client_type@.len() > 0 && all_id_chars(client_type@) && length_ok(
                client_type@,
                prefix_min(9),
                prefix_max(64),
            )),
            r matches Ok(c) ==> c@ == client_type@ + seq!['-'] + decimal_digits(counter as nat),
    {
        validate_identifier_chars(client_type)?;
        validate_prefix_length(client_type, 9, 64)?;
        let mut id = String::from_str(client_type);
        id.append("-");
        push_decimal(&mut id, counter);
        proof {
            reveal_strlit("-");
        }
        Ok(ClientId { id })
    }

    /// Parses a client identifier: 9 to 64 ICS-24 characters.
    pub fn parse(id: &str) -> (r: Result<ClientId, IdentifierError>)
        ensures
            r is Ok <==> valid_client_id(id@),
            r matches Ok(c) ==> c@ == id@,
    {
        validate_identifier_chars(id)?;
        validate_identifier_length(id, 9, 64)?;
        Ok(ClientId { id: String::from_str(id) })
    }

    pub fn as_str(&self) -> (r: &str)
        ensures
            r@ == self@,
    {
        self.id.as_str()
    }

    pub fn same(&self, other: &ClientId) -> (r: bool)
        ensures
            r == (self@ == other@),
    {
        self.id == other.id
    }

    pub fn duplicate(&self) -> (r: ClientId)
        ensures
            r@ == self@,
    {
        ClientId { id: self.id.clone() }
    }

    pub fn duplicate_exact(&self) -> (r: ClientId)
        ensures
            r == *self,
    {
        ClientId { id: self.id.clone() }
    }
}

impl core::str::FromStr for PortId {
    type Err = IdentifierError;

    fn from_str(id: &str) -> Result<PortId, IdentifierError> {
        PortId::new(id)
    }
}

impl core::str::FromStr for ChannelId {
    type Err = IdentifierError;

    fn from_str(id: &str) -> Result<ChannelId, IdentifierError> {
        ChannelId::parse(id)
    }
}

impl core::str::FromStr for ConnectionId {
    type Err = IdentifierError;

    fn from_str(id: &str) -> Result<ConnectionId, IdentifierError> {
        ConnectionId::parse(id)
    }
}

impl core::str::FromStr for ClientId {
    type Err = IdentifierError;

    fn from_str(id: &str) -> Result<ClientId, IdentifierError> {
        ClientId::parse(id)
    }
}

} // verus!
