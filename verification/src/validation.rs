//! The rules that a configuration has to meet, and the check that reports
//! every rule it breaks.

use crate::models::{
    BitcoinDaemonService, BitcoinDaemonServiceRPCUser, PruneOptions, RpcUserView, ServiceView,
};
use vstd::prelude::*;
use vstd::string::*;
use vstd::utf8::*;

verus! {

/// The least number of bytes in the name of a user, be it the user that
/// runs the service or a user of the RPC interface.
pub const MIN_NAME_BYTES: usize = 3;

/// The least port that can be configured.
pub const MIN_PORT: i64 = 1024;

/// The greatest port that can be configured.
pub const MAX_PORT: i64 = 65535;

/// The least size in MiB at which automatic pruning can set in.
pub const MIN_PRUNE_AT: i64 = 551;

/// The least prune size in MiB.
pub const MIN_PRUNE_SIZE: i64 = 1;

/// The least database cache size in MiB.
pub const MIN_DB_CACHE: i64 = 4;

/// The greatest database cache size in MiB.
pub const MAX_DB_CACHE: i64 = 16384;

/// The number of hexadecimal digits of an HMAC-SHA-256.
pub const HMAC_DIGITS: usize = 64;

/// The ASCII codes of `0`, `9`, `a`, `f` and `$`.
const ASCII_0: u8 = 0x30;

const ASCII_9: u8 = 0x39;

const ASCII_A: u8 = 0x61;

const ASCII_F: u8 = 0x66;

const ASCII_DOLLAR: u8 = 0x24;

/// The fields that carry a rule.
#[derive(Debug, Clone, Copy, PartialEq, Eq)]
pub enum Field {
    /// `password_hmac` of an RPC user.
    PasswordHmac,
    /// `name` of an RPC user.
    Name,
    /// `prune_at` of automatic pruning.
    PruneAt,
    /// `user` of a service.
    User,
    /// `rpc_port` of a service.
    RpcPort,
    /// `prune_size` of a service.
    PruneSize,
    /// `port` of a service.
    Port,
    /// `db_cache` of a service.
    DbCache,
}

/// The rules a field can be under.
#[derive(Debug, Clone, Copy, PartialEq, Eq)]
pub enum Rule {
    /// The text is at least `min_bytes` bytes long.
    Length { min_bytes: usize },
    /// The number is at least `min` and, where `max` is set, at most `max`.
    Range { min: i64, max: Option<i64> },
    /// The text is a salt and an HMAC-SHA-256, see [`is_password_hmac`].
    Pattern,
}

/// A rule that a field breaks. `index` is set where the field belongs to
/// an RPC user of a service, and is that user's place among `rpc_users`.
#[derive(Debug, Clone, Copy, PartialEq, Eq)]
pub struct Violation {
    pub field: Field,
    pub index: Option<usize>,
    pub rule: Rule,
}

/// The number of bytes of `text` in UTF-8.
pub open spec fn byte_len(text: Seq<char>) -> nat {
    encode_utf8(text).len()
}

/// A digit, or a letter from `a` to `f` in lower case.
pub open spec fn is_hex_digit(c: char) -> bool {
    ('0' <= c && c <= '9') || ('a' <= c && c <= 'f')
}

/// Every character of `text` is a hexadecimal digit in lower case.
pub open spec fn all_hex_digits(text: Seq<char>) -> bool {
    forall|i: int| 0 <= i < text.len() ==> is_hex_digit(#[trigger] text[i])
}

/// The whole of `text` is a salt of one or more hexadecimal digits, a
/// dollar sign, and an HMAC of 64 hexadecimal digits.
pub open spec fn is_password_hmac(text: Seq<char>) -> bool {
    let salt_len = text.len() - HMAC_DIGITS - 1;
    &&& salt_len >= 1
    &&& all_hex_digits(text.subrange(0, salt_len))
    &&& text[salt_len] == '$'
    &&& all_hex_digits(text.subrange(salt_len + 1, text.len() as int))
}

/// The length rule holds of `text`.
pub open spec fn length_ok(text: Seq<char>, min: usize) -> bool {
    byte_len(text) >= min
}

/// The range rule holds of `value`.
pub open spec fn range_ok(value: int, min: i64, max: Option<i64>) -> bool {
    &&& min <= value
    &&& max matches Some(m) ==> value <= m
}

/// What the length rule reports of `text`.
pub open spec fn length_violations(
    field: Field,
    index: Option<usize>,
    text: Seq<char>,
    min: usize,
) -> Seq<Violation> {
    if length_ok(text, min) {
        seq![]
    } else {
        seq![Violation { field, index, rule: Rule::Length { min_bytes: min } }]
    }
}

/// What the range rule reports of `value`.
pub open spec fn range_violations(
    field: Field,
    index: Option<usize>,
    value: int,
    min: i64,
    max: Option<i64>,
) -> Seq<Violation> {
    if range_ok(value, min, max) {
        seq![]
    } else {
        seq![Violation { field, index, rule: Rule::Range { min, max } }]
    }
}

/// What the pattern rule reports of `text`.
pub open spec fn pattern_violations(
    field: Field,
    index: Option<usize>,
    text: Seq<char>,
) -> Seq<Violation> {
    if is_password_hmac(text) {
        seq![]
    } else {
        seq![Violation { field, index, rule: Rule::Pattern }]
    }
}

impl PruneOptions {
    /// Automatic pruning sets in at 551 MiB or more; the other options
    /// are under no rule.
    pub open spec fn is_valid(self) -> bool {
        self matches PruneOptions::Automatic { prune_at } ==> range_ok(
            prune_at as int,
            MIN_PRUNE_AT,
            None,
        )
    }

    /// The rule the option breaks, if it breaks it.
    pub open spec fn violations(self) -> Seq<Violation> {
        match self {
            PruneOptions::Automatic { prune_at } => range_violations(
                Field::PruneAt,
                None,
                prune_at as int,
                MIN_PRUNE_AT,
                None,
            ),
            PruneOptions::Disable => seq![],
            PruneOptions::Manual => seq![],
        }
    }
}

impl RpcUserView {
    /// The password is a salt and an HMAC, and the name has three bytes
    /// or more.
    pub open spec fn is_valid(self) -> bool {
        &&& is_password_hmac(self.password_hmac)
        &&& length_ok(self.name, MIN_NAME_BYTES)
    }

    /// The rules the user breaks, in the order of the fields, reported
    /// under `index`.
    pub open spec fn violations_at(self, index: Option<usize>) -> Seq<Violation> {
        pattern_violations(Field::PasswordHmac, index, self.password_hmac) + length_violations(
            Field::Name,
            index,
            self.name,
            MIN_NAME_BYTES,
        )
    }

    /// The rules the user breaks, in the order of the fields.
    pub open spec fn violations(self) -> Seq<Violation> {
        self.violations_at(None)
    }
}

/// The rules that `users` break, user by user, each reported under the
/// user's place.
pub open spec fn users_violations(users: Seq<RpcUserView>) -> Seq<Violation>
    decreases users.len(),
{
    if users.len() == 0 {
        seq![]
    } else {
        users_violations(users.drop_last()) + users.last().violations_at(
            Some((users.len() - 1) as usize),
        )
    }
}

impl ServiceView {
    /// Every field that is set meets its rule. A field that is not set
    /// is valid.
    pub open spec fn is_valid(self) -> bool {
        &&& self.user matches Some(user) ==> length_ok(user, MIN_NAME_BYTES)
        &&& self.rpc_users matches Some(users) ==> forall|i: int|
            0 <= i < users.len() ==> (#[trigger] users[i]).is_valid()
        &&& self.rpc_port matches Some(port) ==> range_ok(port as int, MIN_PORT, Some(MAX_PORT))
        &&& self.prune matches Some(prune) ==> prune.is_valid()
        &&& self.prune_size matches Some(size) ==> range_ok(size as int, MIN_PRUNE_SIZE, None)
        &&& self.port matches Some(port) ==> range_ok(port as int, MIN_PORT, Some(MAX_PORT))
        &&& self.db_cache matches Some(size) ==> range_ok(
            size as int,
            MIN_DB_CACHE,
            Some(MAX_DB_CACHE),
        )
    }

    /// The rules the configuration breaks, in the order of the fields.
    pub open spec fn violations(self) -> Seq<Violation> {
        (match self.user {
            Some(user) => length_violations(Field::User, None, user, MIN_NAME_BYTES),
            None => seq![],
        }) + (match self.rpc_users {
            Some(users) => users_violations(users),
            None => seq![],
        }) + (match self.rpc_port {
            Some(port) => range_violations(
                Field::RpcPort,
                None,
                port as int,
                MIN_PORT,
                Some(MAX_PORT),
            ),
            None => seq![],
        }) + (match self.prune {
            Some(prune) => prune.violations(),
            None => seq![],
        }) + (match self.prune_size {
            Some(size) => range_violations(
                Field::PruneSize,
                None,
                size as int,
                MIN_PRUNE_SIZE,
                None,
            ),
            None => seq![],
        }) + (match self.port {
            Some(port) => range_violations(Field::Port, None, port as int, MIN_PORT, Some(MAX_PORT)),
            None => seq![],
        }) + (match self.db_cache {
            Some(size) => range_violations(
                Field::DbCache,
                None,
                size as int,
                MIN_DB_CACHE,
                Some(MAX_DB_CACHE),
            ),
            None => seq![],
        })
    }
}

/// Users are valid, all of them, exactly when they break no rule.
pub proof fn lemma_users_valid_iff_no_violation(users: Seq<RpcUserView>)
    ensures
        users_violations(users).len() == 0 <==> forall|i: int|
            0 <= i < users.len() ==> (#[trigger] users[i]).is_valid(),
    decreases users.len(),
{
    if users.len() > 0 {
        let front = users.drop_last();
        lemma_users_valid_iff_no_violation(front);
        let index = Some((users.len() - 1) as usize);
        assert(users.last().is_valid() <==> users.last().violations_at(index).len() == 0);
        if users_violations(users).len() == 0 {
            assert forall|i: int| 0 <= i < users.len() implies (#[trigger] users[i]).is_valid() by {
                if i < front.len() {
                    assert(front[i] == users[i]);
                }
            }
        }
        if forall|i: int| 0 <= i < users.len() ==> (#[trigger] users[i]).is_valid() {
            assert forall|i: int| 0 <= i < front.len() implies (#[trigger] front[i]).is_valid() by {
                assert(front[i] == users[i]);
            }
            assert(users[users.len() - 1].is_valid());
        }
    }
}

/// A configuration is valid exactly when it breaks no rule.
pub proof fn lemma_valid_iff_no_violation(service: ServiceView)
    ensures
        service.is_valid() <==> service.violations().len() == 0,
{
    if let Some(users) = service.rpc_users {
        lemma_users_valid_iff_no_violation(users);
    }
}

fn is_hex_byte(byte: u8) -> (res: bool)
    ensures
        res == is_hex_digit(byte as char),
{
    (byte >= ASCII_0 && byte <= ASCII_9) || (byte >= ASCII_A && byte <= ASCII_F)
}

/// Decides the pattern rule: whether the whole of `text` is a salt, a
/// dollar sign and an HMAC.
pub fn check_password_hmac(text: &str) -> (res: bool)
    ensures
        res == is_password_hmac(text@),
{
    if !text.is_ascii() {
        proof {
            if is_password_hmac(text@) {
                let salt_len = text@.len() - HMAC_DIGITS - 1;
                let salt = text@.subrange(0, salt_len);
                let hmac = text@.subrange(salt_len + 1, text@.len() as int);
                assert forall|i: int| 0 <= i < text@.len() implies '\0' <= #[trigger] text@[i]
                    <= '\u{7f}' by {
                    if i < salt_len {
                        assert(is_hex_digit(salt[i]));
                    } else if i > salt_len {
                        assert(is_hex_digit(hmac[i - salt_len - 1]));
                    }
                }
            }
        }
        return false;
    }
    let bytes = text.as_bytes();
    proof {
        is_ascii_chars_encode_utf8(text@);
    }
    let len = bytes.len();
    if len < HMAC_DIGITS + 2 {
        return false;
    }
    let salt_len = len - HMAC_DIGITS - 1;
    let mut i: usize = 0;
    while i < len
        invariant
            i <= len,
            len == bytes@.len(),
            len == text@.len(),
            salt_len == len - HMAC_DIGITS - 1,
            salt_len >= 1,
            is_ascii_chars(text@),
            forall|j: int| 0 <= j < len ==> text@[j] as u8 == #[trigger] bytes@[j],
            forall|j: int| 0 <= j < i && j != salt_len ==> is_hex_digit(#[trigger] text@[j]),
            i > salt_len ==> text@[salt_len as int] == '$',
        decreases len - i,
    {
        let byte = bytes[i];
        assert(text@[i as int] as u8 == byte);
        assert(byte as char == text@[i as int]);
        if i == salt_len {
            if byte != ASCII_DOLLAR {
                return false;
            }
        } else if !is_hex_byte(byte) {
            proof {
                if is_password_hmac(text@) {
                    if i < salt_len {
                        assert(is_hex_digit(text@.subrange(0, salt_len as int)[i as int]));
                    } else {
                        assert(is_hex_digit(
                            text@.subrange(salt_len + 1, len as int)[i - salt_len - 1],
                        ));
                    }
                }
            }
            return false;
        }
        i += 1;
    }
    true
}

fn push_length_violations(
    out: &mut Vec<Violation>,
    field: Field,
    index: Option<usize>,
    text: &str,
    min: usize,
)
    ensures
        final(out)@ == old(out)@ + length_violations(field, index, text@, min),
{
    if text.as_bytes().len() < min {
        out.push(Violation { field, index, rule: Rule::Length { min_bytes: min } });
    }
    assert(out@ =~= old(out)@ + length_violations(field, index, text@, min));
}

fn push_range_violations(
    out: &mut Vec<Violation>,
    field: Field,
    index: Option<usize>,
    value: i64,
    min: i64,
    max: Option<i64>,
)
    ensures
        final(out)@ == old(out)@ + range_violations(field, index, value as int, min, max),
{
    let above = match max {
        Some(m) => value > m,
        None => false,
    };
    if value < min || above {
        out.push(Violation { field, index, rule: Rule::Range { min, max } });
    }
    assert(out@ =~= old(out)@ + range_violations(field, index, value as int, min, max));
}

fn push_pattern_violations(
    out: &mut Vec<Violation>,
    field: Field,
    index: Option<usize>,
    text: &str,
)
    ensures
        final(out)@ == old(out)@ + pattern_violations(field, index, text@),
{
    if !check_password_hmac(text) {
        out.push(Violation { field, index, rule: Rule::Pattern });
    }
    assert(out@ =~= old(out)@ + pattern_violations(field, index, text@));
}

fn finish(out: Vec<Violation>) -> (res: Result<(), Vec<Violation>>)
    ensures
        res is Ok <==> out@.len() == 0,
        res matches Err(found) ==> found@ == out@,
{
    if out.len() == 0 {
        Ok(())
    } else {
        Err(out)
    }
}

impl PruneOptions {
    /// Checks the option against its rule: `Ok` where it is valid, else
    /// the rule it breaks.
    pub fn validate(&self) -> (res: Result<(), Vec<Violation>>)
        ensures
            res is Ok <==> self.is_valid(),
            res matches Err(found) ==> found@ == self.violations() && found@.len() > 0,
    {
        let mut out: Vec<Violation> = Vec::new();
        self.push_violations(&mut out);
        assert(out@ =~= self.violations());
        finish(out)
    }

    fn push_violations(&self, out: &mut Vec<Violation>)
        ensures
            final(out)@ == old(out)@ + self.violations(),
    {
        match self {
            PruneOptions::Automatic { prune_at } => {
                push_range_violations(out, Field::PruneAt, None, *prune_at as i64, MIN_PRUNE_AT, None);
            },
            PruneOptions::Disable => {},
            PruneOptions::Manual => {},
        }
        assert(out@ =~= old(out)@ + self.violations());
    }
}

impl BitcoinDaemonServiceRPCUser {
    /// Checks the user against the rules of its fields: `Ok` where it is
    /// valid, else every rule it breaks, in the order of the fields.
    pub fn validate(&self) -> (res: Result<(), Vec<Violation>>)
        ensures
            res is Ok <==> self@.is_valid(),
            res matches Err(found) ==> found@ == self@.violations() && found@.len() > 0,
    {
        let mut out: Vec<Violation> = Vec::new();
        self.push_violations(None, &mut out);
        assert(out@ =~= self@.violations());
        finish(out)
    }

    fn push_violations(&self, index: Option<usize>, out: &mut Vec<Violation>)
        ensures
            final(out)@ == old(out)@ + self@.violations_at(index),
    {
        push_pattern_violations(out, Field::PasswordHmac, index, self.password_hmac.as_str());
        push_length_violations(out, Field::Name, index, self.name.as_str(), MIN_NAME_BYTES);
        assert(out@ =~= old(out)@ + self@.violations_at(index));
    }
}

fn push_users_violations(users: &Vec<BitcoinDaemonServiceRPCUser>, out: &mut Vec<Violation>)
    ensures
        final(out)@ == old(out)@ + users_violations(users.deep_view()),
{
    let ghost views = users.deep_view();
    let mut i: usize = 0;
    while i < users.len()
        invariant
            i <= users.len(),
            views == users.deep_view(),
            out@ == old(out)@ + users_violations(views.take(i as int)),
        decreases users.len() - i,
    {
        users[i].push_violations(Some(i), out);
        proof {
            let next = views.take(i + 1);
            assert(next.drop_last() =~= views.take(i as int));
            assert(next.last() == users[i as int]@);
            assert(out@ =~= old(out)@ + users_violations(next));
        }
        i += 1;
    }
    assert(views.take(i as int) =~= views);
}

impl BitcoinDaemonService {
    /// Checks every field that is set against its rule. Returns `Ok`
    /// exactly where the configuration is valid, and else every rule it
    /// breaks, in the order of the fields.
    pub fn validate(&self) -> (res: Result<(), Vec<Violation>>)
        ensures
            res is Ok <==> self@.is_valid(),
            res matches Err(found) ==> found@ == self@.violations() && found@.len() > 0,
    {
        let mut out: Vec<Violation> = Vec::new();
        if let Some(user) = &self.user {
            push_length_violations(&mut out, Field::User, None, user.as_str(), MIN_NAME_BYTES);
        }
        if let Some(users) = &self.rpc_users {
            push_users_violations(users, &mut out);
        }
        if let Some(port) = self.rpc_port {
            push_range_violations(
                &mut out,
                Field::RpcPort,
                None,
                port as i64,
                MIN_PORT,
                Some(MAX_PORT),
            );
        }
        if let Some(prune) = &self.prune {
            prune.push_violations(&mut out);
        }
        if let Some(size) = self.prune_size {
            push_range_violations(&mut out, Field::PruneSize, None, size as i64, MIN_PRUNE_SIZE, None);
        }
        if let Some(port) = self.port {
            push_range_violations(&mut out, Field::Port, None, port as i64, MIN_PORT, Some(MAX_PORT));
        }
        if let Some(size) = self.db_cache {
            push_range_violations(
                &mut out,
                Field::DbCache,
                None,
                size as i64,
                MIN_DB_CACHE,
                Some(MAX_DB_CACHE),
            );
        }
        proof {
            assert(out@ =~= self@.violations());
            lemma_valid_iff_no_violation(self@);
        }
        finish(out)
    }
}

} // verus!
