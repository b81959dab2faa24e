//! What holds of the rules: which configurations are invalid, and what
//! is reported of them.

use crate::models::{PruneOptions, RpcUserView, ServiceView};
use crate::validation::{
    all_hex_digits, byte_len, is_password_hmac, lemma_valid_iff_no_violation, length_ok,
    length_violations, pattern_violations, range_ok, range_violations, users_violations, Field,
    Rule, Violation,
};
use vstd::prelude::*;
use vstd::utf8::*;

verus! {

/// Text has at least one byte for each character and at most four, and
/// ASCII text has exactly one.
pub proof fn lemma_byte_len_bounds(text: Seq<char>)
    ensures
        text.len() <= byte_len(text) <= 4 * text.len(),
        is_ascii_chars(text) ==> byte_len(text) == text.len(),
    decreases text.len(),
{
    if text.len() > 0 {
        lemma_byte_len_bounds(text.drop_first());
        if is_ascii_chars(text) {
            is_ascii_chars_encode_utf8(text);
        }
    }
}

/// A salt of one or more hexadecimal digits, a dollar sign and an HMAC of
/// 64 hexadecimal digits make a password HMAC.
pub proof fn lemma_password_hmac_from_parts(salt: Seq<char>, hmac: Seq<char>)
    requires
        salt.len() >= 1,
        all_hex_digits(salt),
        hmac.len() == 64,
        all_hex_digits(hmac),
    ensures
        is_password_hmac(salt + seq!['$'] + hmac),
{
    let text = salt + seq!['$'] + hmac;
    assert(text.subrange(0, salt.len() as int) =~= salt);
    assert(text.subrange(salt.len() as int + 1, text.len() as int) =~= hmac);
}

/// Every password HMAC is made of such a salt, a dollar sign and such an
/// HMAC.
pub proof fn lemma_password_hmac_parts(text: Seq<char>) -> (parts: (Seq<char>, Seq<char>))
    requires
        is_password_hmac(text),
    ensures
        text == parts.0 + seq!['$'] + parts.1,
        parts.0.len() >= 1,
        all_hex_digits(parts.0),
        parts.1.len() == 64,
        all_hex_digits(parts.1),
{
    let salt_len = text.len() - 65;
    let salt = text.subrange(0, salt_len);
    let hmac = text.subrange(salt_len + 1, text.len() as int);
    assert(text =~= salt + seq!['$'] + hmac);
    (salt, hmac)
}

/// A user whose password HMAC is not a salt, a dollar sign and an HMAC is
/// invalid, whatever the name; the pattern rule is the first that is
/// reported.
pub proof fn lemma_bad_password_hmac_is_invalid(user: RpcUserView)
    requires
        !is_password_hmac(user.password_hmac),
    ensures
        !user.is_valid(),
        user.violations().len() > 0,
        user.violations()[0] == (Violation {
            field: Field::PasswordHmac,
            index: None,
            rule: Rule::Pattern,
        }),
{
}

/// A user whose name has fewer than three bytes is invalid, whatever the
/// password HMAC; the length rule is the last that is reported.
pub proof fn lemma_short_name_is_invalid(user: RpcUserView)
    requires
        byte_len(user.name) < 3,
    ensures
        !user.is_valid(),
        user.violations().len() > 0,
        user.violations().last() == (Violation {
            field: Field::Name,
            index: None,
            rule: Rule::Length { min_bytes: 3 },
        }),
{
}

/// A configuration with an invalid RPC user is invalid.
pub proof fn lemma_invalid_user_in_service(service: ServiceView, i: int)
    requires
        service.rpc_users matches Some(users) && 0 <= i < users.len() && !users[i].is_valid(),
    ensures
        !service.is_valid(),
        service.violations().len() > 0,
{
    lemma_valid_iff_no_violation(service);
}

/// Automatic pruning that sets in below 551 MiB is invalid, and so is
/// every configuration that asks for it; at 551 MiB and above the prune
/// option is valid.
pub proof fn lemma_prune_floor(service: ServiceView, prune_at: u32)
    requires
        service.prune == Some(PruneOptions::Automatic { prune_at }),
    ensures
        prune_at < 551 ==> !service.is_valid() && service.violations().len() > 0,
        prune_at < 551 ==> service.prune->0.violations() == seq![
            Violation {
                field: Field::PruneAt,
                index: None,
                rule: Rule::Range { min: 551, max: None },
            },
        ],
        prune_at >= 551 ==> service.prune->0.is_valid(),
{
    lemma_valid_iff_no_violation(service);
}

/// The rule that `field` is under.
pub open spec fn rule_of(field: Field) -> Rule {
    match field {
        Field::PasswordHmac => Rule::Pattern,
        Field::Name => Rule::Length { min_bytes: 3 },
        Field::PruneAt => Rule::Range { min: 551, max: None },
        Field::User => Rule::Length { min_bytes: 3 },
        Field::RpcPort => Rule::Range { min: 1024, max: Some(65535) },
        Field::PruneSize => Rule::Range { min: 1, max: None },
        Field::Port => Rule::Range { min: 1024, max: Some(65535) },
        Field::DbCache => Rule::Range { min: 4, max: Some(16384) },
    }
}

/// The user at place `index` of `service` breaks the rule of its field
/// `field`.
pub open spec fn user_breaks_rule(service: ServiceView, field: Field, index: usize) -> bool {
    &&& service.rpc_users matches Some(users)
    &&& index < users.len()
    &&& match field {
        Field::PasswordHmac => !is_password_hmac(users[index as int].password_hmac),
        Field::Name => !length_ok(users[index as int].name, 3),
        _ => false,
    }
}

/// The field `field` of `service` itself is set and breaks its rule.
pub open spec fn service_breaks_rule(service: ServiceView, field: Field) -> bool {
    match field {
        Field::User => service.user matches Some(user) && !length_ok(user, 3),
        Field::RpcPort => service.rpc_port matches Some(port) && !(1024 <= port <= 65535),
        Field::PruneAt => service.prune matches Some(PruneOptions::Automatic { prune_at })
            && prune_at < 551,
        Field::PruneSize => service.prune_size matches Some(size) && size < 1,
        Field::Port => service.port matches Some(port) && !(1024 <= port <= 65535),
        Field::DbCache => service.db_cache matches Some(size) && !(4 <= size <= 16384),
        _ => false,
    }
}

/// The field that `violation` names, at the place it names, breaks its
/// rule, and that rule is the one that `violation` names.
pub open spec fn is_broken(service: ServiceView, violation: Violation) -> bool {
    &&& violation.rule == rule_of(violation.field)
    &&& match violation.index {
        Some(index) => user_breaks_rule(service, violation.field, index),
        None => service_breaks_rule(service, violation.field),
    }
}

proof fn lemma_one_or_none_contains(found: Seq<Violation>, one: Violation, violation: Violation)
    requires
        found == seq![one] || found == Seq::<Violation>::empty(),
    ensures
        found.contains(violation) <==> found.len() == 1 && violation == one,
{
    if found.len() == 1 {
        assert(found[0] == one);
    }
}

proof fn lemma_length_reported(
    field: Field,
    index: Option<usize>,
    text: Seq<char>,
    min: usize,
    violation: Violation,
)
    ensures
        length_violations(field, index, text, min).contains(violation) <==> !length_ok(text, min)
            && violation == (Violation { field, index, rule: Rule::Length { min_bytes: min } }),
{
    lemma_one_or_none_contains(
        length_violations(field, index, text, min),
        Violation { field, index, rule: Rule::Length { min_bytes: min } },
        violation,
    );
}

proof fn lemma_range_reported(
    field: Field,
    index: Option<usize>,
    value: int,
    min: i64,
    max: Option<i64>,
    violation: Violation,
)
    ensures
        range_violations(field, index, value, min, max).contains(violation) <==> !range_ok(
            value,
            min,
            max,
        ) && violation == (Violation { field, index, rule: Rule::Range { min, max } }),
{
    lemma_one_or_none_contains(
        range_violations(field, index, value, min, max),
        Violation { field, index, rule: Rule::Range { min, max } },
        violation,
    );
}

proof fn lemma_pattern_reported(
    field: Field,
    index: Option<usize>,
    text: Seq<char>,
    violation: Violation,
)
    ensures
        pattern_violations(field, index, text).contains(violation) <==> !is_password_hmac(text)
            && violation == (Violation { field, index, rule: Rule::Pattern }),
{
    lemma_one_or_none_contains(
        pattern_violations(field, index, text),
        Violation { field, index, rule: Rule::Pattern },
        violation,
    );
}

/// What is reported of one user, under whatever index.
proof fn lemma_user_reported(user: RpcUserView, index: Option<usize>, violation: Violation)
    ensures
        user.violations_at(index).contains(violation) <==> violation.index == index && violation.rule
            == rule_of(violation.field) && match violation.field {
            Field::PasswordHmac => !is_password_hmac(user.password_hmac),
            Field::Name => !length_ok(user.name, 3),
            _ => false,
        },
{
    broadcast use vstd::seq_lib::lemma_seq_concat_contains_all_elements;

    lemma_pattern_reported(Field::PasswordHmac, index, user.password_hmac, violation);
    lemma_length_reported(Field::Name, index, user.name, 3, violation);
}

/// What is reported of the users of a service.
proof fn lemma_users_reported(users: Seq<RpcUserView>, violation: Violation)
    requires
        users.len() <= usize::MAX,
    ensures
        users_violations(users).contains(violation) <==> violation.rule == rule_of(violation.field)
            && violation.index is Some && user_breaks_rule(
            ServiceView { rpc_users: Some(users), ..ServiceView::unset() },
            violation.field,
            violation.index->0,
        ),
    decreases users.len(),
{
    broadcast use vstd::seq_lib::lemma_seq_concat_contains_all_elements;

    if users.len() > 0 {
        let front = users.drop_last();
        let last = (users.len() - 1) as usize;
        lemma_users_reported(front, violation);
        lemma_user_reported(users.last(), Some(last), violation);
        if let Some(index) = violation.index {
            if index < front.len() {
                assert(front[index as int] == users[index as int]);
            }
        }
    }
}

/// No broken rule is dropped and none is made up: a violation is
/// reported exactly when the field it names, at the place it names,
/// breaks the rule it names.
pub proof fn lemma_reported_iff_broken(service: ServiceView, violation: Violation)
    requires
        service.rpc_users matches Some(users) ==> users.len() <= usize::MAX,
    ensures
        service.violations().contains(violation) <==> is_broken(service, violation),
{
    broadcast use vstd::seq_lib::lemma_seq_concat_contains_all_elements;

    if let Some(user) = service.user {
        lemma_length_reported(Field::User, None, user, 3, violation);
    }
    if let Some(users) = service.rpc_users {
        lemma_users_reported(users, violation);
    }
    if let Some(port) = service.rpc_port {
        lemma_range_reported(Field::RpcPort, None, port as int, 1024, Some(65535), violation);
    }
    if let Some(PruneOptions::Automatic { prune_at }) = service.prune {
        lemma_range_reported(Field::PruneAt, None, prune_at as int, 551, None, violation);
    }
    if let Some(size) = service.prune_size {
        lemma_range_reported(Field::PruneSize, None, size as int, 1, None, violation);
    }
    if let Some(port) = service.port {
        lemma_range_reported(Field::Port, None, port as int, 1024, Some(65535), violation);
    }
    if let Some(size) = service.db_cache {
        lemma_range_reported(Field::DbCache, None, size as int, 4, Some(16384), violation);
    }
}

} // verus!
