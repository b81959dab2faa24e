//! What holds of the text of every configuration, valid or not.
//!
//! The laws speak of the lines that are written and of their text, which
//! is what goes to the formatter. What the formatter returns is known
//! only as far as [`ServiceView::renders_to`] says.

use crate::bitcoind::{
    closing_lines, network_line, opening_lines, prune_line, prune_lines, repeated_user_lines,
    repeated_users_lines, rpc_port_lines, rpc_users_lines, single_user_lines, user_lines,
};
use crate::formatter::{
    is_attribute_name, is_name_char, stays_quoted, StatusView, MAX_TEXT_BYTES,
};
use crate::models::{
    BitcoinDaemonService, BitcoinNetwork, PruneOptions, RpcUserView, ServiceView,
};
use crate::utils::{decimal, lemma_line_occurs_in_text, occurs_in};
use crate::validation::byte_len;
use vstd::prelude::*;

verus! {


/// `line` is the flag of a network.
pub open spec fn is_network_flag(line: Seq<char>) -> bool {
    exists|network: BitcoinNetwork| line == network_line(network)
}

/// `line` is an assignment `prune = <size>;`.
pub open spec fn is_prune_assignment(line: Seq<char>) -> bool {
    exists|size: nat| line == prune_line(size)
}

/// The network flags among `lines`, in their order.
pub open spec fn network_flags(lines: Seq<Seq<char>>) -> Seq<Seq<char>> {
    lines.filter(|line: Seq<char>| is_network_flag(line))
}

/// The prune assignments among `lines`, in their order.
pub open spec fn prune_assignments(lines: Seq<Seq<char>>) -> Seq<Seq<char>> {
    lines.filter(|line: Seq<char>| is_prune_assignment(line))
}

spec fn flag_shaped(line: Seq<char>) -> bool {
    &&& line.len() >= 2
    &&& line.last() == ';'
    &&& (line[0] == 'm' || line[0] == 't' || (line[0] == 'r' && line[1] == 'e') || (line[0] == 's'
        && line[1] == 'i'))
}

spec fn prune_shaped(line: Seq<char>) -> bool {
    &&& line.len() >= 2
    &&& line.last() == ';'
    &&& line[0] == 'p'
    &&& line[1] == 'r'
}

/// Neither a network flag nor a prune assignment, by its first two
/// characters and its last.
spec fn plain(line: Seq<char>) -> bool {
    !flag_shaped(line) && !prune_shaped(line)
}

spec fn all_plain(lines: Seq<Seq<char>>) -> bool {
    forall|i: int| 0 <= i < lines.len() ==> plain(#[trigger] lines[i])
}

proof fn lemma_network_line_shape(network: BitcoinNetwork)
    ensures
        flag_shaped(network_line(network)),
        !prune_shaped(network_line(network)),
{
    reveal_strlit("mainnet = true;");
    reveal_strlit("testnet = true;");
    reveal_strlit("regtest = true;");
    reveal_strlit("signet = true;");
}

proof fn lemma_prune_line_shape(size: nat)
    ensures
        prune_shaped(prune_line(size)),
        !flag_shaped(prune_line(size)),
{
    reveal_strlit("prune = ");
    reveal_strlit(";");
}

proof fn lemma_plain_is_neither(line: Seq<char>)
    requires
        plain(line),
    ensures
        !is_network_flag(line),
        !is_prune_assignment(line),
{
    if is_network_flag(line) {
        let network = choose|network: BitcoinNetwork| line == network_line(network);
        lemma_network_line_shape(network);
    }
    if is_prune_assignment(line) {
        let size = choose|size: nat| line == prune_line(size);
        lemma_prune_line_shape(size);
    }
}

proof fn lemma_opening_plain()
    ensures
        all_plain(opening_lines()),
{
    reveal_strlit("{");
    reveal_strlit("services.bitcoin = {");
    reveal_strlit("enable = true;");
}

proof fn lemma_closing_plain()
    ensures
        all_plain(closing_lines()),
{
    reveal_strlit("};}");
}

proof fn lemma_single_user_plain(user: RpcUserView)
    ensures
        all_plain(single_user_lines(user)),
{
    reveal_strlit("rpc.users.");
    reveal_strlit(" = {");
    reveal_strlit("name = \"");
    reveal_strlit("\";");
    reveal_strlit("passwordHMAC = \"");
    reveal_strlit("};");
}

proof fn lemma_repeated_user_plain(user: RpcUserView)
    ensures
        all_plain(repeated_user_lines(user)),
{
    reveal_strlit("rpc.users = {");
    reveal_strlit(" = {");
    reveal_strlit("\";");
    reveal_strlit("passwordHMAC = \"");
    reveal_strlit("};};");
}

proof fn lemma_repeated_users_plain(users: Seq<RpcUserView>)
    ensures
        all_plain(repeated_users_lines(users)),
    decreases users.len(),
{
    if users.len() > 0 {
        lemma_repeated_users_plain(users.drop_last());
        lemma_repeated_user_plain(users.last());
    }
}

proof fn lemma_rpc_users_plain(users: Option<Seq<RpcUserView>>)
    ensures
        all_plain(rpc_users_lines(users)),
{
    if let Some(users) = users {
        if users.len() == 1 {
            lemma_single_user_plain(users[0]);
        } else {
            lemma_repeated_users_plain(users);
        }
    }
}

proof fn lemma_rpc_port_plain(port: Option<u16>)
    ensures
        all_plain(rpc_port_lines(port)),
{
    reveal_strlit("rpc.port = ");
    reveal_strlit(";");
}

proof fn lemma_user_plain(user: Option<Seq<char>>)
    ensures
        all_plain(user_lines(user)),
{
    reveal_strlit("user = \"");
    reveal_strlit("\";");
}

proof fn lemma_filter_none(lines: Seq<Seq<char>>, pred: spec_fn(Seq<char>) -> bool)
    requires
        forall|i: int| 0 <= i < lines.len() ==> !pred(#[trigger] lines[i]),
    ensures
        lines.filter(pred) == Seq::<Seq<char>>::empty(),
    decreases lines.len(),
{
    reveal(Seq::filter);
    if lines.len() > 0 {
        lemma_filter_none(lines.drop_last(), pred);
    }
}

proof fn lemma_filter_all(lines: Seq<Seq<char>>, pred: spec_fn(Seq<char>) -> bool)
    requires
        forall|i: int| 0 <= i < lines.len() ==> pred(#[trigger] lines[i]),
    ensures
        lines.filter(pred) == lines,
    decreases lines.len(),
{
    reveal(Seq::filter);
    if lines.len() > 0 {
        lemma_filter_all(lines.drop_last(), pred);
        assert(lines.drop_last().push(lines.last()) =~= lines);
    }
}

/// Of lines that are neither a network flag nor a prune assignment, the
/// filters for both keep nothing.
proof fn lemma_plain_filtered(lines: Seq<Seq<char>>)
    requires
        all_plain(lines),
    ensures
        network_flags(lines) == Seq::<Seq<char>>::empty(),
        prune_assignments(lines) == Seq::<Seq<char>>::empty(),
{
    assert forall|i: int| 0 <= i < lines.len() implies !is_network_flag(#[trigger] lines[i])
        && !is_prune_assignment(lines[i]) by {
        lemma_plain_is_neither(lines[i]);
    }
    lemma_filter_none(lines, |line: Seq<char>| is_network_flag(line));
    lemma_filter_none(lines, |line: Seq<char>| is_prune_assignment(line));
}

/// The prune lines are prune assignments, and none of them is a network
/// flag.
proof fn lemma_prune_lines_filtered(prune: Option<PruneOptions>)
    ensures
        network_flags(prune_lines(prune)) == Seq::<Seq<char>>::empty(),
        prune_assignments(prune_lines(prune)) == prune_lines(prune),
{
    let lines = prune_lines(prune);
    assert forall|i: int| 0 <= i < lines.len() implies !is_network_flag(#[trigger] lines[i])
        && is_prune_assignment(lines[i]) by {
        let size: nat = if let Some(PruneOptions::Automatic { prune_at }) = prune {
            prune_at as nat
        } else {
            1
        };
        assert(lines[i] == prune_line(size));
        lemma_prune_line_shape(size);
        if is_network_flag(lines[i]) {
            let network = choose|network: BitcoinNetwork| lines[i] == network_line(network);
            lemma_network_line_shape(network);
        }
    }
    lemma_filter_none(lines, |line: Seq<char>| is_network_flag(line));
    lemma_filter_all(lines, |line: Seq<char>| is_prune_assignment(line));
}

/// The line of the network is a network flag and no prune assignment.
proof fn lemma_network_line_filtered(network: BitcoinNetwork)
    ensures
        network_flags(seq![network_line(network)]) == seq![network_line(network)],
        prune_assignments(seq![network_line(network)]) == Seq::<Seq<char>>::empty(),
{
    let lines = seq![network_line(network)];
    assert forall|i: int| 0 <= i < lines.len() implies is_network_flag(#[trigger] lines[i])
        && !is_prune_assignment(lines[i]) by {
        lemma_network_line_shape(network);
        if is_prune_assignment(lines[i]) {
            let size = choose|size: nat| lines[i] == prune_line(size);
            lemma_prune_line_shape(size);
        }
    }
    lemma_filter_all(lines, |line: Seq<char>| is_network_flag(line));
    lemma_filter_none(lines, |line: Seq<char>| is_prune_assignment(line));
}

/// Both filters, over the seven runs of lines that make up a rendered
/// configuration.
proof fn lemma_filters_by_run(service: ServiceView)
    ensures
        network_flags(service.lines()) == seq![network_line(service.network)],
        prune_assignments(service.lines()) == prune_lines(service.prune),
{
    reveal(ServiceView::lines);
    let l0 = opening_lines();
    let l1 = seq![network_line(service.network)];
    let l2 = rpc_users_lines(service.rpc_users);
    let l3 = rpc_port_lines(service.rpc_port);
    let l4 = user_lines(service.user);
    let l5 = prune_lines(service.prune);
    let l6 = closing_lines();
    lemma_opening_plain();
    lemma_rpc_users_plain(service.rpc_users);
    lemma_rpc_port_plain(service.rpc_port);
    lemma_user_plain(service.user);
    lemma_closing_plain();
    lemma_plain_filtered(l0);
    lemma_network_line_filtered(service.network);
    lemma_plain_filtered(l2);
    lemma_plain_filtered(l3);
    lemma_plain_filtered(l4);
    lemma_prune_lines_filtered(service.prune);
    lemma_plain_filtered(l6);
    let flag = |line: Seq<char>| is_network_flag(line);
    let prune = |line: Seq<char>| is_prune_assignment(line);
    Seq::filter_distributes_over_add(l0, l1, flag);
    Seq::filter_distributes_over_add(l0 + l1, l2, flag);
    Seq::filter_distributes_over_add(l0 + l1 + l2, l3, flag);
    Seq::filter_distributes_over_add(l0 + l1 + l2 + l3, l4, flag);
    Seq::filter_distributes_over_add(l0 + l1 + l2 + l3 + l4, l5, flag);
    Seq::filter_distributes_over_add(l0 + l1 + l2 + l3 + l4 + l5, l6, flag);
    Seq::filter_distributes_over_add(l0, l1, prune);
    Seq::filter_distributes_over_add(l0 + l1, l2, prune);
    Seq::filter_distributes_over_add(l0 + l1 + l2, l3, prune);
    Seq::filter_distributes_over_add(l0 + l1 + l2 + l3, l4, prune);
    Seq::filter_distributes_over_add(l0 + l1 + l2 + l3 + l4, l5, prune);
    Seq::filter_distributes_over_add(l0 + l1 + l2 + l3 + l4 + l5, l6, prune);
    assert(network_flags(service.lines()) =~= seq![network_line(service.network)]);
    assert(prune_assignments(service.lines()) =~= prune_lines(service.prune));
}

/// Manual pruning is written as the size 1.
proof fn lemma_manual_prune_line()
    ensures
        prune_line(1) == "prune = 1;"@,
{
    reveal_strlit("prune = 1;");
    reveal_strlit("prune = ");
    reveal_strlit(";");
    assert("prune = 1;"@ =~= prune_line(1));
}

/// Whatever the configuration, exactly one of its lines is a network
/// flag, and it is the flag of the configured network.
pub proof fn lemma_one_network_flag(service: ServiceView)
    ensures
        network_flags(service.lines()) == seq![network_line(service.network)],
{
    lemma_filters_by_run(service);
}

/// Where pruning is disabled or not set, no line is a prune assignment.
pub proof fn lemma_no_prune_assignment(service: ServiceView)
    requires
        service.prune is None || service.prune == Some(PruneOptions::Disable),
    ensures
        prune_assignments(service.lines()).len() == 0,
{
    lemma_filters_by_run(service);
}

/// With manual pruning, `prune = 1;` is the one prune assignment among the
/// lines.
pub proof fn lemma_manual_prune_assignment(service: ServiceView)
    requires
        service.prune == Some(PruneOptions::Manual),
    ensures
        prune_assignments(service.lines()) == seq!["prune = 1;"@],
{
    lemma_filters_by_run(service);
    lemma_manual_prune_line();
}

/// With automatic pruning, the assignment of its size is the one prune
/// assignment among the lines.
pub proof fn lemma_automatic_prune_assignment(service: ServiceView, prune_at: u32)
    requires
        service.prune == Some(PruneOptions::Automatic { prune_at }),
    ensures
        prune_assignments(service.lines()) == seq!["prune = "@ + decimal(prune_at as nat) + ";"@],
{
    lemma_filters_by_run(service);
}

/// The prune assignments among the lines of a configuration are those of
/// its prune option and no others.
pub proof fn lemma_prune_assignments(service: ServiceView)
    ensures
        prune_assignments(service.lines()) == prune_lines(service.prune),
{
    lemma_filters_by_run(service);
}

/// `line` begins with `rpc.users`: it assigns to the users of the RPC
/// interface, or to one of them.
pub open spec fn assigns_rpc_users(line: Seq<char>) -> bool {
    line.len() >= 9 && line.subrange(0, 9) == "rpc.users"@
}

/// The lines among `lines` that assign to the RPC users, in their order.
pub open spec fn rpc_users_assignments(lines: Seq<Seq<char>>) -> Seq<Seq<char>> {
    lines.filter(|line: Seq<char>| assigns_rpc_users(line))
}

/// What a line that assigns to the RPC users begins with.
proof fn lemma_rpc_users_start(line: Seq<char>)
    requires
        assigns_rpc_users(line),
    ensures
        line.len() >= 9,
        line[0] == 'r',
        line[1] == 'p',
        line[4] == 'u',
{
    reveal_strlit("rpc.users");
    let start = line.subrange(0, 9);
    assert(start[0] == line[0]);
    assert(start[1] == line[1]);
    assert(start[4] == line[4]);
}

spec fn none_assigns_rpc_users(lines: Seq<Seq<char>>) -> bool {
    forall|i: int| 0 <= i < lines.len() ==> !assigns_rpc_users(#[trigger] lines[i])
}

proof fn lemma_opening_assigns_no_user()
    ensures
        none_assigns_rpc_users(opening_lines()),
{
    reveal_strlit("{");
    reveal_strlit("services.bitcoin = {");
    reveal_strlit("enable = true;");
    let lines = opening_lines();
    assert forall|i: int| 0 <= i < lines.len() implies !assigns_rpc_users(#[trigger] lines[i]) by {
        if assigns_rpc_users(lines[i]) {
            lemma_rpc_users_start(lines[i]);
        }
    }
}

proof fn lemma_tail_assigns_no_user(service: ServiceView)
    ensures
        none_assigns_rpc_users(seq![network_line(service.network)]),
        none_assigns_rpc_users(rpc_port_lines(service.rpc_port)),
        none_assigns_rpc_users(user_lines(service.user)),
        none_assigns_rpc_users(prune_lines(service.prune)),
        none_assigns_rpc_users(closing_lines()),
{
    reveal_strlit("mainnet = true;");
    reveal_strlit("testnet = true;");
    reveal_strlit("regtest = true;");
    reveal_strlit("signet = true;");
    reveal_strlit("rpc.port = ");
    reveal_strlit(";");
    reveal_strlit("user = \"");
    reveal_strlit("\";");
    reveal_strlit("prune = ");
    reveal_strlit("};}");
    let flag = seq![network_line(service.network)];
    assert forall|i: int| 0 <= i < flag.len() implies !assigns_rpc_users(#[trigger] flag[i]) by {
        if assigns_rpc_users(flag[i]) {
            lemma_rpc_users_start(flag[i]);
        }
    }
    let port = rpc_port_lines(service.rpc_port);
    assert forall|i: int| 0 <= i < port.len() implies !assigns_rpc_users(#[trigger] port[i]) by {
        if assigns_rpc_users(port[i]) {
            lemma_rpc_users_start(port[i]);
        }
    }
    let user = user_lines(service.user);
    assert forall|i: int| 0 <= i < user.len() implies !assigns_rpc_users(#[trigger] user[i]) by {
        if assigns_rpc_users(user[i]) {
            lemma_rpc_users_start(user[i]);
        }
    }
    let prune = prune_lines(service.prune);
    assert forall|i: int| 0 <= i < prune.len() implies !assigns_rpc_users(#[trigger] prune[i]) by {
        if assigns_rpc_users(prune[i]) {
            lemma_rpc_users_start(prune[i]);
        }
    }
    let closing = closing_lines();
    assert forall|i: int| 0 <= i < closing.len() implies !assigns_rpc_users(
        #[trigger] closing[i],
    ) by {
        if assigns_rpc_users(closing[i]) {
            lemma_rpc_users_start(closing[i]);
        }
    }
}

/// Of the block of a single user, the first line assigns to the RPC
/// users and the other three do not.
proof fn lemma_single_user_assignments(user: RpcUserView)
    ensures
        rpc_users_assignments(single_user_lines(user)) == seq![single_user_lines(user)[0]],
{
    reveal_strlit("rpc.users.");
    reveal_strlit("rpc.users");
    reveal_strlit(" = {");
    reveal_strlit("name = \"");
    reveal_strlit("\";");
    reveal_strlit("passwordHMAC = \"");
    reveal_strlit("};");
    let lines = single_user_lines(user);
    let head = seq![lines[0]];
    let rest = seq![lines[1], lines[2], lines[3]];
    let pred = |line: Seq<char>| assigns_rpc_users(line);
    assert(lines[0].subrange(0, 9) =~= "rpc.users"@);
    assert forall|i: int| 0 <= i < head.len() implies pred(#[trigger] head[i]) by {}
    assert forall|i: int| 0 <= i < rest.len() implies !pred(#[trigger] rest[i]) by {
        if assigns_rpc_users(rest[i]) {
            lemma_rpc_users_start(rest[i]);
        }
    }
    lemma_filter_all(head, pred);
    lemma_filter_none(rest, pred);
    Seq::filter_distributes_over_add(head, rest, pred);
    assert(lines =~= head + rest);
    assert(rpc_users_assignments(lines) =~= head);
}

/// The lines of the RPC users stand right behind the network flag, which
/// is the fourth line.
pub proof fn lemma_rpc_users_place(service: ServiceView)
    ensures
        service.lines().len() >= 5 + rpc_users_lines(service.rpc_users).len(),
        service.lines()[3] == network_line(service.network),
        service.lines().subrange(4, 4 + rpc_users_lines(service.rpc_users).len() as int)
            == rpc_users_lines(service.rpc_users),
{
    reveal(ServiceView::lines);
    let users = rpc_users_lines(service.rpc_users);
    assert(service.lines().subrange(4, 4 + users.len() as int) =~= users);
}

/// Without a user, no line assigns to the RPC users.
pub proof fn lemma_no_rpc_user(service: ServiceView)
    requires
        service.rpc_users matches Some(users) ==> users.len() == 0,
    ensures
        rpc_users_lines(service.rpc_users).len() == 0,
        rpc_users_assignments(service.lines()).len() == 0,
{
    reveal(ServiceView::lines);
    let lines = service.lines();
    lemma_opening_assigns_no_user();
    lemma_tail_assigns_no_user(service);
    let no_users = rpc_users_lines(service.rpc_users);
    assert(no_users.len() == 0);
    assert forall|i: int| 0 <= i < lines.len() implies !assigns_rpc_users(#[trigger] lines[i]) by {
        let l0 = opening_lines();
        let l1 = seq![network_line(service.network)];
        let l3 = rpc_port_lines(service.rpc_port);
        let l4 = user_lines(service.user);
        let l5 = prune_lines(service.prune);
        let l6 = closing_lines();
        if i < 3 {
            assert(lines[i] == l0[i]);
        } else if i < 4 {
            assert(lines[i] == l1[i - 3]);
        } else if i < 4 + l3.len() {
            assert(lines[i] == l3[i - 4]);
        } else if i < 4 + l3.len() + l4.len() {
            assert(lines[i] == l4[i - 4 - l3.len()]);
        } else if i < 4 + l3.len() + l4.len() + l5.len() {
            assert(lines[i] == l5[i - 4 - l3.len() - l4.len()]);
        } else {
            assert(lines[i] == l6[i - 4 - l3.len() - l4.len() - l5.len()]);
        }
    }
    lemma_filter_none(lines, |line: Seq<char>| assigns_rpc_users(line));
}

/// A single user is written as one block of four lines: the attribute
/// under the user's name is opened, holds the name and the password HMAC,
/// and is closed. The line that opens it is the one line that assigns to
/// the RPC users.
pub proof fn lemma_single_rpc_user(service: ServiceView, user: RpcUserView)
    requires
        service.rpc_users == Some(seq![user]),
    ensures
        rpc_users_lines(service.rpc_users) == seq![
            "rpc.users."@ + user.name + " = {"@,
            "name = \""@ + user.name + "\";"@,
            "passwordHMAC = \""@ + user.password_hmac + "\";"@,
            "};"@,
        ],
        rpc_users_assignments(service.lines()) == seq!["rpc.users."@ + user.name + " = {"@],
{
    reveal(ServiceView::lines);
    lemma_opening_assigns_no_user();
    lemma_tail_assigns_no_user(service);
    lemma_single_user_assignments(user);
    let l0 = opening_lines();
    let l1 = seq![network_line(service.network)];
    let l2 = rpc_users_lines(service.rpc_users);
    let l3 = rpc_port_lines(service.rpc_port);
    let l4 = user_lines(service.user);
    let l5 = prune_lines(service.prune);
    let l6 = closing_lines();
    let pred = |line: Seq<char>| assigns_rpc_users(line);
    assert(l2 == single_user_lines(user));
    lemma_filter_none(l0, pred);
    lemma_filter_none(l1, pred);
    lemma_filter_none(l3, pred);
    lemma_filter_none(l4, pred);
    lemma_filter_none(l5, pred);
    lemma_filter_none(l6, pred);
    Seq::filter_distributes_over_add(l0, l1, pred);
    Seq::filter_distributes_over_add(l0 + l1, l2, pred);
    Seq::filter_distributes_over_add(l0 + l1 + l2, l3, pred);
    Seq::filter_distributes_over_add(l0 + l1 + l2 + l3, l4, pred);
    Seq::filter_distributes_over_add(l0 + l1 + l2 + l3 + l4, l5, pred);
    Seq::filter_distributes_over_add(l0 + l1 + l2 + l3 + l4 + l5, l6, pred);
    assert(rpc_users_assignments(service.lines()) =~= seq![single_user_lines(user)[0]]);
}

/// The blocks of several users: four lines for each user, in the order of
/// the users.
proof fn lemma_repeated_users_blocks(users: Seq<RpcUserView>, k: int)
    requires
        0 <= k < users.len(),
    ensures
        repeated_users_lines(users).len() == 4 * users.len(),
        repeated_users_lines(users).subrange(4 * k, 4 * k + 4) == repeated_user_lines(users[k]),
    decreases users.len(),
{
    let front = users.drop_last();
    lemma_repeated_users_len(users);
    lemma_repeated_users_len(front);
    if k < users.len() - 1 {
        lemma_repeated_users_blocks(front, k);
        assert(repeated_users_lines(users).subrange(4 * k, 4 * k + 4) =~= repeated_users_lines(
            front,
        ).subrange(4 * k, 4 * k + 4));
    } else {
        assert(repeated_users_lines(users).subrange(4 * k, 4 * k + 4) =~= repeated_user_lines(
            users.last(),
        ));
    }
}

/// Several users are written as one block of four lines each, in the
/// order of the users: every block assigns to `rpc.users` an attribute
/// set that holds, under the user's name, the password HMAC.
pub proof fn lemma_repeated_rpc_users(service: ServiceView, users: Seq<RpcUserView>, k: int)
    requires
        service.rpc_users == Some(users),
        users.len() > 1,
        0 <= k < users.len(),
    ensures
        rpc_users_lines(service.rpc_users).len() == 4 * users.len(),
        service.lines().subrange(4 + 4 * k, 8 + 4 * k) == seq![
            "rpc.users = {"@,
            users[k].name + " = {"@,
            "passwordHMAC = \""@ + users[k].password_hmac + "\";"@,
            "};};"@,
        ],
{
    lemma_rpc_users_place(service);
    lemma_repeated_users_blocks(users, k);
    let blocks = rpc_users_lines(service.rpc_users);
    assert(blocks == repeated_users_lines(users));
    assert(service.lines().subrange(4 + 4 * k, 8 + 4 * k) =~= service.lines().subrange(
        4,
        4 + blocks.len() as int,
    ).subrange(4 * k, 4 * k + 4));
}

proof fn lemma_repeated_users_len(users: Seq<RpcUserView>)
    ensures
        repeated_users_lines(users).len() == 4 * users.len(),
    decreases users.len(),
{
    if users.len() > 0 {
        lemma_repeated_users_len(users.drop_last());
    }
}

/// Of the block of one user among several, the first line assigns to the
/// RPC users, and no other does where the name does not begin with
/// `rpc.users` itself.
proof fn lemma_repeated_user_assignments(user: RpcUserView)
    requires
        !assigns_rpc_users(user.name),
    ensures
        rpc_users_assignments(repeated_user_lines(user)) == seq!["rpc.users = {"@],
{
    reveal_strlit("rpc.users = {");
    reveal_strlit("rpc.users");
    reveal_strlit(" = {");
    reveal_strlit("\";");
    reveal_strlit("passwordHMAC = \"");
    reveal_strlit("};};");
    let lines = repeated_user_lines(user);
    let head = seq![lines[0]];
    let rest = seq![lines[1], lines[2], lines[3]];
    let pred = |line: Seq<char>| assigns_rpc_users(line);
    assert(lines[0].subrange(0, 9) =~= "rpc.users"@);
    assert forall|i: int| 0 <= i < head.len() implies pred(#[trigger] head[i]) by {}
    assert forall|i: int| 0 <= i < rest.len() implies !pred(#[trigger] rest[i]) by {
        if assigns_rpc_users(rest[i]) {
            lemma_rpc_users_start(rest[i]);
            if i == 0 {
                let line = rest[0];
                let start = line.subrange(0, 9);
                if user.name.len() < 9 {
                    assert(start[user.name.len() as int] == ' ');
                } else {
                    assert(user.name.subrange(0, 9) =~= start);
                }
            }
        }
    }
    lemma_filter_all(head, pred);
    lemma_filter_none(rest, pred);
    Seq::filter_distributes_over_add(head, rest, pred);
    assert(lines =~= head + rest);
    assert(rpc_users_assignments(lines) =~= head);
}

proof fn lemma_repeated_users_assignments(users: Seq<RpcUserView>)
    requires
        forall|i: int| 0 <= i < users.len() ==> !assigns_rpc_users(#[trigger] users[i].name),
    ensures
        rpc_users_assignments(repeated_users_lines(users)) == Seq::new(
            users.len(),
            |i: int| "rpc.users = {"@,
        ),
    decreases users.len(),
{
    let pred = |line: Seq<char>| assigns_rpc_users(line);
    if users.len() == 0 {
        lemma_filter_none(repeated_users_lines(users), pred);
        assert(rpc_users_assignments(repeated_users_lines(users)) =~= Seq::new(
            users.len(),
            |i: int| "rpc.users = {"@,
        ));
    } else {
        let front = users.drop_last();
        assert forall|i: int| 0 <= i < front.len() implies !assigns_rpc_users(
            #[trigger] front[i].name,
        ) by {
            assert(front[i] == users[i]);
        }
        lemma_repeated_users_assignments(front);
        assert(!assigns_rpc_users(users[users.len() - 1].name));
        lemma_repeated_user_assignments(users.last());
        Seq::filter_distributes_over_add(
            repeated_users_lines(front),
            repeated_user_lines(users.last()),
            pred,
        );
        assert(rpc_users_assignments(repeated_users_lines(users)) =~= Seq::new(
            users.len(),
            |i: int| "rpc.users = {"@,
        ));
    }
}

/// A name that is one identifier does not begin with `rpc.users`: an
/// identifier holds no dot.
pub proof fn lemma_identifier_assigns_nothing(name: Seq<char>)
    requires
        is_attribute_name(name),
    ensures
        !assigns_rpc_users(name),
{
    if assigns_rpc_users(name) {
        reveal_strlit("rpc.users");
        assert(name.subrange(0, 9)[3] == name[3]);
        assert(is_name_char(name[3]));
    }
}

/// With several users, the lines that assign to the RPC users are the
/// first lines of their blocks, `rpc.users = {` once for every user,
/// where no name begins with `rpc.users` itself. No name that is one
/// identifier does, see [`lemma_identifier_assigns_nothing`].
pub proof fn lemma_repeated_rpc_users_assignments(service: ServiceView, users: Seq<RpcUserView>)
    requires
        service.rpc_users == Some(users),
        users.len() > 1,
        forall|i: int| 0 <= i < users.len() ==> !assigns_rpc_users(#[trigger] users[i].name),
    ensures
        rpc_users_assignments(service.lines()) == Seq::new(
            users.len(),
            |i: int| "rpc.users = {"@,
        ),
{
    reveal(ServiceView::lines);
    lemma_opening_assigns_no_user();
    lemma_tail_assigns_no_user(service);
    lemma_repeated_users_assignments(users);
    let l0 = opening_lines();
    let l1 = seq![network_line(service.network)];
    let l2 = rpc_users_lines(service.rpc_users);
    let l3 = rpc_port_lines(service.rpc_port);
    let l4 = user_lines(service.user);
    let l5 = prune_lines(service.prune);
    let l6 = closing_lines();
    let pred = |line: Seq<char>| assigns_rpc_users(line);
    assert(l2 == repeated_users_lines(users));
    lemma_filter_none(l0, pred);
    lemma_filter_none(l1, pred);
    lemma_filter_none(l3, pred);
    lemma_filter_none(l4, pred);
    lemma_filter_none(l5, pred);
    lemma_filter_none(l6, pred);
    Seq::filter_distributes_over_add(l0, l1, pred);
    Seq::filter_distributes_over_add(l0 + l1, l2, pred);
    Seq::filter_distributes_over_add(l0 + l1 + l2, l3, pred);
    Seq::filter_distributes_over_add(l0 + l1 + l2 + l3, l4, pred);
    Seq::filter_distributes_over_add(l0 + l1 + l2 + l3 + l4, l5, pred);
    Seq::filter_distributes_over_add(l0 + l1 + l2 + l3 + l4 + l5, l6, pred);
    assert(rpc_users_assignments(service.lines()) =~= rpc_users_assignments(l2));
}

/// The text holds the flag of the network on a line of its own.
pub proof fn lemma_text_holds_network_flag(service: ServiceView)
    ensures
        occurs_in(service.text(), network_line(service.network) + seq!['\n']),
{
    reveal(ServiceView::lines);
    lemma_line_occurs_in_text(service.lines(), 3);
}

/// The text holds every line of the RPC users, in the blocks that
/// [`lemma_single_rpc_user`] and [`lemma_repeated_rpc_users`] set out.
pub proof fn lemma_text_holds_rpc_users(service: ServiceView, k: int)
    requires
        0 <= k < rpc_users_lines(service.rpc_users).len(),
    ensures
        occurs_in(service.text(), rpc_users_lines(service.rpc_users)[k] + seq!['\n']),
{
    reveal(ServiceView::lines);
    lemma_line_occurs_in_text(service.lines(), 4 + k);
}

/// Where the RPC port is set, the text holds its assignment on a line of
/// its own.
pub proof fn lemma_text_holds_rpc_port(service: ServiceView, port: u16)
    requires
        service.rpc_port == Some(port),
    ensures
        occurs_in(service.text(), "rpc.port = "@ + decimal(port as nat) + ";"@ + seq!['\n']),
{
    reveal(ServiceView::lines);
    let users = rpc_users_lines(service.rpc_users);
    lemma_line_occurs_in_text(service.lines(), 4 + users.len() as int);
}

/// Where the user is set, the text holds its assignment, the name in
/// double quotes, on a line of its own.
pub proof fn lemma_text_holds_user(service: ServiceView, user: Seq<char>)
    requires
        service.user == Some(user),
    ensures
        occurs_in(service.text(), "user = \""@ + user + "\";"@ + seq!['\n']),
{
    reveal(ServiceView::lines);
    let users = rpc_users_lines(service.rpc_users);
    let port = rpc_port_lines(service.rpc_port);
    lemma_line_occurs_in_text(service.lines(), 4 + users.len() as int + port.len());
}

/// With manual pruning the text holds `prune = 1;` on a line of its own,
/// and with automatic pruning the assignment of its size.
pub proof fn lemma_text_holds_prune(service: ServiceView)
    requires
        service.prune is Some,
        service.prune != Some(PruneOptions::Disable),
    ensures
        occurs_in(service.text(), prune_lines(service.prune)[0] + seq!['\n']),
        service.prune == Some(PruneOptions::Manual) ==> prune_lines(service.prune)[0]
            == "prune = 1;"@,
        service.prune matches Some(PruneOptions::Automatic { prune_at }) ==> prune_lines(
            service.prune,
        )[0] == "prune = "@ + decimal(prune_at as nat) + ";"@,
{
    reveal(ServiceView::lines);
    lemma_manual_prune_line();
    let users = rpc_users_lines(service.rpc_users);
    let port = rpc_port_lines(service.rpc_port);
    let user = user_lines(service.user);
    lemma_line_occurs_in_text(
        service.lines(),
        4 + users.len() as int + port.len() + user.len(),
    );
}

/// A valid configuration can be rendered exactly where its user stays
/// inside its double quotes, the name of every RPC user is one
/// identifier, and the text is not too long for the formatter: the
/// password HMACs of a valid configuration are in shape.
pub proof fn lemma_can_render(service: ServiceView)
    requires
        service.is_valid(),
    ensures
        service.can_render() <==> {
            &&& service.user matches Some(user) ==> stays_quoted(user)
            &&& service.rpc_users matches Some(users) ==> forall|i: int|
                0 <= i < users.len() ==> is_attribute_name(#[trigger] users[i].name)
            &&& byte_len(service.text()) <= MAX_TEXT_BYTES
        },
{
    if let Some(users) = service.rpc_users {
        if forall|i: int| 0 <= i < users.len() ==> is_attribute_name(#[trigger] users[i].name) {
            assert forall|i: int| 0 <= i < users.len() implies (#[trigger] users[i]).is_plain() by {
                assert(users[i].is_valid());
                assert(is_attribute_name(users[i].name));
            }
        }
        if service.is_plain() {
            assert forall|i: int| 0 <= i < users.len() implies is_attribute_name(
                #[trigger] users[i].name,
            ) by {
                assert(users[i].is_plain());
            }
        }
    }
}

/// The rendered text is a function of the five fields that are written:
/// two configurations that agree on them render alike, whatever their
/// other fields hold.
pub proof fn lemma_text_reads_five_fields(a: ServiceView, b: ServiceView)
    requires
        a.network == b.network,
        a.rpc_users == b.rpc_users,
        a.rpc_port == b.rpc_port,
        a.user == b.user,
        a.prune == b.prune,
    ensures
        a.lines() == b.lines(),
        a.text() == b.text(),
{
    reveal(ServiceView::lines);
}

/// Rendering is repeatable: two configurations with the same view, and so
/// one configuration rendered twice, give the same text, and the
/// formatter gives the same status and text for it.
pub proof fn lemma_render_repeatable(a: BitcoinDaemonService, b: BitcoinDaemonService)
    requires
        a@ == b@,
    ensures
        a@.text() == b@.text(),
        forall|status: StatusView, text: Seq<char>|
            a@.renders_to(status, text) <==> b@.renders_to(status, text),
        forall|status: StatusView, text: Seq<char>, again: StatusView, text_again: Seq<char>|
            a@.renders_to(status, text) && b@.renders_to(again, text_again) ==> status == again
                && text == text_again,
{
}

} // verus!
