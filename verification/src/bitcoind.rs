//! Rendering of a service configuration as a Nix attribute set.
//!
//! The text is built line by line, in a fixed order, and then handed to
//! the formatter. [`ServiceView::lines`] says which lines are written;
//! the fields that it does not read leave no trace in the text.

use crate::formatter::{
    check_attribute_name, check_stays_quoted, format_in_memory, formatted, is_attribute_name,
    is_plain_text, stays_quoted, Status, StatusView, MAX_TEXT_BYTES,
};
use crate::models::{
    BitcoinDaemonService, BitcoinDaemonServiceRPCUser, BitcoinNetwork, PruneOptions, RpcUserView,
    ServiceView,
};
use crate::utils::{
    decimal, join_lines, lemma_join_lines_concat, lemma_join_lines_push, push_decimal,
    AutoLineString,
};
use crate::validation::{byte_len, check_password_hmac, is_password_hmac, Violation};
use vstd::prelude::*;
use vstd::string::*;

verus! {

/// The lines that open the outer attribute set and that of the service,
/// and switch the service on.
pub open spec fn opening_lines() -> Seq<Seq<char>> {
    seq!["{"@, "services.bitcoin = {"@, "enable = true;"@]
}

/// The line that closes both attribute sets.
pub open spec fn closing_lines() -> Seq<Seq<char>> {
    seq!["};}"@]
}

/// The flag of `network`. It is written for the main network too.
pub open spec fn network_line(network: BitcoinNetwork) -> Seq<char> {
    match network {
        BitcoinNetwork::Mainnet => "mainnet = true;"@,
        BitcoinNetwork::Testnet => "testnet = true;"@,
        BitcoinNetwork::Regtest => "regtest = true;"@,
        BitcoinNetwork::Signet => "signet = true;"@,
    }
}

/// The block of a user who is the only one: an attribute under the
/// user's name that holds the name and the password HMAC.
pub open spec fn single_user_lines(user: RpcUserView) -> Seq<Seq<char>> {
    seq![
        "rpc.users."@ + user.name + " = {"@,
        "name = \""@ + user.name + "\";"@,
        "passwordHMAC = \""@ + user.password_hmac + "\";"@,
        "};"@,
    ]
}

/// The block of one user among several: an assignment to `rpc.users` of
/// its own.
pub open spec fn repeated_user_lines(user: RpcUserView) -> Seq<Seq<char>> {
    seq![
        "rpc.users = {"@,
        user.name + " = {"@,
        "passwordHMAC = \""@ + user.password_hmac + "\";"@,
        "};};"@,
    ]
}

/// One block for each of `users`, in their order.
pub open spec fn repeated_users_lines(users: Seq<RpcUserView>) -> Seq<Seq<char>>
    decreases users.len(),
{
    if users.len() == 0 {
        seq![]
    } else {
        repeated_users_lines(users.drop_last()) + repeated_user_lines(users.last())
    }
}

/// The lines of the RPC users: none where there is no user, the single
/// block for one user, a block each for more.
pub open spec fn rpc_users_lines(users: Option<Seq<RpcUserView>>) -> Seq<Seq<char>> {
    match users {
        None => seq![],
        Some(users) => if users.len() == 1 {
            single_user_lines(users[0])
        } else {
            repeated_users_lines(users)
        },
    }
}

pub open spec fn rpc_port_line(port: u16) -> Seq<char> {
    "rpc.port = "@ + decimal(port as nat) + ";"@
}

pub open spec fn rpc_port_lines(port: Option<u16>) -> Seq<Seq<char>> {
    match port {
        Some(port) => seq![rpc_port_line(port)],
        None => seq![],
    }
}

pub open spec fn user_line(user: Seq<char>) -> Seq<char> {
    "user = \""@ + user + "\";"@
}

pub open spec fn user_lines(user: Option<Seq<char>>) -> Seq<Seq<char>> {
    match user {
        Some(user) => seq![user_line(user)],
        None => seq![],
    }
}

/// The assignment `prune = <size>;`.
pub open spec fn prune_line(size: nat) -> Seq<char> {
    "prune = "@ + decimal(size) + ";"@
}

/// The lines of the prune option: manual pruning is written as the size
/// 1, automatic pruning as its size, and nothing is written where
/// pruning is disabled or not set.
pub open spec fn prune_lines(prune: Option<PruneOptions>) -> Seq<Seq<char>> {
    match prune {
        Some(PruneOptions::Manual) => seq![prune_line(1)],
        Some(PruneOptions::Automatic { prune_at }) => seq![prune_line(prune_at as nat)],
        Some(PruneOptions::Disable) => seq![],
        None => seq![],
    }
}

impl ServiceView {
    /// The lines of the rendered configuration, in the order in which
    /// they are written.
    #[verifier::opaque]
    pub open spec fn lines(self) -> Seq<Seq<char>> {
        opening_lines() + seq![network_line(self.network)] + rpc_users_lines(self.rpc_users)
            + rpc_port_lines(self.rpc_port) + user_lines(self.user) + prune_lines(self.prune)
            + closing_lines()
    }

    /// The rendered configuration before it is formatted.
    pub open spec fn text(self) -> Seq<char> {
        join_lines(self.lines())
    }

    /// The free text of the configuration leaves the shape of the
    /// written text as it is: the user stays inside its double quotes,
    /// and every RPC user has a name that is one identifier and a
    /// password HMAC that is a salt and an HMAC.
    pub open spec fn is_plain(self) -> bool {
        &&& self.user matches Some(user) ==> stays_quoted(user)
        &&& self.rpc_users matches Some(users) ==> forall|i: int|
            0 <= i < users.len() ==> (#[trigger] users[i]).is_plain()
    }

    /// The text of the configuration is not too long for the formatter.
    pub open spec fn fits_formatter(self) -> bool {
        byte_len(self.text()) <= MAX_TEXT_BYTES
    }

    /// The configuration can be rendered: it is valid, and it is plain
    /// and its text is not too long, so that the formatter can be handed
    /// the text.
    pub open spec fn can_render(self) -> bool {
        self.is_valid() && self.is_plain() && self.fits_formatter()
    }

    /// `status` and `text` are what rendering gives: what the formatter
    /// makes of the written text. Where the formatter reports an error,
    /// `text` is the text as it was written; where it does not, the status
    /// says whether `text` differs from that.
    pub open spec fn renders_to(self, status: StatusView, text: Seq<char>) -> bool {
        &&& (status, text) == formatted(render_label(), self.text())
        &&& status is Error ==> text == self.text()
        &&& status matches StatusView::Changed(changed) ==> changed == (text != self.text())
    }
}

impl RpcUserView {
    /// The name is one identifier, and the password HMAC is a salt and an
    /// HMAC.
    pub open spec fn is_plain(self) -> bool {
        is_attribute_name(self.name) && is_password_hmac(self.password_hmac)
    }
}

/// Why a configuration was not rendered.
#[derive(Debug, Clone, PartialEq, Eq)]
pub enum RenderError {
    /// The configuration is invalid: the rules it breaks.
    Invalid(Vec<Violation>),
    /// The configuration is valid and not plain, and its text was not
    /// handed to the formatter: the text as it was written.
    NotPlain(String),
    /// The configuration is valid and plain, and its text is too long
    /// for the formatter: the text as it was written.
    TooLong(String),
}

/// The name under which the text goes to the formatter.
pub open spec fn render_label() -> Seq<char> {
    "<convert bitcoind>"@
}

/// The text of one line.
proof fn lemma_join_one(line: Seq<char>)
    ensures
        join_lines(seq![line]) == line + seq!['\n'],
{
    let none = Seq::<Seq<char>>::empty();
    lemma_join_lines_push(none, line);
    assert(none.push(line) =~= seq![line]);
    assert(join_lines(none) + line + seq!['\n'] =~= line + seq!['\n']);
}

/// The text of four lines.
proof fn lemma_join_four(a: Seq<char>, b: Seq<char>, c: Seq<char>, d: Seq<char>)
    ensures
        join_lines(seq![a, b, c, d]) == a + seq!['\n'] + b + seq!['\n'] + c + seq!['\n'] + d
            + seq!['\n'],
{
    lemma_join_one(a);
    lemma_join_one(b);
    lemma_join_one(c);
    lemma_join_one(d);
    lemma_join_lines_concat(seq![a], seq![b]);
    lemma_join_lines_concat(seq![a] + seq![b], seq![c]);
    lemma_join_lines_concat(seq![a] + seq![b] + seq![c], seq![d]);
    assert(seq![a, b, c, d] =~= seq![a] + seq![b] + seq![c] + seq![d]);
}

fn concat2(a: &str, b: &str) -> (res: String)
    ensures
        res@ == a@ + b@,
{
    let mut res = String::new();
    res.append(a);
    res.append(b);
    assert(res@ =~= a@ + b@);
    res
}

fn concat3(a: &str, b: &str, c: &str) -> (res: String)
    ensures
        res@ == a@ + b@ + c@,
{
    let mut res = String::new();
    res.append(a);
    res.append(b);
    res.append(c);
    assert(res@ =~= a@ + b@ + c@);
    res
}

fn number_line(head: &str, number: u32, tail: &str) -> (res: String)
    ensures
        res@ == head@ + decimal(number as nat) + tail@,
{
    let mut res = String::new();
    res.append(head);
    push_decimal(&mut res, number);
    res.append(tail);
    assert(res@ =~= head@ + decimal(number as nat) + tail@);
    res
}

fn push_network(res: &mut AutoLineString, network: &BitcoinNetwork)
    ensures
        final(res)@ == old(res)@ + join_lines(seq![network_line(*network)]),
{
    proof {
        lemma_join_one(network_line(*network));
    }
    match network {
        BitcoinNetwork::Mainnet => res.push_line("mainnet = true;"),
        BitcoinNetwork::Testnet => res.push_line("testnet = true;"),
        BitcoinNetwork::Regtest => res.push_line("regtest = true;"),
        BitcoinNetwork::Signet => res.push_line("signet = true;"),
    }
    assert(res@ =~= old(res)@ + join_lines(seq![network_line(*network)]));
}

fn push_single_user(res: &mut AutoLineString, user: &BitcoinDaemonServiceRPCUser)
    ensures
        final(res)@ == old(res)@ + join_lines(single_user_lines(user@)),
{
    let head = concat3("rpc.users.", user.name.as_str(), " = {");
    let name = concat3("name = \"", user.name.as_str(), "\";");
    let hmac = concat3("passwordHMAC = \"", user.password_hmac.as_str(), "\";");
    res.push_line(head.as_str());
    res.push_line(name.as_str());
    res.push_line(hmac.as_str());
    res.push_line("};");
    proof {
        lemma_join_four(head@, name@, hmac@, "};"@);
        assert(single_user_lines(user@) =~= seq![head@, name@, hmac@, "};"@]);
        assert(res@ =~= old(res)@ + join_lines(single_user_lines(user@)));
    }
}

fn push_repeated_user(res: &mut AutoLineString, user: &BitcoinDaemonServiceRPCUser)
    ensures
        final(res)@ == old(res)@ + join_lines(repeated_user_lines(user@)),
{
    let key = concat2(user.name.as_str(), " = {");
    let hmac = concat3("passwordHMAC = \"", user.password_hmac.as_str(), "\";");
    res.push_line("rpc.users = {");
    res.push_line(key.as_str());
    res.push_line(hmac.as_str());
    res.push_line("};};");
    proof {
        lemma_join_four("rpc.users = {"@, key@, hmac@, "};};"@);
        assert(repeated_user_lines(user@) =~= seq!["rpc.users = {"@, key@, hmac@, "};};"@]);
        assert(res@ =~= old(res)@ + join_lines(repeated_user_lines(user@)));
    }
}

fn push_rpc_users(res: &mut AutoLineString, users: &Option<Vec<BitcoinDaemonServiceRPCUser>>)
    ensures
        final(res)@ == old(res)@ + join_lines(rpc_users_lines(users.deep_view())),
{
    match users {
        None => {
            assert(res@ =~= old(res)@ + join_lines(rpc_users_lines(users.deep_view())));
        },
        Some(users) => {
            let ghost views = users.deep_view();
            if users.len() == 1 {
                push_single_user(res, &users[0]);
            } else {
                let mut i: usize = 0;
                assert(res@ =~= old(res)@ + join_lines(repeated_users_lines(views.take(0))));
                while i < users.len()
                    invariant
                        i <= users.len(),
                        views == users.deep_view(),
                        res@ == old(res)@ + join_lines(repeated_users_lines(views.take(i as int))),
                    decreases users.len() - i,
                {
                    push_repeated_user(res, &users[i]);
                    proof {
                        let done = views.take(i as int);
                        let next = views.take(i + 1);
                        assert(next.drop_last() =~= done);
                        assert(next.last() == users[i as int]@);
                        lemma_join_lines_concat(
                            repeated_users_lines(done),
                            repeated_user_lines(users[i as int]@),
                        );
                        assert(res@ =~= old(res)@ + join_lines(repeated_users_lines(next)));
                    }
                    i += 1;
                }
                assert(views.take(i as int) =~= views);
            }
        },
    }
}

fn push_rpc_port(res: &mut AutoLineString, port: &Option<u16>)
    ensures
        final(res)@ == old(res)@ + join_lines(rpc_port_lines(*port)),
{
    if let Some(port) = port {
        let line = number_line("rpc.port = ", *port as u32, ";");
        res.push_line(line.as_str());
        proof {
            lemma_join_one(rpc_port_line(*port));
        }
    }
    assert(res@ =~= old(res)@ + join_lines(rpc_port_lines(*port)));
}

fn push_user(res: &mut AutoLineString, user: &Option<String>)
    ensures
        final(res)@ == old(res)@ + join_lines(user_lines(user.deep_view())),
{
    if let Some(user) = user {
        let line = concat3("user = \"", user.as_str(), "\";");
        res.push_line(line.as_str());
        proof {
            lemma_join_one(user_line(user@));
        }
    }
    assert(res@ =~= old(res)@ + join_lines(user_lines(user.deep_view())));
}

fn push_prune(res: &mut AutoLineString, prune: &Option<PruneOptions>)
    ensures
        final(res)@ == old(res)@ + join_lines(prune_lines(*prune)),
{
    match prune {
        Some(PruneOptions::Manual) => {
            res.push_line("prune = 1;");
            proof {
                reveal_strlit("prune = 1;");
                reveal_strlit("prune = ");
                reveal_strlit(";");
                assert("prune = 1;"@ =~= prune_line(1));
                lemma_join_one(prune_line(1));
            }
        },
        Some(PruneOptions::Automatic { prune_at }) => {
            let line = number_line("prune = ", *prune_at, ";");
            res.push_line(line.as_str());
            proof {
                lemma_join_one(prune_line(*prune_at as nat));
            }
        },
        Some(PruneOptions::Disable) => {},
        None => {},
    }
    assert(res@ =~= old(res)@ + join_lines(prune_lines(*prune)));
}

impl BitcoinDaemonService {
    /// Writes the configuration as a Nix attribute set, line by line.
    /// The text is not checked or formatted.
    pub fn emit(&self) -> (text: String)
        ensures
            text@ == self@.text(),
    {
        let mut res = AutoLineString::from("{");
        res.push_line("services.bitcoin = {");
        res.push_line("enable = true;");
        let ghost opened = res@;
        push_network(&mut res, &self.network);
        push_rpc_users(&mut res, &self.rpc_users);
        push_rpc_port(&mut res, &self.rpc_port);
        push_user(&mut res, &self.user);
        push_prune(&mut res, &self.prune);
        res.push_line("};}");
        proof {
            reveal(ServiceView::lines);
            let model = self@;
            let l0 = opening_lines();
            let l1 = seq![network_line(model.network)];
            let l2 = rpc_users_lines(model.rpc_users);
            let l3 = rpc_port_lines(model.rpc_port);
            let l4 = user_lines(model.user);
            let l5 = prune_lines(model.prune);
            let l6 = closing_lines();
            lemma_join_one("{"@);
            lemma_join_one("services.bitcoin = {"@);
            lemma_join_one("enable = true;"@);
            lemma_join_one("};}"@);
            lemma_join_lines_concat(seq!["{"@], seq!["services.bitcoin = {"@]);
            lemma_join_lines_concat(
                seq!["{"@] + seq!["services.bitcoin = {"@],
                seq!["enable = true;"@],
            );
            assert(l0 =~= seq!["{"@] + seq!["services.bitcoin = {"@] + seq!["enable = true;"@]);
            assert(opened =~= join_lines(l0));
            lemma_join_lines_concat(l0, l1);
            lemma_join_lines_concat(l0 + l1, l2);
            lemma_join_lines_concat(l0 + l1 + l2, l3);
            lemma_join_lines_concat(l0 + l1 + l2 + l3, l4);
            lemma_join_lines_concat(l0 + l1 + l2 + l3 + l4, l5);
            lemma_join_lines_concat(l0 + l1 + l2 + l3 + l4 + l5, l6);
            assert(res@ =~= join_lines(l0 + l1 + l2 + l3 + l4 + l5 + l6));
        }
        res.to_string()
    }

    /// Decides whether the configuration is plain.
    pub fn is_plain(&self) -> (res: bool)
        ensures
            res == self@.is_plain(),
    {
        if let Some(user) = &self.user {
            if !check_stays_quoted(user.as_str()) {
                return false;
            }
        }
        if let Some(users) = &self.rpc_users {
            let ghost views = users.deep_view();
            let mut i: usize = 0;
            while i < users.len()
                invariant
                    i <= users.len(),
                    views == users.deep_view(),
                    self@.rpc_users == Some(views),
                    self@.user matches Some(user) ==> stays_quoted(user),
                    forall|j: int| 0 <= j < i ==> (#[trigger] views[j]).is_plain(),
                decreases users.len() - i,
            {
                let user = &users[i];
                assert(views[i as int] == user@);
                if !check_attribute_name(user.name.as_str()) || !check_password_hmac(
                    user.password_hmac.as_str(),
                ) {
                    assert(self@.rpc_users matches Some(list) && !list[i as int].is_plain());
                    return false;
                }
                i += 1;
            }
        }
        true
    }

    /// Renders the configuration: writes it as a Nix attribute set and
    /// has the formatter check and lay out the text. Returns the
    /// formatter's status and text as they come.
    ///
    /// The configuration has to be valid and plain, and its text not too
    /// long; [`Self::render_checked`] is for one of which that is not
    /// known.
    pub fn render(&self) -> (res: (Status, String))
        requires
            self@.can_render(),
        ensures
            self@.renders_to(res.0@, res.1@),
    {
        let text = self.emit();
        assert(is_plain_text(text@)) by {
            assert(self@.is_plain() && self@.text() == text@);
        }
        format_in_memory("<convert bitcoind>".to_owned(), text)
    }

    /// Renders the configuration if it can be rendered. Where it is
    /// invalid, returns every rule it breaks; where it is valid and not
    /// plain, or plain and too long, returns the text as it was written.
    /// In all three cases the formatter is not called.
    pub fn render_checked(&self) -> (res: Result<(Status, String), RenderError>)
        ensures
            res is Ok <==> self@.can_render(),
            res matches Ok(out) ==> self@.renders_to(out.0@, out.1@),
            res matches Err(RenderError::Invalid(found)) ==> !self@.is_valid() && found@
                == self@.violations() && found@.len() > 0,
            res matches Err(RenderError::NotPlain(text)) ==> self@.is_valid() && !self@.is_plain()
                && text@ == self@.text(),
            res matches Err(RenderError::TooLong(text)) ==> self@.is_valid() && self@.is_plain()
                && !self@.fits_formatter() && text@ == self@.text(),
    {
        match self.validate() {
            Ok(()) => {
                let plain = self.is_plain();
                let text = self.emit();
                if !plain {
                    Err(RenderError::NotPlain(text))
                } else if text.as_str().as_bytes().len() > MAX_TEXT_BYTES {
                    Err(RenderError::TooLong(text))
                } else {
                    assert(is_plain_text(text@)) by {
                        assert(self@.is_plain() && self@.text() == text@);
                    }
                    Ok(format_in_memory("<convert bitcoind>".to_owned(), text))
                }
            },
            Err(found) => Err(RenderError::Invalid(found)),
        }
    }
}

} // verus!
