//! The Nix formatter that checks and lays out rendered text.
//!
//! The formatter is the `alejandra` crate. Nothing of its layout rules is
//! stated here: its result has a name, [`formatted`], and the few facts
//! that [`format_in_memory`] gives of every outcome.
//!
//! The formatter is not handed every text. Its parser and its layout
//! rules call themselves once for every bracket and operator that is
//! nested, and its rules for comments and for multi-line strings panic on
//! some of them. So it is handed only the text of a plain configuration,
//! see [`is_plain_text`]: the user stays inside its double quotes, and
//! the name of every RPC user is one identifier. Such text has the few
//! brackets of its fixed shape, and neither a comment nor a multi-line
//! string. Where a name is a keyword of Nix the text does not parse, and
//! comes back as it went in.
//!
//! The formatter also counts the bytes of the text, and of the longer
//! text it makes of it, in 32 bits, and panics where a count does not
//! fit. So it is handed no text of more than [`MAX_TEXT_BYTES`] bytes,
//! which leaves room for the indentation it adds.

use crate::models::ServiceView;
use crate::validation::byte_len;
use vstd::prelude::*;
use vstd::string::*;

verus! {

/// How formatting ended.
#[derive(Debug, Clone, PartialEq, Eq)]
pub enum Status {
    /// The text is not well-formed Nix; the reason.
    Error(String),
    /// The text was formatted, and was changed by that or not.
    Changed(bool),
}

/// The view of a [`Status`].
pub enum StatusView {
    Error(Seq<char>),
    Changed(bool),
}

impl View for Status {
    type V = StatusView;

    open spec fn view(&self) -> StatusView {
        match self {
            Status::Error(reason) => StatusView::Error(reason@),
            Status::Changed(changed) => StatusView::Changed(*changed),
        }
    }
}

/// The greatest number of bytes of a text that is handed to the
/// formatter: a quarter of what 32 bits count.
pub const MAX_TEXT_BYTES: usize = 0x3fff_ffff;

/// A letter of the ASCII alphabet or an underscore: what an identifier
/// of Nix begins with.
pub open spec fn is_name_start(c: char) -> bool {
    ('a' <= c && c <= 'z') || ('A' <= c && c <= 'Z') || c == '_'
}

/// A letter or a digit of ASCII, an underscore, a hyphen or an
/// apostrophe: what an identifier of Nix goes on with.
pub open spec fn is_name_char(c: char) -> bool {
    is_name_start(c) || ('0' <= c && c <= '9') || c == '-' || c == '\''
}

/// `text` is one identifier of Nix, which can name an attribute as it
/// stands.
pub open spec fn is_attribute_name(text: Seq<char>) -> bool {
    &&& text.len() >= 1
    &&& is_name_start(text[0])
    &&& forall|i: int| 0 <= i < text.len() ==> is_name_char(#[trigger] text[i])
}

/// `text` stays inside the double quotes it is put in: it holds no
/// double quote to end the string, no backslash to escape the closing
/// quote, and no dollar sign before a curly bracket to open an
/// interpolation.
pub open spec fn stays_quoted(text: Seq<char>) -> bool {
    &&& forall|i: int| 0 <= i < text.len() ==> (#[trigger] text[i]) != '"' && text[i] != '\\'
    &&& forall|i: int| 1 <= i < text.len() ==> !(text[i - 1] == '$' && #[trigger] text[i] == '{')
}

/// `text` is the written text of a plain configuration, see
/// [`ServiceView::is_plain`]: the only text the formatter is handed.
pub open spec fn is_plain_text(text: Seq<char>) -> bool {
    exists|service: ServiceView| service.is_plain() && #[trigger] service.text() == text
}

fn check_name_start(c: char) -> (res: bool)
    ensures
        res == is_name_start(c),
{
    (c >= 'a' && c <= 'z') || (c >= 'A' && c <= 'Z') || c == '_'
}

fn check_name_char(c: char) -> (res: bool)
    ensures
        res == is_name_char(c),
{
    check_name_start(c) || (c >= '0' && c <= '9') || c == '-' || c == '\''
}

/// Decides whether `text` is one identifier.
pub fn check_attribute_name(text: &str) -> (res: bool)
    ensures
        res == is_attribute_name(text@),
{
    let chars = text.chars();
    let mut empty = true;
    let mut good = true;
    for c in it: chars
        invariant
            it.seq() == text@,
            empty <==> it.index() == 0,
            good <==> (it.index() > 0 ==> is_name_start(text@[0])) && forall|i: int|
                0 <= i < it.index() ==> is_name_char(#[trigger] text@[i]),
    {
        assert(c == text@[it.index()]);
        if empty && !check_name_start(c) {
            good = false;
        }
        if !check_name_char(c) {
            good = false;
        }
        empty = false;
    }
    good && !empty
}

/// Decides whether `text` stays inside double quotes.
pub fn check_stays_quoted(text: &str) -> (res: bool)
    ensures
        res == stays_quoted(text@),
{
    let chars = text.chars();
    let mut after_dollar = false;
    let mut good = true;
    for c in it: chars
        invariant
            it.seq() == text@,
            after_dollar <==> it.index() > 0 && text@[it.index() - 1] == '$',
            good <==> (forall|i: int|
                0 <= i < it.index() ==> (#[trigger] text@[i]) != '"' && text@[i] != '\\')
                && (forall|i: int|
                1 <= i < it.index() ==> !(text@[i - 1] == '$' && #[trigger] text@[i] == '{')),
    {
        assert(c == text@[it.index()]);
        if c == '"' || c == '\\' || (after_dollar && c == '{') {
            good = false;
        }
        after_dollar = c == '$';
    }
    good
}

/// What `alejandra::format::in_memory` returns for the text `before` of
/// the file called `path`: the status, and the text that comes back.
pub uninterp spec fn formatted(path: Seq<char>, before: Seq<char>) -> (StatusView, Seq<char>);

/// Calls `alejandra::format::in_memory`, which parses `before` as Nix and
/// lays it out anew; `path` is only a name for the text.
///
/// Taken on trust: the call returns for the text of a plain
/// configuration, which holds no comment, no multi-line string, and no
/// brackets or operators but the few of its fixed shape, where the text
/// has no more than [`MAX_TEXT_BYTES`] bytes; the outcome is a
/// function of the two arguments; where the text does not parse, the
/// text comes back as it went in; and where it does, the status says
/// whether the text that comes back differs from the one that went in.
#[verifier::external_body]
pub(crate) fn format_in_memory(path: String, before: String) -> (res: (Status, String))
    requires
        is_plain_text(before@),
        byte_len(before@) <= MAX_TEXT_BYTES,
    ensures
        (res.0@, res.1@) == formatted(path@, before@),
        res.0 is Error ==> res.1@ == before@,
        res.0 matches Status::Changed(changed) ==> changed == (res.1@ != before@),
{
    let (status, after) = alejandra::format::in_memory(path, before);
    match status {
        alejandra::format::Status::Error(reason) => (Status::Error(reason), after),
        alejandra::format::Status::Changed(changed) => (Status::Changed(changed), after),
    }
}

} // verus!
