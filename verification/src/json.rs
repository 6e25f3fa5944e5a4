//! A narrow window onto `serde_json`: parse a text, look one member up,
//! write one string literal. Everything this crate knows of JSON it knows
//! through the three functions at the end of this file, whose contracts are
//! taken on trust.

use vstd::prelude::*;

verus! {

/// `serde_json::Value`, a parsed JSON document. Nothing inside it is seen
/// here; it is read through [`member`] alone.
#[verifier::external_type_specification]
#[verifier::external_body]
pub struct ExDocument(serde_json::Value);

/// What one member of a JSON object holds, as far as this crate looks:
/// scalars that it reads are kept, everything else only by its kind.
#[derive(Clone, Debug, PartialEq, Eq)]
pub enum Member {
    Null,
    Flag(bool),
    Number,
    Text(String),
    List,
    Object,
}

/// The mathematical value of a [`Member`].
pub enum MemberView {
    Null,
    Flag(bool),
    Number,
    Text(Seq<char>),
    List,
    Object,
}

impl View for Member {
    type V = MemberView;

    open spec fn view(&self) -> MemberView {
        match self {
            Member::Null => MemberView::Null,
            Member::Flag(b) => MemberView::Flag(*b),
            Member::Number => MemberView::Number,
            Member::Text(s) => MemberView::Text(s@),
            Member::List => MemberView::List,
            Member::Object => MemberView::Object,
        }
    }
}

/// The mathematical value of a member that may be missing.
pub open spec fn found_view(found: Option<Member>) -> Option<MemberView> {
    match found {
        Some(m) => Some(m@),
        None => None,
    }
}

/// Why a text is no JSON document: the parser's message and the place in
/// the text where it gave up.
#[derive(Clone, Debug, PartialEq, Eq)]
pub struct SyntaxError {
    pub line: usize,
    pub column: usize,
    pub message: String,
}

/// The mathematical value of a [`SyntaxError`].
pub struct SyntaxErrorView {
    pub line: nat,
    pub column: nat,
    pub message: Seq<char>,
}

impl View for SyntaxError {
    type V = SyntaxErrorView;

    open spec fn view(&self) -> SyntaxErrorView {
        SyntaxErrorView { line: self.line as nat, column: self.column as nat, message: self.message@ }
    }
}

/// The member under `key`, if there is one.
pub open spec fn member_at(members: Map<Seq<char>, MemberView>, key: Seq<char>) -> Option<
    MemberView,
> {
    if members.contains_key(key) {
        Some(members[key])
    } else {
        None
    }
}

/// The members of a parsed document by their keys: every key that
/// `serde_json::Value::get` finds in it, with what it finds there. A
/// document that is no object has none.
pub uninterp spec fn document_members(doc: serde_json::Value) -> Map<Seq<char>, MemberView>;

/// What `serde_json::from_str` makes of a text: the members of the document
/// it builds, or the error it reports.
pub uninterp spec fn parse_outcome(text: Seq<char>) -> Result<
    Map<Seq<char>, MemberView>,
    SyntaxErrorView,
>;

/// The JSON string literal that `serde_json` writes for a text, quotes and
/// escapes included.
pub uninterp spec fn string_literal(text: Seq<char>) -> Seq<char>;

/// Calls `serde_json::from_str` for a `serde_json::Value`. The parser reads
/// nothing but the text, so its answer is a function of the text; the
/// contract gives that function a name and claims no more. An error is
/// handed on as its line, its column and its message.
#[verifier::external_body]
pub(crate) fn parse(text: &str) -> (outcome: Result<serde_json::Value, SyntaxError>)
    ensures
        match outcome {
            Ok(doc) => parse_outcome(text@) == Ok::<Map<Seq<char>, MemberView>, SyntaxErrorView>(
                document_members(doc),
            ),
            Err(e) => parse_outcome(text@) == Err::<Map<Seq<char>, MemberView>, SyntaxErrorView>(
                e@,
            ),
        },
{
    match serde_json::from_str::<serde_json::Value>(text) {
        Ok(doc) => Ok(doc),
        Err(e) => Err(SyntaxError { line: e.line(), column: e.column(), message: e.to_string() }),
    }
}

/// Calls `serde_json::Value::get` with a string key, which finds a member
/// only in an object that has the key, and tells the variants of what it
/// found apart. Strings and booleans are copied out.
#[verifier::external_body]
pub(crate) fn member(doc: &serde_json::Value, key: &str) -> (found: Option<Member>)
    ensures
        match found {
            Some(m) => member_at(document_members(*doc), key@) == Some(m@),
            None => member_at(document_members(*doc), key@) is None,
        },
{
    match doc.get(key) {
        None => None,
        Some(serde_json::Value::Null) => Some(Member::Null),
        Some(serde_json::Value::Bool(b)) => Some(Member::Flag(*b)),
        Some(serde_json::Value::Number(_)) => Some(Member::Number),
        Some(serde_json::Value::String(s)) => Some(Member::Text(s.clone())),
        Some(serde_json::Value::Array(_)) => Some(Member::List),
        Some(serde_json::Value::Object(_)) => Some(Member::Object),
    }
}

/// Writes a text as a JSON string literal with `serde_json`'s `Display` for
/// `serde_json::Value::String`, which prints the compact form. The result
/// depends on the text alone and is known only by its name.
#[verifier::external_body]
pub(crate) fn quote(text: &str) -> (literal: String)
    ensures
        literal@ == string_literal(text@),
{
    serde_json::Value::String(text.to_owned()).to_string()
}

} // verus!
