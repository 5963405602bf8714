//! Identifier resolver: tells a numeric id, an email address and a username
//! apart by the shape of the text alone, and picks the storage column that
//! the text is to be looked up in.

use vstd::prelude::*;
use vstd::string::StringExecFns;
use crate::decimal::{parse_i64, read_i64};

verus! {

/// The three columns a user can be looked up by.
#[derive(Clone, Copy, Debug, PartialEq, Eq, Structural)]
pub enum Column {
    Id,
    Email,
    DisplayName,
}

/// A caller-supplied identifier, tagged with what its shape says it is.
/// Each variant keeps the text as the caller wrote it: that text is the value
/// bound to the lookup.
#[derive(Debug)]
pub enum Identifier {
    NumericId(String),
    Email(String),
    Username(String),
}

/// The shape of an identifier, without its text.
#[derive(Clone, Copy, Debug, PartialEq, Eq, Structural)]
pub enum IdentifierKind {
    NumericId,
    Email,
    Username,
}

/// Whether `c` is one of the ten decimal digits.
pub open spec fn is_decimal_digit(c: char) -> bool {
    '0' <= c && c <= '9'
}

/// Whether the text starts with a decimal digit.
pub open spec fn starts_with_digit(s: Seq<char>) -> bool {
    s.len() > 0 && is_decimal_digit(s[0])
}

/// The classification rule: an `@` anywhere makes an email address;
/// otherwise a leading decimal digit makes a numeric id; anything else,
/// the empty text included, is a username.
pub open spec fn kind_of(s: Seq<char>) -> IdentifierKind {
    if s.contains('@') {
        IdentifierKind::Email
    } else if starts_with_digit(s) {
        IdentifierKind::NumericId
    } else {
        IdentifierKind::Username
    }
}

/// The column that identifiers of a kind are looked up in.
pub open spec fn column_of(kind: IdentifierKind) -> Column {
    match kind {
        IdentifierKind::NumericId => Column::Id,
        IdentifierKind::Email => Column::Email,
        IdentifierKind::Username => Column::DisplayName,
    }
}

impl Identifier {
    /// The shape this identifier was classified as.
    pub open spec fn kind(self) -> IdentifierKind {
        match self {
            Identifier::NumericId(_) => IdentifierKind::NumericId,
            Identifier::Email(_) => IdentifierKind::Email,
            Identifier::Username(_) => IdentifierKind::Username,
        }
    }

    /// The text the caller supplied.
    pub open spec fn text(self) -> Seq<char> {
        match self {
            Identifier::NumericId(t) => t@,
            Identifier::Email(t) => t@,
            Identifier::Username(t) => t@,
        }
    }

    /// The column this identifier is looked up in.
    pub fn column(&self) -> (c: Column)
        ensures
            c == column_of(self.kind()),
    {
        match self {
            Identifier::NumericId(_) => Column::Id,
            Identifier::Email(_) => Column::Email,
            Identifier::Username(_) => Column::DisplayName,
        }
    }

    /// The id that a numeric identifier writes: there is one where the
    /// text is digits throughout and the number fits 64 bits. No other
    /// kind of identifier writes an id.
    pub fn numeric_id(&self) -> (id: Option<i64>)
        ensures
            id == (if self.kind() == IdentifierKind::NumericId {
                read_i64(self.text())
            } else {
                None
            }),
    {
        match self {
            Identifier::NumericId(t) => parse_i64(t.as_str()),
            _ => None,
        }
    }

    /// The value to bind to the lookup: the text as supplied.
    pub fn value(&self) -> (v: &str)
        ensures
            v@ == self.text(),
    {
        match self {
            Identifier::NumericId(t) => t.as_str(),
            Identifier::Email(t) => t.as_str(),
            Identifier::Username(t) => t.as_str(),
        }
    }
}

impl Column {
    /// The column's name in the users table. The name comes from this fixed
    /// list and never from caller input.
    pub fn name(&self) -> (n: &'static str)
        ensures
            n@ == column_name(*self),
    {
        match self {
            Column::Id => "id",
            Column::Email => "email",
            Column::DisplayName => "display_name",
        }
    }

    /// The statement that reads the account found in this column, whatever
    /// the shape of the value that is bound to it: a username that looks
    /// like a number is still looked up as a username.
    pub fn query_sql(&self) -> (sql: String)
        ensures
            sql@ == query_statement(column_name(*self), "$1"@),
    {
        let mut sql: String = String::from_str(
            "SELECT id, display_name, email, password_hash, email_verified, profile_image_url, creation_date FROM users where ",
        );
        sql.append(self.name());
        sql.append(" = ");
        sql.append("$1");
        sql.append(";");
        sql
    }
}

/// The name of each column.
pub open spec fn column_name(c: Column) -> Seq<char> {
    match c {
        Column::Id => "id"@,
        Column::Email => "email"@,
        Column::DisplayName => "display_name"@,
    }
}

/// Whether the text contains an `@`.
pub fn contains_at(s: &str) -> (found: bool)
    ensures
        found == s@.contains('@'),
{
    for c in it: s.chars()
        invariant
            it.seq() == s@,
            forall|j: int| 0 <= j < it.index() ==> s@[j] != '@',
    {
        if c == '@' {
            return true;
        }
    }
    false
}

/// Whether the first character of the text is a decimal digit.
pub fn first_char_is_number(s: &str) -> (b: bool)
    ensures
        b == starts_with_digit(s@),
{
    let mut chars = s.chars();
    match chars.next() {
        Some(c) => '0' <= c && c <= '9',
        None => false,
    }
}

/// Classifies an identifier by its shape. Every text, the empty one
/// included, falls under exactly one kind.
pub fn classify(input: &str) -> (id: Identifier)
    ensures
        id.kind() == kind_of(input@),
        id.text() == input@,
        input@.contains('@') ==> id is Email,
        !input@.contains('@') && starts_with_digit(input@) ==> id is NumericId,
        !input@.contains('@') && !starts_with_digit(input@) ==> id is Username,
{
    let text: String = input.to_owned();
    if contains_at(input) {
        Identifier::Email(text)
    } else if first_char_is_number(input) {
        Identifier::NumericId(text)
    } else {
        Identifier::Username(text)
    }
}

/// The column an identifier is looked up in, and the placeholder its value
/// is bound to in the lookup statement.
pub fn column_placeholder(id_or_name_or_email: &str) -> (r: (&'static str, &'static str))
    ensures
        r.0@ == column_name(column_of(kind_of(id_or_name_or_email@))),
        r.1@ == "$1"@,
{
    let id: Identifier = classify(id_or_name_or_email);
    (id.column().name(), "$1")
}

/// The statement that reads the account found in a column, with the value
/// left to be bound.
pub open spec fn query_statement(column: Seq<char>, placeholder: Seq<char>) -> Seq<char> {
    "SELECT id, display_name, email, password_hash, email_verified, profile_image_url, creation_date FROM users where "@
        + column + " = "@ + placeholder + ";"@
}

/// The statement that marks the account found in a column as deleted and
/// returns it, with the value left to be bound.
pub open spec fn delete_statement(column: Seq<char>, placeholder: Seq<char>) -> Seq<char> {
    "update users set status='deleted' where "@ + column + "="@ + placeholder + " RETURNING *;"@
}

/// The statement that reads the account an identifier stands for. The
/// identifier decides the column and nothing else: its text is no part of
/// the statement, and is to be bound to the placeholder.
pub fn user_query_sql(who: &str) -> (sql: String)
    ensures
        sql@ == query_statement(column_name(column_of(kind_of(who@))), "$1"@),
{
    let (column, placeholder) = column_placeholder(who);
    let mut sql: String = String::from_str(
        "SELECT id, display_name, email, password_hash, email_verified, profile_image_url, creation_date FROM users where ",
    );
    sql.append(column);
    sql.append(" = ");
    sql.append(placeholder);
    sql.append(";");
    sql
}

/// The statement that marks the account an identifier stands for as
/// deleted. The identifier decides the column and nothing else: its text
/// is no part of the statement, and is to be bound to the placeholder.
pub fn user_delete_sql(who: &str) -> (sql: String)
    ensures
        sql@ == delete_statement(column_name(column_of(kind_of(who@))), "$1"@),
{
    let (column, placeholder) = column_placeholder(who);
    let mut sql: String = String::from_str("update users set status='deleted' where ");
    sql.append(column);
    sql.append("=");
    sql.append(placeholder);
    sql.append(" RETURNING *;");
    sql
}

} // verus!
