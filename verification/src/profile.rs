//! Profiles: reading them out of storage rows, checking whether a username
//! is free, and changing profile fields under the owner's guard.

use vstd::prelude::*;
use vstd::string::StringExecFns;
use crate::decimal::{format_i64, int_text};
use crate::reply::{OutcomeKind, Reply};

verus! {

/// A row of the user listing, as the storage returns it: every column but
/// the id may be null.
#[derive(Debug)]
pub struct UserRow {
    pub id: i64,
    pub display_name: Option<String>,
    pub location: Option<String>,
    pub profile_image_url: Option<String>,
}

/// An entry of the user listing.
#[derive(Debug)]
pub struct UR {
    pub id: String,
    pub display_name: String,
    pub location: String,
    pub profile_image_url: String,
}

/// The user listing.
#[derive(Debug)]
pub struct UserResponse {
    pub users: Vec<UR>,
}

/// A profile row, as the storage returns it.
#[derive(Debug)]
pub struct ProfileRow {
    pub display_name: Option<String>,
    pub title: Option<String>,
    pub designation: Option<String>,
    pub location: Option<String>,
    pub profile_image_url: Option<String>,
    pub git: Option<String>,
    pub website_url: Option<String>,
    pub twitter: Option<String>,
    pub reputation: Option<i64>,
}

/// A profile, as it is shown.
#[derive(Debug)]
pub struct ProfileResponse {
    pub username: String,
    pub title: String,
    pub designation: String,
    pub location: String,
    pub image_url: String,
    pub git: String,
    pub website: String,
    pub twitter: String,
    pub karma: String,
}

/// The link columns of a profile row.
#[derive(Debug)]
pub struct LinksRow {
    pub website_url: Option<String>,
    pub git: Option<String>,
    pub twitter: Option<String>,
}

/// The links of a profile.
#[derive(Debug)]
pub struct LinksResponse {
    pub website: String,
    pub git: String,
    pub twitter: String,
}

/// Whether a username is free.
#[derive(Clone, Copy, Debug, PartialEq, Eq, Structural)]
pub struct AvailabilityResponse {
    pub success: bool,
}

/// The text of a column that may be null: the empty text for null.
pub open spec fn shown_text(column: Option<String>) -> Seq<char> {
    match column {
        Some(text) => text@,
        None => Seq::<char>::empty(),
    }
}

/// The karma shown for a reputation: its decimal text, and 1 where the
/// column is null.
pub open spec fn shown_karma(reputation: Option<i64>) -> Seq<char> {
    match reputation {
        Some(points) => int_text(points as int),
        None => int_text(1),
    }
}

/// The text of a column that may be null.
pub fn text_or_empty(column: &Option<String>) -> (text: String)
    ensures
        text@ == shown_text(*column),
{
    match column {
        Some(text) => text.clone(),
        None => String::new(),
    }
}

impl UR {
    /// Whether this entry shows the row given.
    pub open spec fn shows(self, row: UserRow) -> bool {
        &&& self.id@ == int_text(row.id as int)
        &&& self.display_name@ == shown_text(row.display_name)
        &&& self.location@ == shown_text(row.location)
        &&& self.profile_image_url@ == shown_text(row.profile_image_url)
    }

    /// The entry that shows a row: the id in decimal, and the empty text
    /// for each null column.
    pub fn from_row(row: &UserRow) -> (entry: UR)
        ensures
            entry.shows(*row),
    {
        UR {
            id: format_i64(row.id),
            display_name: text_or_empty(&row.display_name),
            location: text_or_empty(&row.location),
            profile_image_url: text_or_empty(&row.profile_image_url),
        }
    }
}

impl UserResponse {
    /// Whether this listing shows the rows given, one entry for each row
    /// and in the same order.
    pub open spec fn shows(self, rows: Seq<UserRow>) -> bool {
        &&& self.users@.len() == rows.len()
        &&& forall|i: int| 0 <= i < rows.len() ==> (#[trigger] self.users@[i]).shows(rows[i])
    }

    /// The listing that shows the rows of one page.
    pub fn from_rows(rows: &Vec<UserRow>) -> (listing: UserResponse)
        ensures
            listing.shows(rows@),
    {
        let mut users: Vec<UR> = Vec::new();
        let n: usize = rows.len();
        let mut i: usize = 0;
        while i < n
            invariant
                i <= n,
                n == rows@.len(),
                users@.len() == i,
                forall|j: int| 0 <= j < i ==> (#[trigger] users@[j]).shows(rows@[j]),
            decreases n - i,
        {
            users.push(UR::from_row(&rows[i]));
            i += 1;
        }
        UserResponse { users }
    }
}

impl ProfileResponse {
    /// Whether this profile shows the row given.
    pub open spec fn shows(self, row: ProfileRow) -> bool {
        &&& self.username@ == shown_text(row.display_name)
        &&& self.title@ == shown_text(row.title)
        &&& self.designation@ == shown_text(row.designation)
        &&& self.location@ == shown_text(row.location)
        &&& self.image_url@ == shown_text(row.profile_image_url)
        &&& self.git@ == shown_text(row.git)
        &&& self.website@ == shown_text(row.website_url)
        &&& self.twitter@ == shown_text(row.twitter)
        &&& self.karma@ == shown_karma(row.reputation)
    }

    /// The profile that shows a row: the empty text for each null column,
    /// and a karma of 1 for a null reputation.
    pub fn from_row(row: &ProfileRow) -> (profile: ProfileResponse)
        ensures
            profile.shows(*row),
    {
        let karma: String = match row.reputation {
            Some(points) => format_i64(points),
            None => format_i64(1),
        };
        ProfileResponse {
            username: text_or_empty(&row.display_name),
            title: text_or_empty(&row.title),
            designation: text_or_empty(&row.designation),
            location: text_or_empty(&row.location),
            image_url: text_or_empty(&row.profile_image_url),
            git: text_or_empty(&row.git),
            website: text_or_empty(&row.website_url),
            twitter: text_or_empty(&row.twitter),
            karma,
        }
    }
}

impl LinksResponse {
    /// Whether these links show the row given.
    pub open spec fn shows(self, row: LinksRow) -> bool {
        &&& self.website@ == shown_text(row.website_url)
        &&& self.git@ == shown_text(row.git)
        &&& self.twitter@ == shown_text(row.twitter)
    }

    /// The links that show a row: the empty text for each null column.
    pub fn from_row(row: &LinksRow) -> (links: LinksResponse)
        ensures
            links.shows(*row),
    {
        LinksResponse {
            website: text_or_empty(&row.website_url),
            git: text_or_empty(&row.git),
            twitter: text_or_empty(&row.twitter),
        }
    }
}

/// The answer to reading a listing, a profile or its links: found or not.
pub fn read_reply(found: bool) -> (reply: Reply)
    ensures
        found ==> reply.says(200, OutcomeKind::Success, Seq::<char>::empty()),
        !found ==> reply.says(400, OutcomeKind::NotFound, "Bad request!"@),
{
    if found {
        Reply::bare(200, OutcomeKind::Success)
    } else {
        Reply::new(400, OutcomeKind::NotFound, "Bad request!")
    }
}

/// The answer to asking whether a username is free, with its body.
#[derive(Debug)]
pub struct AvailabilityReply {
    pub reply: Reply,
    pub body: AvailabilityResponse,
}

/// Answers whether a username is free, given whether the lookup found an
/// account of that name. A name is free where, and only where, none was
/// found; a lookup that failed counts as none found.
pub fn username_availability(found: bool) -> (answer: AvailabilityReply)
    ensures
        answer.body.success == !found,
        found ==> answer.reply.says(200, OutcomeKind::Success, "username unavailable"@),
        !found ==> answer.reply.says(200, OutcomeKind::Success, "username available"@),
{
    if found {
        AvailabilityReply {
            reply: Reply::new(200, OutcomeKind::Success, "username unavailable"),
            body: AvailabilityResponse { success: false },
        }
    } else {
        AvailabilityReply {
            reply: Reply::new(200, OutcomeKind::Success, "username available"),
            body: AvailabilityResponse { success: true },
        }
    }
}

/// What to do about a requested username.
#[derive(Clone, Copy, Debug, PartialEq, Eq, Structural)]
pub enum UsernameChange {
    /// The name is held by an account already: report no success, and
    /// leave the storage as it is.
    Taken,
    /// The name is free: store it.
    Store,
}

/// Decides a change of username, given whether the storage holds an
/// account of the requested name.
pub fn plan_username_change(name_found: bool) -> (change: UsernameChange)
    ensures
        name_found ==> change == UsernameChange::Taken,
        !name_found ==> change == UsernameChange::Store,
{
    if name_found {
        UsernameChange::Taken
    } else {
        UsernameChange::Store
    }
}

/// The answer to a change, with what it reports as success.
#[derive(Debug)]
pub struct UpdateReply {
    pub reply: Reply,
    pub success: Option<bool>,
}

/// The answer to a change that the guard let through, given how it ended:
/// whether it took effect, or the storage's complaint. A name that was
/// taken is answered as a change that did not take effect, not as a
/// failure.
pub fn update_reply(ended: Result<bool, String>) -> (answer: UpdateReply)
    ensures
        match ended {
            Ok(done) => answer.reply.says(200, OutcomeKind::Success, Seq::<char>::empty())
                && answer.success == Some(done),
            Err(complaint) => answer.reply.says(500, OutcomeKind::StorageError, complaint@)
                && answer.success is None,
        },
{
    match ended {
        Ok(done) => UpdateReply {
            reply: Reply::bare(200, OutcomeKind::Success),
            success: Some(done),
        },
        Err(complaint) => UpdateReply {
            reply: Reply::new(500, OutcomeKind::StorageError, complaint.as_str()),
            success: None,
        },
    }
}

/// The profile fields that their owner can change one at a time.
#[derive(Clone, Copy, Debug, PartialEq, Eq, Structural)]
pub enum ProfileField {
    Username,
    Title,
    Name,
    Designation,
    Location,
}

/// The column each field is stored in. The username and the name share
/// one: the display name.
pub open spec fn field_column(field: ProfileField) -> Seq<char> {
    match field {
        ProfileField::Username => "display_name"@,
        ProfileField::Title => "title"@,
        ProfileField::Name => "display_name"@,
        ProfileField::Designation => "designation"@,
        ProfileField::Location => "location"@,
    }
}

/// The statement that stores a new value in a column of one user's row,
/// with the value and the user's id left to be bound.
pub open spec fn update_statement(column: Seq<char>) -> Seq<char> {
    "update users set "@ + column + "=$1 where id=$2"@
}

impl ProfileField {
    /// The column this field is stored in. The name comes from this fixed
    /// list and never from caller input.
    pub fn column(&self) -> (name: &'static str)
        ensures
            name@ == field_column(*self),
    {
        match self {
            ProfileField::Username => "display_name",
            ProfileField::Title => "title",
            ProfileField::Name => "display_name",
            ProfileField::Designation => "designation",
            ProfileField::Location => "location",
        }
    }

    /// The statement that changes this field for one user.
    pub fn update_sql(&self) -> (sql: String)
        ensures
            sql@ == update_statement(field_column(*self)),
    {
        let mut sql: String = String::from_str("update users set ");
        sql.append(self.column());
        sql.append("=$1 where id=$2");
        sql
    }
}

} // verus!
