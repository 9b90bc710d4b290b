//! Shared spaces: the menus and panels of a space, its members, the links
//! that join one or open a shared note, and what each failure tells the
//! user.

use crate::text::{char_prefix, opt_text, same_text, to_upper, uppercase};
use vstd::prelude::*;

verus! {

/// Why a call on a space failed.
#[derive(Debug, Clone, Copy, PartialEq, Eq, Structural)]
pub enum SpaceError {
    /// The code or the membership no longer exists.
    Gone,
    /// The service could not be reached.
    Offline,
    /// The service refused the account.
    Refused,
    /// No service is configured.
    NoBackend,
    /// The space is full.
    Limit,
    /// The space may only be read.
    ReadOnly,
    /// Anything else.
    Other,
}

/// The message key shown when joining a space fails: each failure sends
/// the user somewhere different.
pub open spec fn join_error_key_spec(e: SpaceError) -> Seq<char> {
    match e {
        SpaceError::Gone => "space-join-dead-code"@,
        SpaceError::Offline => "space-join-offline"@,
        SpaceError::Refused => "space-join-no-account"@,
        SpaceError::NoBackend => "space-join-no-backend"@,
        SpaceError::Limit => "space-join-full"@,
        SpaceError::ReadOnly | SpaceError::Other => "space-join-failed"@,
    }
}

/// The message key for a failed join.
pub fn join_error_key(e: &SpaceError) -> (r: &'static str)
    ensures
        r@ == join_error_key_spec(*e),
{
    match e {
        SpaceError::Gone => "space-join-dead-code",
        SpaceError::Offline => "space-join-offline",
        SpaceError::Refused => "space-join-no-account",
        SpaceError::NoBackend => "space-join-no-backend",
        SpaceError::Limit => "space-join-full",
        SpaceError::ReadOnly | SpaceError::Other => "space-join-failed",
    }
}

/// Whether a failed leave is reported: `Gone` means the membership was
/// already revoked on the server and the local cleanup ran anyway, which is
/// what the user asked for.
pub fn leave_error_shown(e: &SpaceError) -> (r: bool)
    ensures
        r == !(*e is Gone),
{
    match e {
        SpaceError::Gone => false,
        _ => true,
    }
}

/// Why publishing, copying or revoking a share failed.
#[derive(Debug, Clone, Copy, PartialEq, Eq, Structural)]
pub enum ShareError {
    Refused,
    NoBackend,
    Gone,
    Other,
}

/// The message key for a share failure.
pub open spec fn share_error_key_spec(e: ShareError) -> Seq<char> {
    match e {
        ShareError::Refused => "share-refused"@,
        ShareError::NoBackend => "share-offline"@,
        ShareError::Gone => "share-not-found"@,
        ShareError::Other => "share-offline"@,
    }
}

/// The message key shown under a share card when a call fails.
pub fn share_error_key(e: &ShareError) -> (r: &'static str)
    ensures
        r@ == share_error_key_spec(*e),
{
    match e {
        ShareError::Refused => "share-refused",
        ShareError::NoBackend => "share-offline",
        ShareError::Gone => "share-not-found",
        ShareError::Other => "share-offline",
    }
}

/// The panel open under a space's header: one at a time.
#[derive(Debug, Clone, Copy, PartialEq, Eq, Structural)]
pub enum Panel {
    Closed,
    Invite,
    Members,
    NewTheme,
    Rename,
    Leave,
    Stop,
}

/// The entries of a space's menu.
#[derive(Debug, Clone, Copy, PartialEq, Eq, Structural)]
pub enum SpaceMenuItem {
    Invite,
    Members,
    Rename,
    NewTheme,
    Stop,
    Leave,
}

/// The owner invites, renames, adds themes and may stop sharing; a member
/// sees the members and may leave.
pub open spec fn space_menu_spec(is_owner: bool) -> Seq<SpaceMenuItem> {
    if is_owner {
        seq![
            SpaceMenuItem::Invite,
            SpaceMenuItem::Members,
            SpaceMenuItem::Rename,
            SpaceMenuItem::NewTheme,
            SpaceMenuItem::Stop,
        ]
    } else {
        seq![SpaceMenuItem::Members, SpaceMenuItem::Leave]
    }
}

/// The menu of a space, in order.
pub fn space_menu(is_owner: bool) -> (r: Vec<SpaceMenuItem>)
    ensures
        r@ == space_menu_spec(is_owner),
{
    let mut v: Vec<SpaceMenuItem> = Vec::new();
    if is_owner {
        v.push(SpaceMenuItem::Invite);
        v.push(SpaceMenuItem::Members);
        v.push(SpaceMenuItem::Rename);
        v.push(SpaceMenuItem::NewTheme);
        v.push(SpaceMenuItem::Stop);
    } else {
        v.push(SpaceMenuItem::Members);
        v.push(SpaceMenuItem::Leave);
    }
    assert(v@ =~= space_menu_spec(is_owner));
    v
}

/// The panel a menu entry opens.
pub fn panel_for(item: SpaceMenuItem) -> (r: Panel)
    ensures
        r == (match item {
            SpaceMenuItem::Invite => Panel::Invite,
            SpaceMenuItem::Members => Panel::Members,
            SpaceMenuItem::Rename => Panel::Rename,
            SpaceMenuItem::NewTheme => Panel::NewTheme,
            SpaceMenuItem::Stop => Panel::Stop,
            SpaceMenuItem::Leave => Panel::Leave,
        }),
{
    match item {
        SpaceMenuItem::Invite => Panel::Invite,
        SpaceMenuItem::Members => Panel::Members,
        SpaceMenuItem::Rename => Panel::Rename,
        SpaceMenuItem::NewTheme => Panel::NewTheme,
        SpaceMenuItem::Stop => Panel::Stop,
        SpaceMenuItem::Leave => Panel::Leave,
    }
}

/// The header's "+" closes the invite panel when it is open, and opens it
/// (fetching a fresh link) otherwise.
pub fn plus_opens_invite(panel: Panel) -> (r: bool)
    ensures
        r == (panel != Panel::Invite),
{
    panel != Panel::Invite
}

/// An owner may remove any member who is not an owner.
pub fn can_remove_member(viewer_is_owner: bool, member_is_owner: bool) -> (r: bool)
    ensures
        r == (viewer_is_owner && !member_is_owner),
{
    viewer_is_owner && !member_is_owner
}

/// The name a member row shows: "you" for the user, the member's display
/// name, else "anonymous" (both labels in the user's language).
pub fn member_name(me: bool, display_name: &Option<String>, you: &str, anonymous: &str) -> (r: String)
    ensures
        r@ == (if me {
            you@
        } else {
            match display_name {
                Some(n) => n@,
                None => anonymous@,
            }
        }),
{
    if me {
        String::from_str(you)
    } else {
        match display_name {
            Some(n) => String::from_str(n.as_str()),
            None => String::from_str(anonymous),
        }
    }
}

/// A member's initials: the first two characters of the shown name, upper
/// case.
pub fn member_initials(name: &str) -> (r: String)
    ensures
        r@ == uppercase(name@.take(if name@.len() < 2 { name@.len() as int } else { 2 })),
{
    let head = char_prefix(name, 2);
    to_upper(head.as_str())
}

/// What a pasted link is.
#[derive(Debug, Clone, Copy, PartialEq, Eq, Structural)]
pub enum LinkKind {
    /// Nothing FlowFlow knows.
    Unknown,
    /// An invitation to join a space.
    Space,
    /// A shared note or thread to open.
    Share,
}

/// A link that reads as a share link opens a shared note, even when it
/// would also read as a space link; else a space link joins a space.
pub open spec fn link_kind_spec(share_code: Option<Seq<char>>, space_code: Option<Seq<char>>) -> LinkKind {
    if share_code is Some {
        LinkKind::Share
    } else if space_code is Some {
        LinkKind::Space
    } else {
        LinkKind::Unknown
    }
}

/// Tells what a pasted text is from what the share-link and space-link
/// readers found in it.
pub fn link_kind(share_code: &Option<String>, space_code: &Option<String>) -> (r: LinkKind)
    ensures
        r == link_kind_spec(crate::text::opt_text(*share_code), crate::text::opt_text(*space_code)),
{
    if share_code.is_some() {
        LinkKind::Share
    } else if space_code.is_some() {
        LinkKind::Space
    } else {
        LinkKind::Unknown
    }
}

/// The join button's label key: it says what it will do before it is
/// pressed.
pub fn link_button_key(kind: LinkKind) -> (r: &'static str)
    ensures
        r@ == (if kind == LinkKind::Share { "share-open-link"@ } else { "space-join-button"@ }),
{
    match kind {
        LinkKind::Share => "share-open-link",
        _ => "space-join-button",
    }
}

/// What pressing the button does with the pasted text.
#[derive(Debug)]
pub enum LinkAction {
    /// Open the shared note or thread with this code.
    OpenShared { code: String },
    /// Join the space with this code.
    JoinSpace { code: String },
    /// Say that the text is no link FlowFlow knows.
    Invalid,
}

/// The action for a pasted text, from what the two readers found.
pub fn link_action(share_code: Option<String>, space_code: Option<String>) -> (r: LinkAction)
    ensures
        match r {
            LinkAction::OpenShared { code } => share_code == Some(code),
            LinkAction::JoinSpace { code } => share_code is None && space_code == Some(code),
            LinkAction::Invalid => share_code is None && space_code is None,
        },
{
    match share_code {
        Some(code) => LinkAction::OpenShared { code },
        None => match space_code {
            Some(code) => LinkAction::JoinSpace { code },
            None => LinkAction::Invalid,
        },
    }
}

/// Whether the member count follows the space's name (when there are any).
pub fn shows_member_count(count: usize) -> (r: bool)
    ensures
        r == (count > 0),
{
    count > 0
}

} // verus!

verus! {

/// What a share card publishes: a note or a conversation thread.
#[derive(Clone, Copy, Debug, PartialEq, Eq, Structural)]
pub enum ShareKind {
    Note,
    Thread,
}

/// What a share card does when a menu asks to share something.
#[derive(Clone, Copy, Debug, PartialEq, Eq, Structural)]
pub enum ShareRequestPlan {
    /// The request is for another source: leave it.
    NotThis,
    /// The request is taken, but a share call already runs: do nothing more.
    AlreadyBusy,
    /// The source is already shared: copy its link.
    CopyExisting,
    /// Publish the source as this kind, then copy the new link.
    Publish(ShareKind),
}

/// The plan for a share request: only a request for this card's source is
/// taken; while a call runs nothing more happens; an existing share is
/// reused, else the source is published as a thread or as a note.
pub open spec fn share_request_plan_spec(
    requested: Option<Seq<char>>,
    source_id: Seq<char>,
    busy: bool,
    already_shared: bool,
    kind_thread: bool,
) -> ShareRequestPlan {
    if requested != Some(source_id) {
        ShareRequestPlan::NotThis
    } else if busy {
        ShareRequestPlan::AlreadyBusy
    } else if already_shared {
        ShareRequestPlan::CopyExisting
    } else if kind_thread {
        ShareRequestPlan::Publish(ShareKind::Thread)
    } else {
        ShareRequestPlan::Publish(ShareKind::Note)
    }
}

/// Decides what a share card does with a pending share request.
pub fn share_request_plan(
    requested: &Option<String>,
    source_id: &str,
    busy: bool,
    already_shared: bool,
    kind_thread: bool,
) -> (r: ShareRequestPlan)
    ensures
        r == share_request_plan_spec(opt_text(*requested), source_id@, busy, already_shared, kind_thread),
{
    let for_this = match requested {
        Some(id) => same_text(id.as_str(), source_id),
        None => false,
    };
    if !for_this {
        ShareRequestPlan::NotThis
    } else if busy {
        ShareRequestPlan::AlreadyBusy
    } else if already_shared {
        ShareRequestPlan::CopyExisting
    } else if kind_thread {
        ShareRequestPlan::Publish(ShareKind::Thread)
    } else {
        ShareRequestPlan::Publish(ShareKind::Note)
    }
}

} // verus!

verus! {

/// A theme to create in a space.
#[derive(Debug)]
pub struct ThemeRequest {
    pub space_id: String,
    /// The typed name, trimmed.
    pub name: String,
    /// Created as a collaborative theme.
    pub collab: bool,
}

/// The new-theme panel when its create button is pressed: a blank name
/// changes nothing and creates nothing; otherwise the field empties, the
/// panel closes and the trimmed name is created in the space.
pub fn create_theme_pressed(panel: Panel, typed: String, space_id: &str, collab: bool) -> (r: (Panel, String, Option<ThemeRequest>))
    ensures
        match crate::text::entered_spec(typed@) {
            None => r.0 == panel && r.1 == typed && r.2 is None,
            Some(name) => r.0 == Panel::Closed && r.1@.len() == 0 && (r.2 matches Some(q)
                && q.space_id@ == space_id@ && q.name@ == name && q.collab == collab),
        },
{
    match crate::text::entered(typed.as_str()) {
        None => (panel, typed, None),
        Some(name) => (
            Panel::Closed,
            String::new(),
            Some(ThemeRequest { space_id: String::from_str(space_id), name, collab }),
        ),
    }
}

} // verus!
