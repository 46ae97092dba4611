//! What holds of the Discord state whatever happens to it.

use crate::approval::{Obstacle, Reply};
use crate::discord::{DiscordStart, DiscordView};
use serenity::http::Http;
use std::sync::Arc;
use tokio::sync::oneshot;
use vstd::prelude::*;

verus! {

/// Everything that can happen to a state.
pub enum DiscordChange {
    AllowedUsers(Seq<u64>),
    Connected(Arc<Http>, Option<u64>),
    OwnerChannel(u64),
    BotUser(u64),
    Guild(u64),
    SessionChannel(u128, u64),
    Pending(Seq<char>, oneshot::Sender<(bool, bool)>),
    Resolved(Seq<char>),
    AutoApprove,
    Replied(Reply),
}

impl DiscordView {
    pub open spec fn after(self, change: DiscordChange) -> DiscordView {
        match change {
            DiscordChange::AllowedUsers(users) => self.with_allowed_users(users),
            DiscordChange::Connected(http, channel_id) => self.with_connection(http, channel_id),
            DiscordChange::OwnerChannel(channel_id) => self.with_owner_channel(channel_id),
            DiscordChange::BotUser(id) => self.with_bot_user(id),
            DiscordChange::Guild(id) => self.with_guild(id),
            DiscordChange::SessionChannel(session_id, channel_id) => self.with_session_channel(
                session_id,
                channel_id,
            ),
            DiscordChange::Pending(id, tx) => self.with_pending(id, tx),
            DiscordChange::Resolved(id) => self.without_pending(id),
            DiscordChange::AutoApprove => self.with_auto_approve(),
            DiscordChange::Replied(reply) => self.after_reply(reply),
        }
    }

    /// The state after all of `changes`, in order.
    pub open spec fn after_all(self, changes: Seq<DiscordChange>) -> DiscordView
        decreases changes.len(),
    {
        if changes.len() == 0 {
            self
        } else {
            self.after_all(changes.drop_last()).after(changes.last())
        }
    }
}

/// What has been gained is never lost, whatever happens: the connection, an owner
/// channel, a channel of a session, and the choice of "Always".
pub proof fn law_nothing_is_lost(
    state: DiscordView,
    changes: Seq<DiscordChange>,
    session_id: u128,
)
    ensures
        state.http is Some ==> state.after_all(changes).http is Some,
        state.owner_channel_id is Some ==> state.after_all(changes).owner_channel_id is Some,
        state.session_channel(session_id) is Some ==> state.after_all(changes).session_channel(
            session_id,
        ) is Some,
        state.auto_approve_session ==> state.after_all(changes).auto_approve_session,
    decreases changes.len(),
{
    if changes.len() > 0 {
        law_nothing_is_lost(state, changes.drop_last(), session_id);
    }
}

/// Once somebody has answered "Always", every later request of any session is approved
/// without asking, whatever happens in between.
pub proof fn law_always_ends_the_asking(
    state: DiscordView,
    reply: Reply,
    changes: Seq<DiscordChange>,
    session_id: u128,
)
    requires
        crate::approval::answer_of(reply).1,
    ensures
        state.after_reply(reply).after_all(changes).start(session_id) == (DiscordStart::Decided {
            approved: true,
            obstacle: None,
        }),
{
    law_nothing_is_lost(state.after_reply(reply), changes, session_id);
}

/// A request is approved if and only if requests are approved unasked, or it could be
/// asked, was posted, and was answered with a yes in time. Everything else denies it.
pub proof fn law_approval_needs_a_yes(
    state: DiscordView,
    session_id: u128,
    posted: bool,
    reply: Reply,
)
    ensures
        (match state.start(session_id) {
            DiscordStart::Decided { approved, .. } => approved,
            DiscordStart::Ask { .. } => posted && crate::approval::answer_of(reply).0,
        }) <==> (state.auto_approve_session || (state.http is Some && state.route(session_id) is Some
            && posted && (reply matches Reply::Answered { approved, .. } && approved))),
{
}

/// A request that is asked goes to the session's own channel, or to the owner's if the
/// session has none, and through the client that is connected.
pub proof fn law_requests_go_to_the_session_or_the_owner(state: DiscordView, session_id: u128)
    ensures
        state.start(session_id) matches DiscordStart::Ask { http, channel_id } ==> state.http
            == Some(http) && (state.session_channel(session_id) == Some(channel_id) || (
        state.session_channel(session_id) is None && state.owner_channel_id == Some(channel_id))),
{
}

/// The channel registered last for a session is the one found, and other sessions keep
/// theirs.
pub proof fn law_session_channel_is_found(
    state: DiscordView,
    session_id: u128,
    channel_id: u64,
    other: u128,
)
    ensures
        state.with_session_channel(session_id, channel_id).session_channel(session_id) == Some(
            channel_id,
        ),
        other != session_id ==> state.with_session_channel(
            session_id,
            channel_id,
        ).session_channel(other) == state.session_channel(other),
{
}

/// A list of allowed users allows exactly those on it, and replaces the list before it.
pub proof fn law_allowed_users_are_replaced(
    state: DiscordView,
    earlier: Seq<u64>,
    users: Seq<u64>,
    user_id: u64,
)
    ensures
        state.with_allowed_users(users).allows(user_id) <==> users.contains(user_id),
        state.with_allowed_users(earlier).with_allowed_users(users) == state.with_allowed_users(
            users,
        ),
{
}

/// Only a new list changes who is allowed.
pub proof fn law_only_a_list_changes_who_is_allowed(
    state: DiscordView,
    change: DiscordChange,
    user_id: u64,
)
    requires
        !(change is AllowedUsers),
    ensures
        state.after(change).allows(user_id) == state.allows(user_id),
{
}

/// A registered approval is pending under its id, with the sender registered last.
/// Resolving it leaves the others as they are, and nothing to resolve a second time.
pub proof fn law_approval_is_resolved_once(
    state: DiscordView,
    id: Seq<char>,
    tx: oneshot::Sender<(bool, bool)>,
    other: Seq<char>,
)
    ensures
        state.with_pending(id, tx).pending_approvals.contains_key(id),
        state.with_pending(id, tx).pending_approvals[id] == tx,
        !state.without_pending(id).pending_approvals.contains_key(id),
        state.without_pending(id).without_pending(id) == state.without_pending(id),
        state.with_pending(id, tx).without_pending(id) == state.without_pending(id),
        other != id ==> state.without_pending(id).pending_approvals.contains_key(other)
            == state.pending_approvals.contains_key(other),
        other != id && state.pending_approvals.contains_key(other) ==> state.without_pending(
            id,
        ).pending_approvals[other] == state.pending_approvals[other],
{
    assert(state.without_pending(id).without_pending(id) =~= state.without_pending(id));
    assert(state.with_pending(id, tx).without_pending(id) =~= state.without_pending(id));
}

/// Connecting without a channel keeps the owner's channel; connecting with one sets it.
pub proof fn law_connecting_sets_the_channel_only_if_given(
    state: DiscordView,
    http: Arc<Http>,
    channel_id: Option<u64>,
)
    ensures
        state.with_connection(http, channel_id).http == Some(http),
        channel_id is None ==> state.with_connection(http, channel_id).owner_channel_id
            == state.owner_channel_id,
        channel_id is Some ==> state.with_connection(http, channel_id).owner_channel_id
            == channel_id,
{
}

/// A state to which nothing has happened is not connected, knows no channel and no id, has
/// nothing pending, allows nobody, and denies every request without asking.
pub proof fn law_new_state_holds_nothing(session_id: u128, id: Seq<char>, user_id: u64)
    ensures
        DiscordView::empty().http is None,
        DiscordView::empty().owner_channel_id is None,
        DiscordView::empty().bot_user_id is None,
        DiscordView::empty().guild_id is None,
        DiscordView::empty().session_channel(session_id) is None,
        !DiscordView::empty().session_channels.contains_key(session_id),
        !DiscordView::empty().pending_approvals.contains_key(id),
        !DiscordView::empty().auto_approve_session,
        !DiscordView::empty().allows(user_id),
        !DiscordView::empty().allowed_users.contains(user_id),
        DiscordView::empty().start(session_id) == (DiscordStart::Decided {
            approved: false,
            obstacle: Some(Obstacle::NotConnected),
        }),
{
}

/// The owner's channel is the one set last, whatever it was before; nothing else changes.
pub proof fn law_owner_channel_is_the_last_one_set(
    state: DiscordView,
    earlier: u64,
    channel_id: u64,
)
    ensures
        state.with_owner_channel(channel_id).owner_channel_id == Some(channel_id),
        state.with_owner_channel(earlier).with_owner_channel(channel_id)
            == state.with_owner_channel(channel_id),
        state.with_owner_channel(channel_id) == (DiscordView {
            owner_channel_id: Some(channel_id),
            ..state
        }),
{
}

/// The bot's user ID and the guild ID are the ones set last; nothing else changes.
pub proof fn law_ids_are_the_last_ones_set(state: DiscordView, earlier: u64, id: u64)
    ensures
        state.with_bot_user(id).bot_user_id == Some(id),
        state.with_bot_user(earlier).with_bot_user(id) == state.with_bot_user(id),
        state.with_bot_user(id) == (DiscordView { bot_user_id: Some(id), ..state }),
        state.with_guild(id).guild_id == Some(id),
        state.with_guild(earlier).with_guild(id) == state.with_guild(id),
        state.with_guild(id) == (DiscordView { guild_id: Some(id), ..state }),
{
}

/// The client is the one that connected last, and the owner's channel changes only if one
/// was given with it; nothing else changes.
pub proof fn law_connecting_changes_only_the_connection(
    state: DiscordView,
    earlier: Arc<Http>,
    http: Arc<Http>,
    channel_id: u64,
)
    ensures
        state.with_connection(http, None) == (DiscordView { http: Some(http), ..state }),
        state.with_connection(http, Some(channel_id)) == (DiscordView {
            http: Some(http),
            owner_channel_id: Some(channel_id),
            ..state
        }),
        state.with_connection(earlier, Some(channel_id)).with_connection(http, None)
            == state.with_connection(http, Some(channel_id)),
        state.with_connection(http, Some(channel_id)) == state.with_connection(
            http,
            None,
        ).with_owner_channel(channel_id),
{
}

/// A new list of allowed users changes nothing but who is allowed.
pub proof fn law_allowing_changes_only_the_list(
    state: DiscordView,
    users: Seq<u64>,
    user_id: u64,
)
    ensures
        state.allows(user_id) <==> state.allowed_users.contains(user_id),
        state.with_allowed_users(users).allowed_users.contains(user_id) <==> users.contains(
            user_id,
        ),
        state.with_allowed_users(users) == (DiscordView {
            allowed_users: users.to_set(),
            ..state
        }),
{
}

/// Registering a session's channel changes nothing but that session's channel.
pub proof fn law_registering_changes_only_the_session(
    state: DiscordView,
    session_id: u128,
    channel_id: u64,
)
    ensures
        state.session_channels.contains_key(session_id) ==> state.session_channel(session_id)
            == Some(state.session_channels[session_id]),
        !state.session_channels.contains_key(session_id) ==> state.session_channel(
            session_id,
        ) is None,
        state.with_session_channel(session_id, channel_id) == (DiscordView {
            session_channels: state.session_channels.insert(session_id, channel_id),
            ..state
        }),
{
}

/// Registering and resolving an approval change nothing but what is pending under its id.
pub proof fn law_pending_changes_only_its_id(
    state: DiscordView,
    id: Seq<char>,
    tx: oneshot::Sender<(bool, bool)>,
)
    ensures
        state.with_pending(id, tx) == (DiscordView {
            pending_approvals: state.pending_approvals.insert(id, tx),
            ..state
        }),
        state.without_pending(id) == (DiscordView {
            pending_approvals: state.pending_approvals.remove(id),
            ..state
        }),
{
}

/// Choosing auto-approval turns it on, whatever the state; nothing else changes.
pub proof fn law_auto_approval_changes_nothing_else(state: DiscordView)
    ensures
        state.with_auto_approve().auto_approve_session,
        state.with_auto_approve() == (DiscordView { auto_approve_session: true, ..state }),
{
}

/// A plain yes, a no, a lost request and a timeout leave the state as it is. "Always" turns
/// auto-approval on, with a yes or without, and does no more.
pub proof fn law_only_always_is_remembered(state: DiscordView, reply: Reply, approved: bool)
    ensures
        state.after_reply(Reply::Answered { approved, always: false }) == state,
        state.after_reply(Reply::Closed) == state,
        state.after_reply(Reply::TimedOut) == state,
        state.after_reply(Reply::Answered { approved, always: true }) == (DiscordView {
            auto_approve_session: true,
            ..state
        }),
        !crate::approval::answer_of(reply).1 ==> state.after_reply(reply) == state,
{
}

/// Whether a change turns auto-approval on: a direct choice, or an answer of "Always".
pub open spec fn chooses_always(change: DiscordChange) -> bool {
    match change {
        DiscordChange::AutoApprove => true,
        DiscordChange::Replied(Reply::Answered { always, .. }) => always,
        _ => false,
    }
}

/// Requests are approved unasked only if that was chosen: where auto-approval is on, it
/// was on before or one of the changes chose it. And every such change turns it on.
pub proof fn law_asking_ends_only_by_choice(state: DiscordView, changes: Seq<DiscordChange>)
    ensures
        state.after_all(changes).auto_approve_session <==> (state.auto_approve_session || exists|
            i: int,
        |
            0 <= i < changes.len() && chooses_always(#[trigger] changes[i])),
    decreases changes.len(),
{
    if changes.len() > 0 {
        let n = changes.len() - 1;
        let before = changes.drop_last();
        law_asking_ends_only_by_choice(state, before);
        if exists|i: int| 0 <= i < before.len() && chooses_always(#[trigger] before[i]) {
            let i = choose|i: int| 0 <= i < before.len() && chooses_always(#[trigger] before[i]);
            assert(chooses_always(changes[i]));
        }
        if exists|i: int| 0 <= i < changes.len() && chooses_always(#[trigger] changes[i]) {
            let i = choose|i: int| 0 <= i < changes.len() && chooses_always(#[trigger] changes[i]);
            if i < n {
                assert(chooses_always(before[i]));
            }
        }
        assert(changes[n] == changes.last());
    }
}

/// The owner's channel after any changes is the one that the last of them set, by a message
/// of the owner or with a connection.
pub proof fn law_owner_channel_follows_the_owner(
    state: DiscordView,
    changes: Seq<DiscordChange>,
    http: Arc<Http>,
    channel_id: u64,
)
    ensures
        state.after_all(changes.push(DiscordChange::OwnerChannel(channel_id))).owner_channel_id
            == Some(channel_id),
        state.after_all(
            changes.push(DiscordChange::Connected(http, Some(channel_id))),
        ).owner_channel_id == Some(channel_id),
        state.after_all(changes.push(DiscordChange::Connected(http, None))).owner_channel_id
            == state.after_all(changes).owner_channel_id,
{
    assert(changes.push(DiscordChange::OwnerChannel(channel_id)).drop_last() =~= changes);
    assert(changes.push(DiscordChange::Connected(http, Some(channel_id))).drop_last() =~= changes);
    assert(changes.push(DiscordChange::Connected(http, None)).drop_last() =~= changes);
}

/// Where requests are approved unasked, every request is, whatever else is known.
pub proof fn law_auto_approval_needs_nothing_else(state: DiscordView, session_id: u128)
    requires
        state.auto_approve_session,
    ensures
        state.start(session_id) == (DiscordStart::Decided { approved: true, obstacle: None }),
{
}

/// Where requests are not approved unasked, one is asked through the connected client in
/// the session's channel if it has one, else in the owner's if there is one. It is denied
/// for want of a connection or a channel, and for nothing else.
pub proof fn law_request_is_asked_where_it_can_be(
    state: DiscordView,
    session_id: u128,
    http: Arc<Http>,
    channel_id: u64,
)
    requires
        !state.auto_approve_session,
    ensures
        state.http == Some(http) && state.session_channels.contains_key(session_id)
            && state.session_channels[session_id] == channel_id ==> state.start(session_id) == (
        DiscordStart::Ask { http, channel_id }),
        state.http == Some(http) && !state.session_channels.contains_key(session_id)
            && state.owner_channel_id == Some(channel_id) ==> state.start(session_id) == (
        DiscordStart::Ask { http, channel_id }),
        state.http is None ==> state.start(session_id) == (DiscordStart::Decided {
            approved: false,
            obstacle: Some(Obstacle::NotConnected),
        }),
        state.http is Some && !state.session_channels.contains_key(session_id)
            && state.owner_channel_id is None ==> state.start(session_id) == (
        DiscordStart::Decided { approved: false, obstacle: Some(Obstacle::NoChannel) }),
{
}

/// A request goes to the session's own channel, else to the owner's.
pub proof fn law_route_prefers_the_session(state: DiscordView, session_id: u128)
    ensures
        state.session_channels.contains_key(session_id) ==> state.route(session_id) == Some(
            state.session_channels[session_id],
        ),
        !state.session_channels.contains_key(session_id) ==> state.route(session_id)
            == state.owner_channel_id,
{
}

} // verus!
