//! What holds of the Slack state whatever happens to it.

use crate::approval::{Obstacle, Reply};
use crate::slack::{SlackStart, SlackStartView, SlackView};
use std::sync::Arc;
use tokio::sync::oneshot;
use vstd::prelude::*;

verus! {

/// Everything that can happen to a state.
pub enum SlackChange<C> {
    AllowedUsers(Seq<Seq<char>>),
    Connected(Arc<C>, Seq<char>, Option<Seq<char>>),
    OwnerChannel(Seq<char>),
    SessionChannel(u128, Seq<char>),
    Pending(Seq<char>, oneshot::Sender<(bool, bool)>),
    Resolved(Seq<char>),
    AutoApprove,
    Replied(Reply),
}

impl<C> SlackView<C> {
    pub open spec fn after(self, change: SlackChange<C>) -> SlackView<C> {
        match change {
            SlackChange::AllowedUsers(users) => self.with_allowed_users(users),
            SlackChange::Connected(client, bot_token, channel_id) => self.with_connection(
                client,
                bot_token,
                channel_id,
            ),
            SlackChange::OwnerChannel(channel_id) => self.with_owner_channel(channel_id),
            SlackChange::SessionChannel(session_id, channel_id) => self.with_session_channel(
                session_id,
                channel_id,
            ),
            SlackChange::Pending(id, tx) => self.with_pending(id, tx),
            SlackChange::Resolved(id) => self.without_pending(id),
            SlackChange::AutoApprove => self.with_auto_approve(),
            SlackChange::Replied(reply) => self.after_reply(reply),
        }
    }

    /// The state after all of `changes`, in order.
    pub open spec fn after_all(self, changes: Seq<SlackChange<C>>) -> SlackView<C>
        decreases changes.len(),
    {
        if changes.len() == 0 {
            self
        } else {
            self.after_all(changes.drop_last()).after(changes.last())
        }
    }
}

/// What has been gained is never lost, whatever happens: the connection and its token, an
/// owner channel, a channel of a session, and the choice of "Always".
pub proof fn law_nothing_is_lost<C>(
    state: SlackView<C>,
    changes: Seq<SlackChange<C>>,
    session_id: u128,
)
    ensures
        state.client is Some ==> state.after_all(changes).client is Some,
        state.bot_token is Some ==> state.after_all(changes).bot_token is Some,
        state.owner_channel_id is Some ==> state.after_all(changes).owner_channel_id is Some,
        state.session_channel(session_id) is Some ==> state.after_all(changes).session_channel(
            session_id,
        ) is Some,
        state.auto_approve_session ==> state.after_all(changes).auto_approve_session,
    decreases changes.len(),
{
    if changes.len() > 0 {
        law_nothing_is_lost(state, changes.drop_last(), session_id);
    }
}

/// Once somebody has answered "Always", every later request of any session is approved
/// without asking, whatever happens in between.
pub proof fn law_always_ends_the_asking<C>(
    state: SlackView<C>,
    reply: Reply,
    changes: Seq<SlackChange<C>>,
    session_id: u128,
)
    requires
        crate::approval::answer_of(reply).1,
    ensures
        state.after_reply(reply).after_all(changes).start(session_id) == (SlackStartView::<C>::Decided {
            answer: (true, true),
            obstacle: None,
        }),
{
    law_nothing_is_lost(state.after_reply(reply), changes, session_id);
}

/// The client and the token come together: a state that began empty has either both or
/// neither, whatever has happened.
pub proof fn law_token_comes_with_the_client<C>(changes: Seq<SlackChange<C>>)
    ensures
        SlackView::<C>::empty().after_all(changes).client is Some
            <==> SlackView::<C>::empty().after_all(changes).bot_token is Some,
    decreases changes.len(),
{
    if changes.len() > 0 {
        law_token_comes_with_the_client(changes.drop_last());
    }
}

/// A request is approved if and only if requests are approved unasked, or it could be
/// asked, was posted, and was answered with a yes in time. Everything else denies it. It
/// counts for always under the same terms, with "Always" in place of the yes.
pub proof fn law_approval_needs_a_yes<C>(
    state: SlackView<C>,
    session_id: u128,
    posted: bool,
    reply: Reply,
)
    ensures
        ({
            let answer = match state.start(session_id) {
                SlackStartView::Decided { answer, .. } => answer,
                SlackStartView::Ask { .. } => if posted {
                    crate::approval::answer_of(reply)
                } else {
                    (false, false)
                },
            };
            let asked = state.client is Some && state.bot_token is Some && state.route(
                session_id,
            ) is Some && posted;
            &&& answer.0 <==> (state.auto_approve_session || (asked && (
            reply matches Reply::Answered { approved, .. } && approved)))
            &&& answer.1 <==> (state.auto_approve_session || (asked && (
            reply matches Reply::Answered { always, .. } && always)))
        }),
{
}

/// A request that is asked goes to the session's own channel, or to the owner's if the
/// session has none, through the client that is connected and under its token.
pub proof fn law_requests_go_to_the_session_or_the_owner<C>(state: SlackView<C>, session_id: u128)
    ensures
        state.start(session_id) matches SlackStartView::Ask { client, bot_token, channel_id }
            ==> state.client == Some(client) && state.bot_token == Some(bot_token) && (
        state.session_channel(session_id) == Some(channel_id) || (state.session_channel(
            session_id,
        ) is None && state.owner_channel_id == Some(channel_id))),
{
}

/// The channel registered last for a session is the one found, and other sessions keep
/// theirs.
pub proof fn law_session_channel_is_found<C>(
    state: SlackView<C>,
    session_id: u128,
    channel_id: Seq<char>,
    other: u128,
)
    ensures
        state.with_session_channel(session_id, channel_id).session_channel(session_id) == Some(
            channel_id,
        ),
        other != session_id ==> state.with_session_channel(
            session_id,
            channel_id,
        ).session_channel(other) == state.session_channel(other),
{
}

/// A list of allowed users allows exactly those on it, and replaces the list before it.
pub proof fn law_allowed_users_are_replaced<C>(
    state: SlackView<C>,
    earlier: Seq<Seq<char>>,
    users: Seq<Seq<char>>,
    user_id: Seq<char>,
)
    ensures
        state.with_allowed_users(users).allows(user_id) <==> users.contains(user_id),
        state.with_allowed_users(earlier).with_allowed_users(users) == state.with_allowed_users(
            users,
        ),
{
}

/// Only a new list changes who is allowed.
pub proof fn law_only_a_list_changes_who_is_allowed<C>(
    state: SlackView<C>,
    change: SlackChange<C>,
    user_id: Seq<char>,
)
    requires
        !(change is AllowedUsers),
    ensures
        state.after(change).allows(user_id) == state.allows(user_id),
{
}

/// A registered approval is pending under its id, with the sender registered last.
/// Resolving it leaves the others as they are, and nothing to resolve a second time.
pub proof fn law_approval_is_resolved_once<C>(
    state: SlackView<C>,
    id: Seq<char>,
    tx: oneshot::Sender<(bool, bool)>,
    other: Seq<char>,
)
    ensures
        state.with_pending(id, tx).pending_approvals.contains_key(id),
        state.with_pending(id, tx).pending_approvals[id] == tx,
        !state.without_pending(id).pending_approvals.contains_key(id),
        state.without_pending(id).without_pending(id) == state.without_pending(id),
        state.with_pending(id, tx).without_pending(id) == state.without_pending(id),
        other != id ==> state.without_pending(id).pending_approvals.contains_key(other)
            == state.pending_approvals.contains_key(other),
        other != id && state.pending_approvals.contains_key(other) ==> state.without_pending(
            id,
        ).pending_approvals[other] == state.pending_approvals[other],
{
    assert(state.without_pending(id).without_pending(id) =~= state.without_pending(id));
    assert(state.with_pending(id, tx).without_pending(id) =~= state.without_pending(id));
}

/// Connecting without a channel keeps the owner's channel; connecting with one sets it.
pub proof fn law_connecting_sets_the_channel_only_if_given<C>(
    state: SlackView<C>,
    client: Arc<C>,
    bot_token: Seq<char>,
    channel_id: Option<Seq<char>>,
)
    ensures
        state.with_connection(client, bot_token, channel_id).client == Some(client),
        state.with_connection(client, bot_token, channel_id).bot_token == Some(bot_token),
        channel_id is None ==> state.with_connection(
            client,
            bot_token,
            channel_id,
        ).owner_channel_id == state.owner_channel_id,
        channel_id is Some ==> state.with_connection(
            client,
            bot_token,
            channel_id,
        ).owner_channel_id == channel_id,
{
}

/// A state to which nothing has happened is not connected, knows no token and no channel, has
/// nothing pending, allows nobody, and denies every request without asking.
pub proof fn law_new_state_holds_nothing<C>(session_id: u128, id: Seq<char>, user_id: Seq<char>)
    ensures
        SlackView::<C>::empty().client is None,
        SlackView::<C>::empty().owner_channel_id is None,
        SlackView::<C>::empty().bot_token is None,
        SlackView::<C>::empty().session_channel(session_id) is None,
        !SlackView::<C>::empty().session_channels.contains_key(session_id),
        !SlackView::<C>::empty().pending_approvals.contains_key(id),
        !SlackView::<C>::empty().auto_approve_session,
        !SlackView::<C>::empty().allows(user_id),
        !SlackView::<C>::empty().allowed_users.contains(user_id),
        SlackView::<C>::empty().start(session_id) == (SlackStartView::<C>::Decided {
            answer: (false, false),
            obstacle: Some(Obstacle::NotConnected),
        }),
{
}

/// The owner's channel is the one set last, whatever it was before; nothing else changes.
pub proof fn law_owner_channel_is_the_last_one_set<C>(
    state: SlackView<C>,
    earlier: Seq<char>,
    channel_id: Seq<char>,
)
    ensures
        state.with_owner_channel(channel_id).owner_channel_id == Some(channel_id),
        state.with_owner_channel(earlier).with_owner_channel(channel_id)
            == state.with_owner_channel(channel_id),
        state.with_owner_channel(channel_id) == (SlackView {
            owner_channel_id: Some(channel_id),
            ..state
        }),
{
}

/// The client and the token are those that connected last, and the owner's channel changes
/// only if one was given with them; nothing else changes.
pub proof fn law_connecting_changes_only_the_connection<C>(
    state: SlackView<C>,
    earlier: (Arc<C>, Seq<char>),
    client: Arc<C>,
    bot_token: Seq<char>,
    channel_id: Seq<char>,
)
    ensures
        state.with_connection(client, bot_token, None) == (SlackView {
            client: Some(client),
            bot_token: Some(bot_token),
            ..state
        }),
        state.with_connection(client, bot_token, Some(channel_id)) == (SlackView {
            client: Some(client),
            bot_token: Some(bot_token),
            owner_channel_id: Some(channel_id),
            ..state
        }),
        state.with_connection(earlier.0, earlier.1, Some(channel_id)).with_connection(
            client,
            bot_token,
            None,
        ) == state.with_connection(client, bot_token, Some(channel_id)),
        state.with_connection(client, bot_token, Some(channel_id)) == state.with_connection(
            client,
            bot_token,
            None,
        ).with_owner_channel(channel_id),
{
}

/// A new list of allowed users changes nothing but who is allowed.
pub proof fn law_allowing_changes_only_the_list<C>(
    state: SlackView<C>,
    users: Seq<Seq<char>>,
    user_id: Seq<char>,
)
    ensures
        state.allows(user_id) <==> state.allowed_users.contains(user_id),
        state.with_allowed_users(users).allowed_users.contains(user_id) <==> users.contains(
            user_id,
        ),
        state.with_allowed_users(users) == (SlackView {
            allowed_users: users.to_set(),
            ..state
        }),
{
}

/// Registering a session's channel changes nothing but that session's channel.
pub proof fn law_registering_changes_only_the_session<C>(
    state: SlackView<C>,
    session_id: u128,
    channel_id: Seq<char>,
)
    ensures
        state.session_channels.contains_key(session_id) ==> state.session_channel(session_id)
            == Some(state.session_channels[session_id]),
        !state.session_channels.contains_key(session_id) ==> state.session_channel(
            session_id,
        ) is None,
        state.with_session_channel(session_id, channel_id) == (SlackView {
            session_channels: state.session_channels.insert(session_id, channel_id),
            ..state
        }),
{
}

/// Registering and resolving an approval change nothing but what is pending under its id.
pub proof fn law_pending_changes_only_its_id<C>(
    state: SlackView<C>,
    id: Seq<char>,
    tx: oneshot::Sender<(bool, bool)>,
)
    ensures
        state.with_pending(id, tx) == (SlackView {
            pending_approvals: state.pending_approvals.insert(id, tx),
            ..state
        }),
        state.without_pending(id) == (SlackView {
            pending_approvals: state.pending_approvals.remove(id),
            ..state
        }),
{
}

/// Choosing auto-approval turns it on, whatever the state; nothing else changes.
pub proof fn law_auto_approval_changes_nothing_else<C>(state: SlackView<C>)
    ensures
        state.with_auto_approve().auto_approve_session,
        state.with_auto_approve() == (SlackView { auto_approve_session: true, ..state }),
{
}

/// A plain yes, a no, a lost request and a timeout leave the state as it is. "Always" turns
/// auto-approval on, with a yes or without, and does no more.
pub proof fn law_only_always_is_remembered<C>(state: SlackView<C>, reply: Reply, approved: bool)
    ensures
        state.after_reply(Reply::Answered { approved, always: false }) == state,
        state.after_reply(Reply::Closed) == state,
        state.after_reply(Reply::TimedOut) == state,
        state.after_reply(Reply::Answered { approved, always: true }) == (SlackView {
            auto_approve_session: true,
            ..state
        }),
        !crate::approval::answer_of(reply).1 ==> state.after_reply(reply) == state,
{
}

/// Whether a change turns auto-approval on: a direct choice, or an answer of "Always".
pub open spec fn chooses_always<C>(change: SlackChange<C>) -> bool {
    match change {
        SlackChange::AutoApprove => true,
        SlackChange::Replied(Reply::Answered { always, .. }) => always,
        _ => false,
    }
}

/// Requests are approved unasked only if that was chosen: where auto-approval is on, it
/// was on before or one of the changes chose it. And every such change turns it on.
pub proof fn law_asking_ends_only_by_choice<C>(state: SlackView<C>, changes: Seq<SlackChange<C>>)
    ensures
        state.after_all(changes).auto_approve_session <==> (state.auto_approve_session || exists|
            i: int,
        |
            0 <= i < changes.len() && chooses_always(#[trigger] changes[i])),
    decreases changes.len(),
{
    if changes.len() > 0 {
        let n = changes.len() - 1;
        let before = changes.drop_last();
        law_asking_ends_only_by_choice(state, before);
        if exists|i: int| 0 <= i < before.len() && chooses_always(#[trigger] before[i]) {
            let i = choose|i: int| 0 <= i < before.len() && chooses_always(#[trigger] before[i]);
            assert(chooses_always(changes[i]));
        }
        if exists|i: int| 0 <= i < changes.len() && chooses_always(#[trigger] changes[i]) {
            let i = choose|i: int| 0 <= i < changes.len() && chooses_always(#[trigger] changes[i]);
            if i < n {
                assert(chooses_always(before[i]));
            }
        }
        assert(changes[n] == changes.last());
    }
}

/// The owner's channel after any changes is the one that the last of them set, by a message
/// of the owner or with a connection.
pub proof fn law_owner_channel_follows_the_owner<C>(
    state: SlackView<C>,
    changes: Seq<SlackChange<C>>,
    client: Arc<C>,
    bot_token: Seq<char>,
    channel_id: Seq<char>,
)
    ensures
        state.after_all(changes.push(SlackChange::OwnerChannel(channel_id))).owner_channel_id
            == Some(channel_id),
        state.after_all(
            changes.push(SlackChange::Connected(client, bot_token, Some(channel_id))),
        ).owner_channel_id == Some(channel_id),
        state.after_all(
            changes.push(SlackChange::Connected(client, bot_token, None)),
        ).owner_channel_id == state.after_all(changes).owner_channel_id,
{
    assert(changes.push(SlackChange::OwnerChannel(channel_id)).drop_last() =~= changes);
    assert(changes.push(
        SlackChange::Connected(client, bot_token, Some(channel_id)),
    ).drop_last() =~= changes);
    assert(changes.push(SlackChange::Connected(client, bot_token, None)).drop_last() =~= changes);
}

/// Where requests are approved unasked, every request is, whatever else is known.
pub proof fn law_auto_approval_needs_nothing_else<C>(state: SlackView<C>, session_id: u128)
    requires
        state.auto_approve_session,
    ensures
        state.start(session_id) == (SlackStartView::<C>::Decided { answer: (true, true), obstacle: None }),
{
}

/// Where requests are not approved unasked, one is asked through the connected client and
/// under its token, in the session's channel if it has one, else in the owner's if there is
/// one. It is denied for want of a connection, a token or a channel, and for nothing else.
pub proof fn law_request_is_asked_where_it_can_be<C>(
    state: SlackView<C>,
    session_id: u128,
    client: Arc<C>,
    bot_token: Seq<char>,
    channel_id: Seq<char>,
)
    requires
        !state.auto_approve_session,
    ensures
        state.client == Some(client) && state.bot_token == Some(bot_token)
            && state.session_channels.contains_key(session_id)
            && state.session_channels[session_id] == channel_id ==> state.start(session_id) == (
        SlackStartView::Ask { client, bot_token, channel_id }),
        state.client == Some(client) && state.bot_token == Some(bot_token)
            && !state.session_channels.contains_key(session_id) && state.owner_channel_id == Some(
            channel_id,
        ) ==> state.start(session_id) == (SlackStartView::Ask { client, bot_token, channel_id }),
        state.client is None ==> state.start(session_id) == (SlackStartView::<C>::Decided {
            answer: (false, false),
            obstacle: Some(Obstacle::NotConnected),
        }),
        state.client is Some && state.bot_token is None ==> state.start(session_id) == (
        SlackStartView::<C>::Decided {
            answer: (false, false),
            obstacle: Some(Obstacle::NoBotToken),
        }),
        state.client is Some && state.bot_token is Some && !state.session_channels.contains_key(
            session_id,
        ) && state.owner_channel_id is None ==> state.start(session_id) == (
        SlackStartView::<C>::Decided {
            answer: (false, false),
            obstacle: Some(Obstacle::NoChannel),
        }),
{
}

/// A request goes to the session's own channel, else to the owner's.
pub proof fn law_route_prefers_the_session<C>(state: SlackView<C>, session_id: u128)
    ensures
        state.session_channels.contains_key(session_id) ==> state.route(session_id) == Some(
            state.session_channels[session_id],
        ),
        !state.session_channels.contains_key(session_id) ==> state.route(session_id)
            == state.owner_channel_id,
{
}

/// The views used above say what is in the values they stand for: the start of a request,
/// a list of names and an optional text keep every text as it is, in its place.
pub proof fn law_texts_are_kept<C>(
    client: Arc<C>,
    bot_token: String,
    channel_id: String,
    strings: Seq<String>,
    answer: (bool, bool),
    obstacle: Option<Obstacle>,
)
    ensures
        (SlackStart::Ask { client, bot_token, channel_id })@ == (SlackStartView::Ask {
            client,
            bot_token: bot_token@,
            channel_id: channel_id@,
        }),
        (SlackStart::<C>::Decided { answer, obstacle })@ == (SlackStartView::<C>::Decided {
            answer,
            obstacle,
        }),
        crate::slack::texts(strings).len() == strings.len(),
        forall|i: int|
            0 <= i < strings.len() ==> #[trigger] crate::slack::texts(strings)[i] == strings[i]@,
        crate::approval::text_view(Some(channel_id)) == Some(channel_id@),
        crate::approval::text_view(None) is None,
{
}

} // verus!
