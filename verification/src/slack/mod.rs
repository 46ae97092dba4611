//! Slack: the state that the bot and its tools share, and the request for approval
//! that is posted to a Slack channel.

pub mod laws;
pub mod prompt;

use crate::approval::{closing_text, AfterPrompt, Obstacle, Outcome, Reply};
use crate::pending::PendingApprovals;
use std::collections::HashMap;
use std::sync::Arc;
use tokio::sync::oneshot;
use vstd::hash_set::StringHashSet;
use vstd::prelude::*;

verus! {

/// Shared Slack state for proactive messaging. `C` is the client that talks to Slack.
///
/// Set when the bot connects. Read to send messages on demand.
pub struct SlackState<C> {
    client: Option<Arc<C>>,
    bot_token: Option<String>,
    /// Channel ID of the owner's last message: the default for proactive sends.
    owner_channel_id: Option<String>,
    /// From session to channel, for approval routing. A session is known by the 128-bit
    /// number of its UUID.
    session_channels: HashMap<u128, String>,
    pending_approvals: PendingApprovals,
    /// Whether all tool calls are approved unasked (the user chose "Always").
    auto_approve_session: bool,
    /// Allowed user IDs, replaced when the configuration changes.
    allowed_users: StringHashSet,
}

/// What a [`SlackState`] holds.
#[verifier::ext_equal]
pub struct SlackView<C> {
    pub client: Option<Arc<C>>,
    pub bot_token: Option<Seq<char>>,
    pub owner_channel_id: Option<Seq<char>>,
    pub session_channels: Map<u128, Seq<char>>,
    pub pending_approvals: Map<Seq<char>, oneshot::Sender<(bool, bool)>>,
    pub auto_approve_session: bool,
    pub allowed_users: Set<Seq<char>>,
}

/// What a request for approval starts with.
pub enum SlackStart<C> {
    /// It is decided, as `(approved, always)`, without asking.
    Decided { answer: (bool, bool), obstacle: Option<Obstacle> },
    /// It is to be posted in a channel through a client, under a token.
    Ask { client: Arc<C>, bot_token: String, channel_id: String },
}

pub enum SlackStartView<C> {
    Decided { answer: (bool, bool), obstacle: Option<Obstacle> },
    Ask { client: Arc<C>, bot_token: Seq<char>, channel_id: Seq<char> },
}

impl<C> View for SlackStart<C> {
    type V = SlackStartView<C>;

    open spec fn view(&self) -> SlackStartView<C> {
        match *self {
            SlackStart::Decided { answer, obstacle } => SlackStartView::Decided {
                answer,
                obstacle,
            },
            SlackStart::Ask { client, bot_token, channel_id } => SlackStartView::Ask {
                client,
                bot_token: bot_token@,
                channel_id: channel_id@,
            },
        }
    }
}

/// The texts of a list of strings.
pub open spec fn texts(strings: Seq<String>) -> Seq<Seq<char>> {
    strings.map_values(|s: String| s@)
}

impl<C> SlackView<C> {
    /// A state in which nothing has happened yet.
    pub open spec fn empty() -> SlackView<C> {
        SlackView {
            client: None,
            bot_token: None,
            owner_channel_id: None,
            session_channels: Map::empty(),
            pending_approvals: Map::empty(),
            auto_approve_session: false,
            allowed_users: Set::empty(),
        }
    }

    pub open spec fn with_allowed_users(self, users: Seq<Seq<char>>) -> SlackView<C> {
        SlackView { allowed_users: users.to_set(), ..self }
    }

    pub open spec fn with_connection(
        self,
        client: Arc<C>,
        bot_token: Seq<char>,
        channel_id: Option<Seq<char>>,
    ) -> SlackView<C> {
        SlackView {
            client: Some(client),
            bot_token: Some(bot_token),
            owner_channel_id: if channel_id is Some {
                channel_id
            } else {
                self.owner_channel_id
            },
            ..self
        }
    }

    pub open spec fn with_owner_channel(self, channel_id: Seq<char>) -> SlackView<C> {
        SlackView { owner_channel_id: Some(channel_id), ..self }
    }

    pub open spec fn with_session_channel(
        self,
        session_id: u128,
        channel_id: Seq<char>,
    ) -> SlackView<C> {
        SlackView {
            session_channels: self.session_channels.insert(session_id, channel_id),
            ..self
        }
    }

    pub open spec fn with_pending(
        self,
        id: Seq<char>,
        tx: oneshot::Sender<(bool, bool)>,
    ) -> SlackView<C> {
        SlackView { pending_approvals: self.pending_approvals.insert(id, tx), ..self }
    }

    pub open spec fn without_pending(self, id: Seq<char>) -> SlackView<C> {
        SlackView { pending_approvals: self.pending_approvals.remove(id), ..self }
    }

    pub open spec fn with_auto_approve(self) -> SlackView<C> {
        SlackView { auto_approve_session: true, ..self }
    }

    /// The state after the reply to a request: "Always" is remembered.
    pub open spec fn after_reply(self, reply: Reply) -> SlackView<C> {
        if crate::approval::answer_of(reply).1 {
            self.with_auto_approve()
        } else {
            self
        }
    }

    /// Those on the list are allowed, and nobody else.
    pub open spec fn allows(self, user_id: Seq<char>) -> bool {
        self.allowed_users.contains(user_id)
    }

    pub open spec fn session_channel(self, session_id: u128) -> Option<Seq<char>> {
        if self.session_channels.contains_key(session_id) {
            Some(self.session_channels[session_id])
        } else {
            None
        }
    }

    /// Where a session's requests go: to its own channel, else to the owner's.
    pub open spec fn route(self, session_id: u128) -> Option<Seq<char>> {
        match self.session_channel(session_id) {
            Some(channel_id) => Some(channel_id),
            None => self.owner_channel_id,
        }
    }

    /// What a request of the session starts with.
    pub open spec fn start(self, session_id: u128) -> SlackStartView<C> {
        if self.auto_approve_session {
            SlackStartView::Decided { answer: (true, true), obstacle: None }
        } else {
            match (self.client, self.bot_token, self.route(session_id)) {
                (None, _, _) => SlackStartView::Decided {
                    answer: (false, false),
                    obstacle: Some(Obstacle::NotConnected),
                },
                (Some(_), None, _) => SlackStartView::Decided {
                    answer: (false, false),
                    obstacle: Some(Obstacle::NoBotToken),
                },
                (Some(_), Some(_), None) => SlackStartView::Decided {
                    answer: (false, false),
                    obstacle: Some(Obstacle::NoChannel),
                },
                (Some(client), Some(bot_token), Some(channel_id)) => SlackStartView::Ask {
                    client,
                    bot_token,
                    channel_id,
                },
            }
        }
    }
}

impl<C> View for SlackState<C> {
    type V = SlackView<C>;

    closed spec fn view(&self) -> SlackView<C> {
        SlackView {
            client: self.client,
            bot_token: crate::approval::text_view(self.bot_token),
            owner_channel_id: crate::approval::text_view(self.owner_channel_id),
            session_channels: self.session_channels@.map_values(|s: String| s@),
            pending_approvals: self.pending_approvals@,
            auto_approve_session: self.auto_approve_session,
            allowed_users: self.allowed_users@,
        }
    }
}

impl<C> Default for SlackState<C> {
    fn default() -> (state: Self)
        ensures
            state@ == SlackView::<C>::empty(),
    {
        Self::new()
    }
}

fn copy_text(text: &Option<String>) -> (copy: Option<String>)
    ensures
        crate::approval::text_view(copy) == crate::approval::text_view(*text),
{
    match text {
        Some(t) => Some(t.clone()),
        None => None,
    }
}

impl<C> SlackState<C> {
    /// A state that is not connected and allows nobody.
    pub fn new() -> (state: Self)
        ensures
            state@ == SlackView::<C>::empty(),
    {
        let state = SlackState {
            client: None,
            bot_token: None,
            owner_channel_id: None,
            session_channels: HashMap::new(),
            pending_approvals: PendingApprovals::new(),
            auto_approve_session: false,
            allowed_users: StringHashSet::new(),
        };
        assert(state@ =~= SlackView::<C>::empty());
        state
    }

    /// Replaces the allowed users (called on config reload).
    pub fn update_allowed_users(&mut self, users: Vec<String>)
        ensures
            final(self)@ == old(self)@.with_allowed_users(texts(users@)),
    {
        let mut allowed = StringHashSet::new();
        let mut i: usize = 0;
        while i < users.len()
            invariant
                i <= users@.len(),
                allowed@ == texts(users@.take(i as int)).to_set(),
            decreases users@.len() - i,
        {
            proof {
                let seen = texts(users@.take(i as int));
                assert(texts(users@.take(i + 1)) =~= seen.push(users@[i as int]@));
                seen.lemma_push_to_set_commute(users@[i as int]@);
            }
            allowed.insert(users[i].clone());
            i += 1;
        }
        assert(users@.take(users@.len() as int) =~= users@);
        self.allowed_users = allowed;
    }

    /// Whether a user ID is in the allowed set.
    pub fn is_user_allowed(&self, user_id: &str) -> (allowed: bool)
        ensures
            allowed == self@.allows(user_id@),
    {
        self.allowed_users.contains(user_id)
    }

    /// Stores the connected client, bot token, and optionally the owner's channel.
    pub fn set_connected(
        &mut self,
        client: Arc<C>,
        bot_token: String,
        channel_id: Option<String>,
    )
        ensures
            final(self)@ == old(self)@.with_connection(
                client,
                bot_token@,
                crate::approval::text_view(channel_id),
            ),
    {
        self.client = Some(client);
        self.bot_token = Some(bot_token);
        if let Some(id) = channel_id {
            self.owner_channel_id = Some(id);
        }
    }

    /// Updates the owner's channel ID (called on each owner message).
    pub fn set_owner_channel(&mut self, channel_id: String)
        ensures
            final(self)@ == old(self)@.with_owner_channel(channel_id@),
    {
        self.owner_channel_id = Some(channel_id);
    }

    /// The connected client, if any.
    pub fn client(&self) -> (client: Option<Arc<C>>)
        ensures
            client == self@.client,
    {
        match &self.client {
            Some(client) => Some(Arc::clone(client)),
            None => None,
        }
    }

    /// The bot token for opening API sessions.
    pub fn bot_token(&self) -> (token: Option<String>)
        ensures
            crate::approval::text_view(token) == self@.bot_token,
    {
        copy_text(&self.bot_token)
    }

    /// The owner's last channel ID for proactive messaging.
    pub fn owner_channel_id(&self) -> (id: Option<String>)
        ensures
            crate::approval::text_view(id) == self@.owner_channel_id,
    {
        copy_text(&self.owner_channel_id)
    }

    /// Whether Slack is connected.
    pub fn is_connected(&self) -> (connected: bool)
        ensures
            connected == self@.client is Some,
    {
        self.client.is_some()
    }

    /// Records the channel of a session.
    pub fn register_session_channel(&mut self, session_id: u128, channel_id: String)
        ensures
            final(self)@ == old(self)@.with_session_channel(session_id, channel_id@),
    {
        self.session_channels.insert(session_id, channel_id);
        assert(self@.session_channels =~= old(self)@.session_channels.insert(
            session_id,
            channel_id@,
        ));
    }

    /// The channel of a session.
    pub fn session_channel(&self, session_id: u128) -> (channel_id: Option<String>)
        ensures
            crate::approval::text_view(channel_id) == self@.session_channel(session_id),
    {
        match self.session_channels.get(&session_id) {
            Some(channel_id) => Some(channel_id.clone()),
            None => None,
        }
    }

    /// Registers the channel on which the answer to an approval is awaited. An earlier
    /// channel of the same id is dropped unanswered.
    pub fn register_pending_approval(&mut self, id: String, tx: oneshot::Sender<(bool, bool)>)
        ensures
            final(self)@ == old(self)@.with_pending(id@, tx),
            crate::pending::replaced_in(old(self)@.pending_approvals, id@),
    {
        self.pending_approvals.insert(id, tx);
    }

    /// Resolves a pending approval: hands the answer to whoever waits for it. Says
    /// whether there was such an approval.
    pub fn resolve_pending_approval(&mut self, id: &str, approved: bool, always: bool) -> (existed:
        bool)
        ensures
            existed == old(self)@.pending_approvals.contains_key(id@),
            existed ==> crate::pending::handed_over(
                old(self)@.pending_approvals[id@],
                (approved, always),
            ),
            final(self)@ == old(self)@.without_pending(id@),
    {
        self.pending_approvals.resolve(id, approved, always)
    }

    /// Marks the session as auto-approve (the user chose "Always").
    pub fn set_auto_approve_session(&mut self)
        ensures
            final(self)@ == old(self)@.with_auto_approve(),
    {
        self.auto_approve_session = true;
    }

    /// Whether all tool calls are approved unasked.
    pub fn is_auto_approve_session(&self) -> (auto: bool)
        ensures
            auto == self@.auto_approve_session,
    {
        self.auto_approve_session
    }

    /// Begins a request for approval: decides it, or says where, through which client and
    /// under which token to ask.
    pub fn begin_approval(&self, session_id: u128) -> (start: SlackStart<C>)
        ensures
            start@ == self@.start(session_id),
    {
        if self.is_auto_approve_session() {
            return SlackStart::Decided { answer: (true, true), obstacle: None };
        }
        let client = match self.client() {
            Some(client) => client,
            None => {
                return SlackStart::Decided {
                    answer: (false, false),
                    obstacle: Some(Obstacle::NotConnected),
                };
            },
        };
        let bot_token = match self.bot_token() {
            Some(token) => token,
            None => {
                return SlackStart::Decided {
                    answer: (false, false),
                    obstacle: Some(Obstacle::NoBotToken),
                };
            },
        };
        let channel_id = match self.session_channel(session_id) {
            Some(id) => id,
            None => match self.owner_channel_id() {
                Some(id) => id,
                None => {
                    return SlackStart::Decided {
                        answer: (false, false),
                        obstacle: Some(Obstacle::NoChannel),
                    };
                },
            },
        };
        SlackStart::Ask { client, bot_token, channel_id }
    }

    /// Goes on after the attempt to post a request: waits for the answer, or denies the
    /// request if it was not posted.
    pub fn after_prompt(&mut self, approval_id: String, posted: bool) -> (after: AfterPrompt<
        (bool, bool),
    >)
        ensures
            posted ==> final(self)@ == old(self)@.with_pending(
                approval_id@,
                final(self)@.pending_approvals[approval_id@],
            ),
            posted ==> after is Wait && crate::pending::arriving_at(after->Wait_0)
                == crate::pending::sent_through(final(self)@.pending_approvals[approval_id@]),
            posted ==> crate::pending::replaced_in(old(self)@.pending_approvals, approval_id@),
            !posted ==> final(self)@ == old(self)@ && after == AfterPrompt::<(bool, bool)>::Decided(
                (false, false),
            ),
    {
        if posted {
            AfterPrompt::Wait(self.pending_approvals.open(approval_id))
        } else {
            AfterPrompt::Decided((false, false))
        }
    }

    /// Ends a request with the reply to it, and remembers "Always".
    pub fn conclude_approval(&mut self, reply: Reply) -> (outcome: Outcome<(bool, bool)>)
        ensures
            outcome.decision == crate::approval::answer_of(reply),
            crate::approval::text_view(outcome.closing_text) == crate::approval::closing_text_of(
                reply,
            ),
            final(self)@ == old(self)@.after_reply(reply),
    {
        let (approved, always) = crate::approval::answer(reply);
        if always {
            self.set_auto_approve_session();
        }
        Outcome { decision: (approved, always), closing_text: closing_text(reply) }
    }
}

} // verus!
