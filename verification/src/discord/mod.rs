//! Discord: the state that the bot and its tools share, and the request for approval
//! that is posted to a Discord channel.

pub mod laws;
pub mod prompt;

use crate::approval::{closing_text, AfterPrompt, Obstacle, Outcome, Reply};
use crate::pending::PendingApprovals;
use serenity::http::Http;
use std::collections::{HashMap, HashSet};
use std::sync::Arc;
use tokio::sync::oneshot;
use vstd::prelude::*;

verus! {

/// `serenity::http::Http`: the client through which the bot talks to Discord.
#[verifier::external_type_specification]
#[verifier::external_body]
pub struct ExHttp(Http);

/// Shared Discord state for proactive messaging.
///
/// Set when the bot connects. Read to send messages on demand.
pub struct DiscordState {
    http: Option<Arc<Http>>,
    /// Channel ID of the owner's last message: the default for proactive sends.
    owner_channel_id: Option<u64>,
    /// The bot's own user ID, for @mention detection.
    bot_user_id: Option<u64>,
    /// Guild ID of the last guild message, for guild-scoped actions.
    guild_id: Option<u64>,
    /// From session to channel, for approval routing. A session is known by the 128-bit
    /// number of its UUID.
    session_channels: HashMap<u128, u64>,
    pending_approvals: PendingApprovals,
    /// Whether all tool calls are approved unasked (the user chose "Always").
    auto_approve_session: bool,
    /// Allowed user IDs, replaced when the configuration changes.
    allowed_users: HashSet<u64>,
}

/// What a [`DiscordState`] holds.
#[verifier::ext_equal]
pub struct DiscordView {
    pub http: Option<Arc<Http>>,
    pub owner_channel_id: Option<u64>,
    pub bot_user_id: Option<u64>,
    pub guild_id: Option<u64>,
    pub session_channels: Map<u128, u64>,
    pub pending_approvals: Map<Seq<char>, oneshot::Sender<(bool, bool)>>,
    pub auto_approve_session: bool,
    pub allowed_users: Set<u64>,
}

/// What a request for approval starts with.
pub enum DiscordStart {
    /// It is decided without asking.
    Decided { approved: bool, obstacle: Option<Obstacle> },
    /// It is to be posted in a channel through a client.
    Ask { http: Arc<Http>, channel_id: u64 },
}

impl DiscordView {
    /// A state in which nothing has happened yet.
    pub open spec fn empty() -> DiscordView {
        DiscordView {
            http: None,
            owner_channel_id: None,
            bot_user_id: None,
            guild_id: None,
            session_channels: Map::empty(),
            pending_approvals: Map::empty(),
            auto_approve_session: false,
            allowed_users: Set::empty(),
        }
    }

    pub open spec fn with_allowed_users(self, users: Seq<u64>) -> DiscordView {
        DiscordView { allowed_users: users.to_set(), ..self }
    }

    pub open spec fn with_connection(
        self,
        http: Arc<Http>,
        channel_id: Option<u64>,
    ) -> DiscordView {
        DiscordView {
            http: Some(http),
            owner_channel_id: if channel_id is Some {
                channel_id
            } else {
                self.owner_channel_id
            },
            ..self
        }
    }

    pub open spec fn with_owner_channel(self, channel_id: u64) -> DiscordView {
        DiscordView { owner_channel_id: Some(channel_id), ..self }
    }

    pub open spec fn with_bot_user(self, id: u64) -> DiscordView {
        DiscordView { bot_user_id: Some(id), ..self }
    }

    pub open spec fn with_guild(self, id: u64) -> DiscordView {
        DiscordView { guild_id: Some(id), ..self }
    }

    pub open spec fn with_session_channel(self, session_id: u128, channel_id: u64) -> DiscordView {
        DiscordView {
            session_channels: self.session_channels.insert(session_id, channel_id),
            ..self
        }
    }

    pub open spec fn with_pending(
        self,
        id: Seq<char>,
        tx: oneshot::Sender<(bool, bool)>,
    ) -> DiscordView {
        DiscordView { pending_approvals: self.pending_approvals.insert(id, tx), ..self }
    }

    pub open spec fn without_pending(self, id: Seq<char>) -> DiscordView {
        DiscordView { pending_approvals: self.pending_approvals.remove(id), ..self }
    }

    pub open spec fn with_auto_approve(self) -> DiscordView {
        DiscordView { auto_approve_session: true, ..self }
    }

    /// The state after the reply to a request: "Always" is remembered.
    pub open spec fn after_reply(self, reply: Reply) -> DiscordView {
        if crate::approval::answer_of(reply).1 {
            self.with_auto_approve()
        } else {
            self
        }
    }

    /// Those on the list are allowed, and nobody else.
    pub open spec fn allows(self, user_id: u64) -> bool {
        self.allowed_users.contains(user_id)
    }

    pub open spec fn session_channel(self, session_id: u128) -> Option<u64> {
        if self.session_channels.contains_key(session_id) {
            Some(self.session_channels[session_id])
        } else {
            None
        }
    }

    /// Where a session's requests go: to its own channel, else to the owner's.
    pub open spec fn route(self, session_id: u128) -> Option<u64> {
        match self.session_channel(session_id) {
            Some(channel_id) => Some(channel_id),
            None => self.owner_channel_id,
        }
    }

    /// What a request of the session starts with.
    pub open spec fn start(self, session_id: u128) -> DiscordStart {
        if self.auto_approve_session {
            DiscordStart::Decided { approved: true, obstacle: None }
        } else {
            match (self.http, self.route(session_id)) {
                (None, _) => DiscordStart::Decided {
                    approved: false,
                    obstacle: Some(Obstacle::NotConnected),
                },
                (Some(_), None) => DiscordStart::Decided {
                    approved: false,
                    obstacle: Some(Obstacle::NoChannel),
                },
                (Some(http), Some(channel_id)) => DiscordStart::Ask { http, channel_id },
            }
        }
    }
}

impl View for DiscordState {
    type V = DiscordView;

    closed spec fn view(&self) -> DiscordView {
        DiscordView {
            http: self.http,
            owner_channel_id: self.owner_channel_id,
            bot_user_id: self.bot_user_id,
            guild_id: self.guild_id,
            session_channels: self.session_channels@,
            pending_approvals: self.pending_approvals@,
            auto_approve_session: self.auto_approve_session,
            allowed_users: self.allowed_users@,
        }
    }
}

impl Default for DiscordState {
    fn default() -> (state: Self)
        ensures
            state@ == DiscordView::empty(),
    {
        Self::new()
    }
}

impl DiscordState {
    /// A state that is not connected and allows nobody.
    pub fn new() -> (state: Self)
        ensures
            state@ == DiscordView::empty(),
    {
        DiscordState {
            http: None,
            owner_channel_id: None,
            bot_user_id: None,
            guild_id: None,
            session_channels: HashMap::new(),
            pending_approvals: PendingApprovals::new(),
            auto_approve_session: false,
            allowed_users: HashSet::new(),
        }
    }

    /// Replaces the allowed users (called on config reload).
    pub fn update_allowed_users(&mut self, users: Vec<u64>)
        ensures
            final(self)@ == old(self)@.with_allowed_users(users@),
    {
        let mut allowed: HashSet<u64> = HashSet::new();
        let mut i: usize = 0;
        while i < users.len()
            invariant
                i <= users@.len(),
                allowed@ == users@.take(i as int).to_set(),
            decreases users@.len() - i,
        {
            proof {
                assert(users@.take(i + 1) =~= users@.take(i as int).push(users@[i as int]));
                users@.take(i as int).lemma_push_to_set_commute(users@[i as int]);
            }
            allowed.insert(users[i]);
            i += 1;
        }
        assert(users@.take(users@.len() as int) =~= users@);
        self.allowed_users = allowed;
    }

    /// Whether a user ID is in the allowed set.
    pub fn is_user_allowed(&self, user_id: u64) -> (allowed: bool)
        ensures
            allowed == self@.allows(user_id),
    {
        self.allowed_users.contains(&user_id)
    }

    /// Stores the connected HTTP client and optionally sets the owner channel.
    pub fn set_connected(&mut self, http: Arc<Http>, channel_id: Option<u64>)
        ensures
            final(self)@ == old(self)@.with_connection(http, channel_id),
    {
        self.http = Some(http);
        if let Some(id) = channel_id {
            self.owner_channel_id = Some(id);
        }
    }

    /// Updates the owner's channel ID (called on each owner message).
    pub fn set_owner_channel(&mut self, channel_id: u64)
        ensures
            final(self)@ == old(self)@.with_owner_channel(channel_id),
    {
        self.owner_channel_id = Some(channel_id);
    }

    /// The HTTP client, if connected.
    pub fn http(&self) -> (http: Option<Arc<Http>>)
        ensures
            http == self@.http,
    {
        match &self.http {
            Some(http) => Some(Arc::clone(http)),
            None => None,
        }
    }

    /// The owner's last channel ID for proactive messaging.
    pub fn owner_channel_id(&self) -> (id: Option<u64>)
        ensures
            id == self@.owner_channel_id,
    {
        self.owner_channel_id
    }

    /// Stores the bot's own user ID.
    pub fn set_bot_user_id(&mut self, id: u64)
        ensures
            final(self)@ == old(self)@.with_bot_user(id),
    {
        self.bot_user_id = Some(id);
    }

    /// The bot's user ID for @mention detection.
    pub fn bot_user_id(&self) -> (id: Option<u64>)
        ensures
            id == self@.bot_user_id,
    {
        self.bot_user_id
    }

    /// Stores the guild ID of an incoming guild message.
    pub fn set_guild_id(&mut self, id: u64)
        ensures
            final(self)@ == old(self)@.with_guild(id),
    {
        self.guild_id = Some(id);
    }

    /// The last-seen guild ID for guild-scoped actions.
    pub fn guild_id(&self) -> (id: Option<u64>)
        ensures
            id == self@.guild_id,
    {
        self.guild_id
    }

    /// Whether Discord is connected.
    pub fn is_connected(&self) -> (connected: bool)
        ensures
            connected == self@.http is Some,
    {
        self.http.is_some()
    }

    /// Records the channel of a session.
    pub fn register_session_channel(&mut self, session_id: u128, channel_id: u64)
        ensures
            final(self)@ == old(self)@.with_session_channel(session_id, channel_id),
    {
        self.session_channels.insert(session_id, channel_id);
    }

    /// The channel of a session.
    pub fn session_channel(&self, session_id: u128) -> (channel_id: Option<u64>)
        ensures
            channel_id == self@.session_channel(session_id),
    {
        match self.session_channels.get(&session_id) {
            Some(channel_id) => Some(*channel_id),
            None => None,
        }
    }

    /// Registers the channel on which the answer to an approval is awaited. An earlier
    /// channel of the same id is dropped unanswered.
    pub fn register_pending_approval(&mut self, id: String, tx: oneshot::Sender<(bool, bool)>)
        ensures
            final(self)@ == old(self)@.with_pending(id@, tx),
            crate::pending::replaced_in(old(self)@.pending_approvals, id@),
    {
        self.pending_approvals.insert(id, tx);
    }

    /// Resolves a pending approval: hands the answer to whoever waits for it. Says
    /// whether there was such an approval.
    pub fn resolve_pending_approval(&mut self, id: &str, approved: bool, always: bool) -> (existed:
        bool)
        ensures
            existed == old(self)@.pending_approvals.contains_key(id@),
            existed ==> crate::pending::handed_over(
                old(self)@.pending_approvals[id@],
                (approved, always),
            ),
            final(self)@ == old(self)@.without_pending(id@),
    {
        self.pending_approvals.resolve(id, approved, always)
    }

    /// Marks the session as auto-approve (the user chose "Always").
    pub fn set_auto_approve_session(&mut self)
        ensures
            final(self)@ == old(self)@.with_auto_approve(),
    {
        self.auto_approve_session = true;
    }

    /// Whether all tool calls are approved unasked.
    pub fn is_auto_approve_session(&self) -> (auto: bool)
        ensures
            auto == self@.auto_approve_session,
    {
        self.auto_approve_session
    }

    /// Begins a request for approval: decides it, or says where and through which client
    /// to ask.
    pub fn begin_approval(&self, session_id: u128) -> (start: DiscordStart)
        ensures
            start == self@.start(session_id),
    {
        if self.is_auto_approve_session() {
            return DiscordStart::Decided { approved: true, obstacle: None };
        }
        let http = match self.http() {
            Some(http) => http,
            None => {
                return DiscordStart::Decided {
                    approved: false,
                    obstacle: Some(Obstacle::NotConnected),
                };
            },
        };
        let channel_id = match self.session_channel(session_id) {
            Some(id) => id,
            None => match self.owner_channel_id() {
                Some(id) => id,
                None => {
                    return DiscordStart::Decided {
                        approved: false,
                        obstacle: Some(Obstacle::NoChannel),
                    };
                },
            },
        };
        DiscordStart::Ask { http, channel_id }
    }

    /// Goes on after the attempt to post a request: waits for the answer, or denies the
    /// request if it was not posted.
    pub fn after_prompt(&mut self, approval_id: String, posted: bool) -> (after: AfterPrompt<bool>)
        ensures
            posted ==> final(self)@ == old(self)@.with_pending(
                approval_id@,
                final(self)@.pending_approvals[approval_id@],
            ),
            posted ==> after is Wait && crate::pending::arriving_at(after->Wait_0)
                == crate::pending::sent_through(final(self)@.pending_approvals[approval_id@]),
            posted ==> crate::pending::replaced_in(old(self)@.pending_approvals, approval_id@),
            !posted ==> final(self)@ == old(self)@ && after == AfterPrompt::<bool>::Decided(false),
    {
        if posted {
            AfterPrompt::Wait(self.pending_approvals.open(approval_id))
        } else {
            AfterPrompt::Decided(false)
        }
    }

    /// Ends a request with the reply to it, and remembers "Always".
    pub fn conclude_approval(&mut self, reply: Reply) -> (outcome: Outcome<bool>)
        ensures
            outcome.decision == crate::approval::answer_of(reply).0,
            crate::approval::text_view(outcome.closing_text) == crate::approval::closing_text_of(
                reply,
            ),
            final(self)@ == old(self)@.after_reply(reply),
    {
        let (approved, always) = crate::approval::answer(reply);
        if always {
            self.set_auto_approve_session();
        }
        Outcome { decision: approved, closing_text: closing_text(reply) }
    }
}

} // verus!
