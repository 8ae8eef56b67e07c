//! The character registry of the Ruin guild: submissions posted in a
//! listener channel are cross-posted for review, and moderators accept or
//! deny them with buttons.
use std::collections::HashMap;
use vstd::prelude::*;
use crate::text::{chars_of, decimal, ends_with, push_char, push_decimal, same_text, starts_with};

verus! {

/// The Ruin guild.
pub const RUIN_GUILD_ID: u64 = 933683767908913222;
/// The role given to members whose character was approved.
pub const REGISTERED_OC_ROLE_ID: u64 = 934564453461131324;
/// The channel in which characters are submitted.
pub const LISTENER_CHANNEL_ID: u64 = 960791596100648990;
/// The channel in which submissions wait for review.
pub const PENDING_CHANNEL_ID: u64 = 1031739800862081084;

/// A submission waiting for review: the submitted message, its cross-post
/// in the review channel, and the member who submitted it.
#[derive(Clone, Copy, Debug, PartialEq, Eq, Structural)]
pub struct PendingContainer {
    pub original_message: u64,
    pub crosspost_message: u64,
    pub user_id: u64,
}

/// The longest message, in characters, that is passed on unchanged.
pub const MESSAGE_LIMIT: usize = 2000;
/// The number of characters kept of a longer message.
pub const TRIMMED_LENGTH: usize = 1900;

/// A message as it is cross-posted: unchanged when it is at most 2000
/// characters long, else its first 1900 characters followed by
/// `..[N more characters]`, where N is the number of characters cut off.
pub open spec fn trimmed(s: Seq<char>) -> Seq<char> {
    if s.len() > MESSAGE_LIMIT {
        s.take(TRIMMED_LENGTH as int) + "..["@ + decimal((s.len() - TRIMMED_LENGTH) as nat)
            + " more characters]"@
    } else {
        s
    }
}

/// Trims a message to fit the review channel.
pub fn trim_content(input: &String) -> (output: String)
    ensures
        output@ == trimmed(input@),
{
    let chars = chars_of(input.as_str());
    let len = chars.len();
    if len > MESSAGE_LIMIT {
        let mut output = String::new();
        let mut i: usize = 0;
        while i < TRIMMED_LENGTH
            invariant
                i <= TRIMMED_LENGTH,
                TRIMMED_LENGTH < chars@.len(),
                output@ == chars@.take(i as int),
            decreases TRIMMED_LENGTH - i,
        {
            push_char(&mut output, chars[i]);
            assert(chars@.take(i + 1) =~= chars@.take(i as int).push(chars@[i as int]));
            i = i + 1;
        }
        output.append("..[");
        push_decimal(&mut output, (len - TRIMMED_LENGTH) as u64);
        output.append(" more characters]");
        output
    } else {
        input.clone()
    }
}

} // verus!

verus! {

/// Every entry is filed under the submitted message or under its
/// cross-post.
pub open spec fn filed_under_own_messages(entries: Map<u64, PendingContainer>) -> bool {
    forall|id: u64| #[trigger] entries.contains_key(id) ==> entries[id].original_message == id
        || entries[id].crosspost_message == id
}

/// The submissions waiting for review, each found under both its submitted
/// message and its cross-post.
pub struct PendingRegistry {
    entries: HashMap<u64, PendingContainer>,
}

impl View for PendingRegistry {
    type V = Map<u64, PendingContainer>;

    closed spec fn view(&self) -> Map<u64, PendingContainer> {
        self.entries@
    }
}

/// What to do about an edit of a message.
#[derive(Clone, Copy, Debug, PartialEq, Eq, Structural)]
pub enum UpdateAction {
    /// The message is no submission under review.
    Ignore,
    /// The message was deleted: the submission was withdrawn from the
    /// registry, and its submitted message is to be deleted.
    Withdrawn(PendingContainer),
    /// The message was edited: its cross-post is to be edited to match.
    Edit(PendingContainer),
}

impl PendingRegistry {
    /// An empty registry.
    pub fn new() -> (r: Self)
        ensures
            r@ == Map::<u64, PendingContainer>::empty(),
    {
        PendingRegistry { entries: HashMap::new() }
    }

    /// Files a submission under its submitted message and its cross-post.
    pub fn register(&mut self, original_message: u64, crosspost_message: u64, user_id: u64)
        -> (container: PendingContainer)
        ensures
            container == (PendingContainer { original_message, crosspost_message, user_id }),
            final(self)@ == old(self)@.insert(original_message, container).insert(
                crosspost_message,
                container,
            ),
            filed_under_own_messages(old(self)@) ==> filed_under_own_messages(final(self)@),
    {
        let container = PendingContainer { original_message, crosspost_message, user_id };
        self.entries.insert(original_message, container);
        self.entries.insert(crosspost_message, container);
        container
    }

    /// The submission filed under the message `id`, if any.
    pub fn lookup(&self, id: u64) -> (r: Option<PendingContainer>)
        ensures
            r == (if self@.contains_key(id) { Some(self@[id]) } else { None::<PendingContainer> }),
    {
        match self.entries.get(&id) {
            Some(c) => Some(*c),
            None => None,
        }
    }

    /// Whether a submission is filed under the message `id`.
    pub fn contains(&self, id: u64) -> (r: bool)
        ensures
            r == self@.contains_key(id),
    {
        self.entries.contains_key(&id)
    }

    /// Closes a reviewed submission: forgets it under its cross-post and
    /// under its submitted message.
    pub fn settle(&mut self, pending: &PendingContainer)
        ensures
            final(self)@ == old(self)@.remove(pending.crosspost_message).remove(pending.original_message),
            filed_under_own_messages(old(self)@) ==> filed_under_own_messages(final(self)@),
    {
        self.entries.remove(&pending.crosspost_message);
        self.entries.remove(&pending.original_message);
    }

    /// Decides what an edit of the message `event_id` calls for; a deleted
    /// message withdraws its submission, forgetting its cross-post and then
    /// its submitted message.
    pub fn on_message_update(&mut self, event_id: u64, message_deleted: bool) -> (action: UpdateAction)
        ensures
            !old(self)@.contains_key(event_id) ==> action == UpdateAction::Ignore && final(self)@
                == old(self)@,
            old(self)@.contains_key(event_id) && message_deleted ==> {
                let c = old(self)@[event_id];
                &&& action == UpdateAction::Withdrawn(c)
                &&& final(self)@ == old(self)@.remove(c.crosspost_message).remove(c.original_message)
            },
            old(self)@.contains_key(event_id) && !message_deleted ==> action == UpdateAction::Edit(
                old(self)@[event_id],
            ) && final(self)@ == old(self)@,
            filed_under_own_messages(old(self)@) ==> filed_under_own_messages(final(self)@),
    {
        match self.lookup(event_id) {
            None => UpdateAction::Ignore,
            Some(pending) => {
                if message_deleted {
                    self.entries.remove(&pending.crosspost_message);
                    self.entries.remove(&pending.original_message);
                    UpdateAction::Withdrawn(pending)
                } else {
                    UpdateAction::Edit(pending)
                }
            },
        }
    }
}

/// The top border that a character submission starts with.
pub const SUBMISSION_TOP: &'static str = "╭──────────────────.★..─╮";
/// The bottom border that a character submission ends with.
pub const SUBMISSION_BOTTOM: &'static str = "╰─..★.──────────────────╯";

/// Whether a message is a character submission: posted in the listener
/// channel of the Ruin guild, and framed by the submission borders.
pub fn is_registry_submission(guild_id: Option<u64>, channel_id: u64, content: &str) -> (r: bool)
    ensures
        r == (guild_id == Some(RUIN_GUILD_ID) && channel_id == LISTENER_CHANNEL_ID
            && SUBMISSION_TOP@.is_prefix_of(content@) && SUBMISSION_BOTTOM@.is_suffix_of(content@)),
{
    match guild_id {
        None => false,
        Some(g) => g == RUIN_GUILD_ID && channel_id == LISTENER_CHANNEL_ID && starts_with(
            content,
            SUBMISSION_TOP,
        ) && ends_with(content, SUBMISSION_BOTTOM),
    }
}

/// A button pressed on a message, as the registry reads it.
#[derive(Clone, Copy, Debug, PartialEq, Eq, Structural)]
pub enum RegistryButton {
    /// A button of some other feature.
    NotOurs,
    /// The accept button.
    Accept,
    /// The deny button.
    Deny,
    /// A button named like the registry's but unknown to it.
    Unknown,
}

/// The custom id of the accept button.
pub const ACCEPT_BUTTON_ID: &'static str = "ruin_accept";
/// The custom id of the deny button.
pub const DENY_BUTTON_ID: &'static str = "ruin_deny";
/// The prefix of the custom ids of the registry's buttons.
pub const BUTTON_PREFIX: &'static str = "ruin_";

/// Reads the custom id of a pressed button.
pub fn registry_button(custom_id: &str) -> (b: RegistryButton)
    ensures
        b == (if !BUTTON_PREFIX@.is_prefix_of(custom_id@) {
            RegistryButton::NotOurs
        } else if custom_id@ == ACCEPT_BUTTON_ID@ {
            RegistryButton::Accept
        } else if custom_id@ == DENY_BUTTON_ID@ {
            RegistryButton::Deny
        } else {
            RegistryButton::Unknown
        }),
{
    if !starts_with(custom_id, BUTTON_PREFIX) {
        RegistryButton::NotOurs
    } else if same_text(custom_id, ACCEPT_BUTTON_ID) {
        RegistryButton::Accept
    } else if same_text(custom_id, DENY_BUTTON_ID) {
        RegistryButton::Deny
    } else {
        RegistryButton::Unknown
    }
}

/// The label of the accept button.
pub const ACCEPT_LABEL: &'static str = "Accept";
/// The label of the deny button.
pub const DENY_LABEL: &'static str = "Deny";
/// The label of the cross-post field that shows when the account was made.
pub const ACCOUNT_CREATED_FIELD: &'static str = "Account Created";
/// The label of the cross-post field that links to the submission.
pub const MESSAGE_LINK_FIELD: &'static str = "Message Link";

/// The reply to an approved submission.
pub const APPROVED_REPLY: &'static str = "Your character has been approved! Post it in <#1001500979755241603>";
/// The reply to a denied submission.
pub const DENIED_REPLY: &'static str = "Your character has been denied.";

/// The roles of a member whose character was approved: the roles held,
/// followed by the registered-character role.
pub fn approved_roles(roles: &Vec<u64>) -> (r: Vec<u64>)
    ensures
        r@ == roles@.push(REGISTERED_OC_ROLE_ID),
{
    let mut r = roles.clone();
    r.push(REGISTERED_OC_ROLE_ID);
    r
}

/// The value of the "Message Link" field of a cross-post.
pub fn message_link_field(link: &str) -> (r: String)
    ensures
        r@ == "[Here]("@ + link@ + ")"@,
{
    let mut r = String::from_str("[Here](");
    r.append(link);
    r.append(")");
    r
}

} // verus!

verus! {

/// Ten to the power `k`.
pub open spec fn pow10(k: nat) -> nat
    decreases k,
{
    if k == 0 { 1 } else { 10 * pow10((k - 1) as nat) }
}

proof fn lemma_decimal_length(n: nat, k: nat)
    requires
        n < pow10(k),
    ensures
        decimal(n).len() <= if k == 0 { 1 } else { k },
    decreases n,
{
    if n >= 10 {
        assert(k > 0);
        assert(n / 10 < pow10((k - 1) as nat));
        lemma_decimal_length(n / 10, (k - 1) as nat);
    }
}

proof fn lemma_u64_below_pow10_20(n: nat)
    requires
        n <= u64::MAX,
    ensures
        n < pow10(20),
{
    reveal_with_fuel(pow10, 21);
}

/// A trimmed message fits in a Discord message: it is at most 2000
/// characters long.
pub proof fn law_trimmed_fits(s: Seq<char>)
    requires
        s.len() <= usize::MAX,
    ensures
        trimmed(s).len() <= MESSAGE_LIMIT,
{
    if s.len() > MESSAGE_LIMIT {
        lemma_u64_below_pow10_20((s.len() - TRIMMED_LENGTH) as nat);
        lemma_decimal_length((s.len() - TRIMMED_LENGTH) as nat, 20);
        reveal_strlit("..[");
        reveal_strlit(" more characters]");
    }
}

/// Trimming keeps the beginning of a message: a message of at most 2000
/// characters is passed on as it is, and a longer one starts with its own
/// first 1900 characters, followed by `..[`.
pub proof fn law_trim_keeps_beginning(s: Seq<char>)
    ensures
        s.len() <= 2000 ==> trimmed(s) == s,
        s.len() > 2000 ==> trimmed(s).len() > 1903 && trimmed(s).take(1900) == s.take(1900)
            && trimmed(s).subrange(1900, 1903) == seq!['.', '.', '['],
{
    if s.len() > 2000 {
        reveal_strlit("..[");
        let t = trimmed(s);
        assert(t.take(1900) =~= s.take(1900));
        assert(t.subrange(1900, 1903) =~= seq!['.', '.', '[']);
    }
}

/// Trimming a trimmed message changes nothing.
pub proof fn law_trim_idempotent(s: Seq<char>)
    requires
        s.len() <= usize::MAX,
    ensures
        trimmed(trimmed(s)) == trimmed(s),
{
    law_trimmed_fits(s);
}

/// A submission just registered is found under its submitted message and
/// under its cross-post.
pub proof fn law_registered_under_both(before: Map<u64, PendingContainer>, c: PendingContainer)
    ensures
        ({
            let after = before.insert(c.original_message, c).insert(c.crosspost_message, c);
            &&& after.contains_key(c.original_message) && after[c.original_message] == c
            &&& after.contains_key(c.crosspost_message) && after[c.crosspost_message] == c
        }),
{
}

/// Closing a submission after its review, or withdrawing it by deleting
/// its message, forgets it under both of its messages and leaves every
/// other entry as it was.
pub proof fn law_withdrawal_forgets_both(before: Map<u64, PendingContainer>, c: PendingContainer, id: u64)
    requires
        id != c.original_message,
        id != c.crosspost_message,
    ensures
        ({
            let after = before.remove(c.crosspost_message).remove(c.original_message);
            &&& !after.contains_key(c.original_message)
            &&& !after.contains_key(c.crosspost_message)
            &&& after.contains_key(id) == before.contains_key(id)
            &&& before.contains_key(id) ==> after[id] == before[id]
        }),
{
}

} // verus!

verus! {

/// What a press on a review button leads to.
#[derive(Clone, Copy, Debug, PartialEq, Eq, Structural)]
pub enum ReviewPlan {
    /// One of the two messages is gone: delete whichever remains, and keep
    /// the submission filed.
    CleanUp { delete_original: bool, delete_crosspost: bool },
    /// Delete the cross-post, reply with the approval, give the registered
    /// role, and close the submission.
    Approve,
    /// Delete the cross-post, reply with the denial, and close the
    /// submission.
    Deny,
    /// The button is named like the registry's but unknown to it.
    Invalid,
}

/// Decides what a press on one of the registry's buttons leads to, given
/// which of the submission's two messages could still be fetched.
pub fn review_plan(button: RegistryButton, original_found: bool, crosspost_found: bool) -> (p: ReviewPlan)
    ensures
        p == (if !original_found || !crosspost_found {
            ReviewPlan::CleanUp { delete_original: original_found, delete_crosspost: crosspost_found }
        } else {
            match button {
                RegistryButton::Accept => ReviewPlan::Approve,
                RegistryButton::Deny => ReviewPlan::Deny,
                _ => ReviewPlan::Invalid,
            }
        }),
{
    if !original_found || !crosspost_found {
        return ReviewPlan::CleanUp { delete_original: original_found, delete_crosspost: crosspost_found };
    }
    match button {
        RegistryButton::Accept => ReviewPlan::Approve,
        RegistryButton::Deny => ReviewPlan::Deny,
        _ => ReviewPlan::Invalid,
    }
}

} // verus!
