//! The rules for archiving silent channels and for picking the members of a
//! new role.

use crate::clock::{days_as_millis, now, span_of_days, Timestamp};
use crate::config::{Config, ConfigView};
use crate::text::{numeral, render_number, same_text};
use vstd::prelude::*;
use vstd::string::*;

verus! {

/// What a channel is used for, as far as the rules ask.
#[derive(Clone, Copy, Debug, PartialEq, Eq, Structural)]
pub enum ChannelKind {
    /// A channel for text messages.
    Text,
    /// A category, which groups channels.
    Category,
    /// Any other kind of channel.
    Other,
}

/// A channel of the guild, with what the rules read of it.
#[derive(Debug)]
pub struct Channel {
    pub id: u64,
    pub kind: ChannelKind,
    pub name: String,
    /// The category that holds the channel.
    pub parent_id: Option<u64>,
    /// The newest message that was sent to the channel.
    pub last_message_id: Option<u64>,
}

/// What a [`Channel`] says.
pub ghost struct ChannelView {
    pub id: u64,
    pub kind: ChannelKind,
    pub name: Seq<char>,
    pub parent_id: Option<u64>,
    pub last_message_id: Option<u64>,
}

impl View for Channel {
    type V = ChannelView;

    open spec fn view(&self) -> ChannelView {
        ChannelView {
            id: self.id,
            kind: self.kind,
            name: self.name@,
            parent_id: self.parent_id,
            last_message_id: self.last_message_id,
        }
    }
}

impl DeepView for Channel {
    type V = ChannelView;

    open spec fn deep_view(&self) -> ChannelView {
        self@
    }
}

/// Whether `channel` is a category called `name`.
pub open spec fn is_category_named(channel: ChannelView, name: Seq<char>) -> bool {
    channel.kind == ChannelKind::Category && channel.name == name
}

/// The place in `channels` of the first category that is called `name`.
pub open spec fn first_category(channels: Seq<ChannelView>, name: Seq<char>) -> Option<int>
    decreases channels.len(),
{
    if channels.len() == 0 {
        None
    } else {
        match first_category(channels.drop_last(), name) {
            Some(index) => Some(index),
            None => if is_category_named(channels.last(), name) {
                Some(channels.len() - 1)
            } else {
                None
            },
        }
    }
}

/// What [`first_category`] finds is a category of the name, and no channel
/// before it is one; where it finds nothing, no channel is one.
pub proof fn lemma_first_category(channels: Seq<ChannelView>, name: Seq<char>)
    ensures
        match first_category(channels, name) {
            Some(index) => {
                &&& 0 <= index < channels.len()
                &&& is_category_named(channels[index], name)
                &&& forall|earlier: int|
                    0 <= earlier < index ==> !is_category_named(channels[earlier], name)
            },
            None => forall|index: int|
                0 <= index < channels.len() ==> !is_category_named(channels[index], name),
        },
    decreases channels.len(),
{
    if channels.len() > 0 {
        lemma_first_category(channels.drop_last(), name);
        assert(forall|index: int|
            0 <= index < channels.len() - 1 ==> channels.drop_last()[index] == channels[index]);
    }
}

/// The first category among the first `n` channels is the first among all.
proof fn lemma_first_category_stays(channels: Seq<ChannelView>, name: Seq<char>, n: int)
    requires
        0 <= n <= channels.len(),
        first_category(channels.take(n), name) is Some,
    ensures
        first_category(channels, name) == first_category(channels.take(n), name),
    decreases channels.len() - n,
{
    if n == channels.len() {
        assert(channels.take(n) =~= channels);
    } else {
        assert(channels.take(n + 1).drop_last() =~= channels.take(n));
        lemma_first_category_stays(channels, name, n + 1);
    }
}

/// The first category of `channels` that is called `name`.
pub fn find_category<'a>(channels: &'a [Channel], name: &str) -> (found: Option<&'a Channel>)
    ensures
        match found {
            Some(category) => first_category(channels.deep_view(), name@) matches Some(index)
                && 0 <= index < channels@.len() && *category == channels@[index],
            None => first_category(channels.deep_view(), name@) is None,
        },
{
    let ghost views = channels.deep_view();
    let mut i: usize = 0;
    while i < channels.len()
        invariant
            i <= channels.len(),
            views == channels.deep_view(),
            first_category(views.take(i as int), name@) is None,
        decreases channels.len() - i,
    {
        let channel = &channels[i];
        let is_category = channel.kind == ChannelKind::Category;
        proof {
            assert(views.take(i + 1).drop_last() =~= views.take(i as int));
        }
        if is_category && same_text(channel.name.as_str(), name) {
            proof {
                lemma_first_category_stays(views, name@, i + 1);
            }
            return Some(channel);
        }
        i = i + 1;
    }
    assert(views.take(i as int) =~= views);
    None
}

/// The milliseconds between the start of 1970 and the start of 2015, from
/// which the ids of messages count their time.
pub const DISCORD_EPOCH: u64 = 1_420_070_400_000;

/// When the message with id `id` was sent, in milliseconds since the start of
/// 1970: an id holds, above its lowest 22 bits, the milliseconds since the
/// start of 2015.
pub open spec fn created_at(id: u64) -> int {
    (id >> 22) + DISCORD_EPOCH
}

/// Computes [`created_at`].
pub fn message_created_at(id: u64) -> (millis: i64)
    ensures
        millis == created_at(id),
{
    assert(id >> 22 <= 0x3ff_ffff_ffff) by (bit_vector);
    ((id >> 22) + DISCORD_EPOCH) as i64
}

/// Whether a channel whose newest message was sent at `created` (in
/// milliseconds since the start of 1970) has been silent for more than
/// `threshold` milliseconds at `now`.
pub open spec fn is_silent(now: Timestamp, threshold: i64, created: int) -> bool {
    now.nanoseconds() - threshold * 1_000_000 > created * 1_000_000
}

/// Decides [`is_silent`].
pub fn silent_since(now: Timestamp, threshold: i64, created: i64) -> (silent: bool)
    ensures
        silent == is_silent(now, threshold, created as int),
{
    let at: i128 = now.secs as i128 * 1_000_000_000 + now.nanos as i128;
    at - threshold as i128 * 1_000_000 > created as i128 * 1_000_000
}

/// Whether `channel` is to be archived: a text channel in the category
/// `active` whose newest message was sent more than `threshold` milliseconds
/// before `now`. A channel that never held a message stays.
pub open spec fn is_archive_target(
    channel: ChannelView,
    active: u64,
    now: Timestamp,
    threshold: i64,
) -> bool {
    &&& channel.kind == ChannelKind::Text
    &&& channel.parent_id == Some(active)
    &&& channel.last_message_id matches Some(id)
    &&& is_silent(now, threshold, created_at(id))
}

/// The ids of the channels to archive, in the order of `channels`.
pub open spec fn archive_targets(
    channels: Seq<ChannelView>,
    active: u64,
    now: Timestamp,
    threshold: i64,
) -> Seq<u64> {
    channels.filter_map(
        |channel: ChannelView|
            if is_archive_target(channel, active, now, threshold) {
                Some(channel.id)
            } else {
                None
            },
    )
}

/// Why no archive run could be planned.
#[derive(Clone, Copy, Debug, PartialEq, Eq, Structural)]
pub enum ArchiveError {
    /// The guild has no category of the name set for the channels in use.
    ActiveCategoryNotFound,
    /// The guild has no category of the name set for archived channels.
    ArchiveCategoryNotFound,
    /// The threshold set is more days than a span of time can hold.
    InvalidThresholdDays,
}

/// An archive run: which channels move, and where to.
#[derive(Debug)]
pub struct ArchivePlan {
    /// The category that the channels move to.
    pub archive_category: u64,
    /// The channels that move, in the order in which the guild lists them.
    pub targets: Vec<u64>,
}

/// What an [`ArchivePlan`] says.
pub ghost struct ArchivePlanView {
    pub archive_category: u64,
    pub targets: Seq<u64>,
}

impl View for ArchivePlan {
    type V = ArchivePlanView;

    open spec fn view(&self) -> ArchivePlanView {
        ArchivePlanView { archive_category: self.archive_category, targets: self.targets@ }
    }
}

/// The archive run for `channels` under `config` at `now`. The run needs both
/// categories, the active one asked for first, and a threshold that a span of
/// time can hold. It moves the targets to the first category of the archive's
/// name; the channels in use are those of the first category of the active
/// name.
pub open spec fn archive_plan(channels: Seq<ChannelView>, config: ConfigView, now: Timestamp) -> Result<
    ArchivePlanView,
    ArchiveError,
> {
    match first_category(channels, config.active_category) {
        None => Err(ArchiveError::ActiveCategoryNotFound),
        Some(active) => match first_category(channels, config.archive_category) {
            None => Err(ArchiveError::ArchiveCategoryNotFound),
            Some(archive) => match days_as_millis(config.threshold_days) {
                None => Err(ArchiveError::InvalidThresholdDays),
                Some(threshold) => Ok(
                    ArchivePlanView {
                        archive_category: channels[archive].id,
                        targets: archive_targets(channels, channels[active].id, now, threshold),
                    },
                ),
            },
        },
    }
}

/// What the outcome of planning says.
pub open spec fn plan_view(plan: Result<ArchivePlan, ArchiveError>) -> Result<
    ArchivePlanView,
    ArchiveError,
> {
    match plan {
        Ok(run) => Ok(run@),
        Err(error) => Err(error),
    }
}

/// Plans the archive run for `channels` under `config` as of `now`.
pub fn plan_archive_at(channels: &[Channel], config: &Config, now: Timestamp) -> (plan: Result<
    ArchivePlan,
    ArchiveError,
>)
    ensures
        plan_view(plan) == archive_plan(channels.deep_view(), config@, now),
{
    let ghost views = channels.deep_view();
    let active = match find_category(channels, config.active_category.as_str()) {
        Some(category) => category.id,
        None => { return Err(ArchiveError::ActiveCategoryNotFound); },
    };
    let archive_category = match find_category(channels, config.archive_category.as_str()) {
        Some(category) => category.id,
        None => { return Err(ArchiveError::ArchiveCategoryNotFound); },
    };
    let threshold = match span_of_days(config.threshold_days) {
        Some(millis) => millis,
        None => { return Err(ArchiveError::InvalidThresholdDays); },
    };
    let mut targets: Vec<u64> = Vec::new();
    let mut i: usize = 0;
    while i < channels.len()
        invariant
            i <= channels.len(),
            views == channels.deep_view(),
            targets@ == archive_targets(views.take(i as int), active, now, threshold),
        decreases channels.len() - i,
    {
        let channel = &channels[i];
        let is_text = channel.kind == ChannelKind::Text;
        let in_use = channel.parent_id == Some(active);
        let silent = match channel.last_message_id {
            Some(id) => silent_since(now, threshold, message_created_at(id)),
            None => false,
        };
        proof {
            assert(views.take(i + 1).drop_last() =~= views.take(i as int));
        }
        if is_text && in_use && silent {
            targets.push(channel.id);
        }
        i = i + 1;
    }
    assert(views.take(i as int) =~= views);
    Ok(ArchivePlan { archive_category, targets })
}

/// Plans the archive run for `channels` under `config` as of the time that
/// the clock shows during the call.
pub fn plan_archive(channels: &[Channel], config: &Config) -> (plan: Result<
    ArchivePlan,
    ArchiveError,
>)
    ensures
        exists|now: Timestamp| plan_view(plan) == archive_plan(channels.deep_view(), config@, now),
{
    let at = now();
    plan_archive_at(channels, config, at)
}

/// How a message refers to the channel with id `id`.
pub open spec fn mention(id: u64) -> Seq<char> {
    "<#"@ + numeral(id as nat) + ">"@
}

/// The mentions of `ids`, in order, with a comma and a space between two.
pub open spec fn mentions(ids: Seq<u64>) -> Seq<char>
    decreases ids.len(),
{
    if ids.len() == 0 {
        Seq::empty()
    } else if ids.len() == 1 {
        mention(ids[0])
    } else {
        mentions(ids.drop_last()) + ", "@ + mention(ids.last())
    }
}

/// The line that reports an archive run that moved `targets`.
pub open spec fn archive_line(targets: Seq<u64>) -> Seq<char> {
    if targets.len() == 0 {
        "no target"@
    } else {
        "archived channels: "@ + mentions(targets)
    }
}

/// Writes the report of an archive run that moved `targets`.
pub fn report_archive(targets: &[u64]) -> (line: String)
    ensures
        line@ == archive_line(targets@),
{
    if targets.len() == 0 {
        return "no target".to_owned();
    }
    let mut line = "archived channels: ".to_owned();
    let mut i: usize = 0;
    while i < targets.len()
        invariant
            i <= targets.len(),
            line@ == "archived channels: "@ + mentions(targets@.take(i as int)),
        decreases targets.len() - i,
    {
        assert(targets@.take(i + 1).drop_last() =~= targets@.take(i as int));
        if i > 0 {
            line.append(", ");
        }
        line.append("<#");
        line.append(render_number(targets[i]).as_str());
        line.append(">");
        i = i + 1;
    }
    assert(targets@.take(i as int) =~= targets@);
    line
}

/// A role of the guild.
#[derive(Debug)]
pub struct GuildRole {
    pub id: u64,
    pub name: String,
}

/// What a [`GuildRole`] says.
pub ghost struct GuildRoleView {
    pub id: u64,
    pub name: Seq<char>,
}

impl View for GuildRole {
    type V = GuildRoleView;

    open spec fn view(&self) -> GuildRoleView {
        GuildRoleView { id: self.id, name: self.name@ }
    }
}

impl DeepView for GuildRole {
    type V = GuildRoleView;

    open spec fn deep_view(&self) -> GuildRoleView {
        self@
    }
}

/// A member of the guild, with the roles held.
#[derive(Debug)]
pub struct Member {
    pub user_id: u64,
    pub roles: Vec<u64>,
}

/// What a [`Member`] says.
pub ghost struct MemberView {
    pub user_id: u64,
    pub roles: Seq<u64>,
}

impl View for Member {
    type V = MemberView;

    open spec fn view(&self) -> MemberView {
        MemberView { user_id: self.user_id, roles: self.roles@ }
    }
}

impl DeepView for Member {
    type V = MemberView;

    open spec fn deep_view(&self) -> MemberView {
        self@
    }
}

/// The name of the role that marks a person.
pub const HUMAN_ROLE: &'static str = "ひと";

/// The name of the role that marks the strongest person.
pub const STRONGEST_HUMAN_ROLE: &'static str = "いちばんつよいひと";

/// Whether a role called `name` marks its holder as a person.
pub open spec fn is_human_role(name: Seq<char>) -> bool {
    name == HUMAN_ROLE@ || name == STRONGEST_HUMAN_ROLE@
}

/// The ids of the roles of `roles` that mark a person, in order.
pub open spec fn human_roles(roles: Seq<GuildRoleView>) -> Seq<u64> {
    roles.filter_map(
        |role: GuildRoleView|
            if is_human_role(role.name) {
                Some(role.id)
            } else {
                None
            },
    )
}

/// Picks the roles that mark a person, as [`human_roles`] says.
pub fn human_role_ids(roles: &[GuildRole]) -> (ids: Vec<u64>)
    ensures
        ids@ == human_roles(roles.deep_view()),
{
    let ghost views = roles.deep_view();
    let mut ids: Vec<u64> = Vec::new();
    let mut i: usize = 0;
    while i < roles.len()
        invariant
            i <= roles.len(),
            views == roles.deep_view(),
            ids@ == human_roles(views.take(i as int)),
        decreases roles.len() - i,
    {
        let role = &roles[i];
        proof {
            assert(views.take(i + 1).drop_last() =~= views.take(i as int));
        }
        if same_text(role.name.as_str(), HUMAN_ROLE) || same_text(
            role.name.as_str(),
            STRONGEST_HUMAN_ROLE,
        ) {
            ids.push(role.id);
        }
        i = i + 1;
    }
    assert(views.take(i as int) =~= views);
    ids
}

/// Whether a member who holds `held` is a person: whether one of the roles
/// held is among `human_role_ids`.
pub open spec fn is_human(held: Seq<u64>, human_role_ids: Seq<u64>) -> bool {
    exists|i: int, j: int|
        0 <= i < held.len() && 0 <= j < human_role_ids.len() && held[i] == human_role_ids[j]
}

/// Decides [`is_human`].
pub fn holds_human_role(held: &[u64], human_role_ids: &[u64]) -> (human: bool)
    ensures
        human == is_human(held@, human_role_ids@),
{
    let mut i: usize = 0;
    while i < held.len()
        invariant
            i <= held.len(),
            forall|a: int, b: int|
                0 <= a < i && 0 <= b < human_role_ids@.len() ==> held@[a] != human_role_ids@[b],
        decreases held.len() - i,
    {
        let mut j: usize = 0;
        while j < human_role_ids.len()
            invariant
                i < held.len(),
                j <= human_role_ids.len(),
                forall|b: int| 0 <= b < j ==> held@[i as int] != human_role_ids@[b],
            decreases human_role_ids.len() - j,
        {
            if held[i] == human_role_ids[j] {
                return true;
            }
            j = j + 1;
        }
        i = i + 1;
    }
    false
}

/// The persons among `members`: the user ids of those who hold one of
/// `human_role_ids`, in order.
pub open spec fn humans(members: Seq<MemberView>, human_role_ids: Seq<u64>) -> Seq<u64> {
    members.filter_map(
        |member: MemberView|
            if is_human(member.roles, human_role_ids) {
                Some(member.user_id)
            } else {
                None
            },
    )
}

/// Picks the persons among `members`, as [`humans`] says.
pub fn find_humans(members: &[Member], human_role_ids: &[u64]) -> (ids: Vec<u64>)
    ensures
        ids@ == humans(members.deep_view(), human_role_ids@),
{
    let ghost views = members.deep_view();
    let mut ids: Vec<u64> = Vec::new();
    let mut i: usize = 0;
    while i < members.len()
        invariant
            i <= members.len(),
            views == members.deep_view(),
            ids@ == humans(views.take(i as int), human_role_ids@),
        decreases members.len() - i,
    {
        let member = &members[i];
        proof {
            assert(views.take(i + 1).drop_last() =~= views.take(i as int));
        }
        if holds_human_role(member.roles.as_slice(), human_role_ids) {
            ids.push(member.user_id);
        }
        i = i + 1;
    }
    assert(views.take(i as int) =~= views);
    ids
}

/// The line that says that the role for the channel `channel` is on its way.
pub open spec fn role_preparing_line(channel: Seq<char>) -> Seq<char> {
    "preparing role "@ + channel + "..."@
}

/// The line that says that the role `role` is there.
pub open spec fn role_created_line(role: Seq<char>) -> Seq<char> {
    "role "@ + role + " is created"@
}

/// Writes the answer to a request for the role of the channel `channel`.
pub fn report_role_preparing(channel: &str) -> (line: String)
    ensures
        line@ == role_preparing_line(channel@),
{
    let mut line = "preparing role ".to_owned();
    line.append(channel);
    line.append("...");
    line
}

/// Writes the notice that the role `role` was created.
pub fn report_role_created(role: &str) -> (line: String)
    ensures
        line@ == role_created_line(role@),
{
    let mut line = "role ".to_owned();
    line.append(role);
    line.append(" is created");
    line
}

} // verus!
